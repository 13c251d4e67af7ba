//! Machine-level laws: facts that tie several operations together.

use vstd::prelude::*;

use crate::cpu::{
    pop_args_spec, pop_regs_spec, pop_spec, pop_state_spec, push_regs_spec, push_spec,
    push_state_spec, reg_word, status_flag, update_sr_spec, with_reg, MachineState, FP, PC,
    REG_BYTES, SP, SR, SR_LOW,
};
use crate::device::Device;
use crate::mapper::first_match;
use crate::memory::{
    lemma_store_word_frame_word, lemma_word_round_trip, store_word_at, word_at, word_from_bytes,
    Memory,
};

verus! {

/// After a flag update, status bit 0 reads exactly "the result was zero"
/// and status bit 1 exactly "the first operand exceeded the result".
/// Every arithmetic and bitwise instruction ends in this update.
pub proof fn lemma_update_sr_flags<M>(s: MachineState<M>, pre: u32, post: u32)
    requires
        s.regs.len() == REG_BYTES,
    ensures
        status_flag(update_sr_spec(s, pre, post), 0) == (post == 0),
        status_flag(update_sr_spec(s, pre, post), 1) == (pre > post),
{
    let s2 = update_sr_spec(s, pre, post);
    let b = s.regs[SR_LOW as int];
    let b1: u8 = if post == 0 {
        b | 0x01
    } else {
        b & 0xFE
    };
    let b2: u8 = if pre > post {
        b1 | 0x02
    } else {
        b1 & 0xFD
    };
    let a0 = s2.regs[SR as int];
    let a1 = s2.regs[SR as int + 1];
    let a2 = s2.regs[SR as int + 2];
    let w = reg_word(s2, SR);
    assert(s2.regs[SR_LOW as int] == b2);
    assert(w == word_from_bytes(a0, a1, a2, b2));
    assert(1u32 << (0u32 % 32) == 1 && 1u32 << (1u32 % 32) == 2) by (bit_vector);
    assert((w & 1 != 0) == (b2 & 0x01 != 0) && (w & 2 != 0) == (b2 & 0x02 != 0)) by (bit_vector)
        requires
            w == ((a0 as u32) << 24) | ((a1 as u32) << 16) | ((a2 as u32) << 8) | (b2 as u32),
    ;
    assert(((b | 0x01) & 0x01 != 0) && ((b & 0xFE) & 0x01 == 0)) by (bit_vector);
    assert(((b1 | 0x02) & 0x02 != 0) && ((b1 & 0xFD) & 0x02 == 0)) by (bit_vector);
    assert(((b1 | 0x02) & 0x01) == (b1 & 0x01) && ((b1 & 0xFD) & 0x01) == (b1 & 0x01))
        by (bit_vector);
}

/// A successful push keeps the stack pointer inside the configured stack
/// window `[stack_start - stack_size, stack_start - 4]` and keeps it
/// word-aligned relative to the stack base.
pub proof fn lemma_push_keeps_sp_in_range<D: Device>(s: MachineState<D::V>, v: u32)
    requires
        s.regs.len() == REG_BYTES,
        s.stack_set,
        s.stack_size <= s.stack_start,
        s.stack_start - s.stack_size <= reg_word(s, SP) <= s.stack_start - 4,
        (s.stack_start - reg_word(s, SP)) % 4 == 0,
    ensures
        match push_spec::<D>(s, v) {
            Ok(s2) => s.stack_start - s.stack_size <= reg_word(s2, SP) <= s.stack_start - 4 && (
            s.stack_start - reg_word(s2, SP)) % 4 == 0,
            Err(_e) => true,
        },
{
    let sp = reg_word(s, SP);
    match push_spec::<D>(s, v) {
        Ok(s2) => {
            lemma_word_round_trip(s.regs, SP as int, (sp - 4) as u32);
        },
        Err(_e) => {},
    }
}

/// A successful pop keeps the stack pointer inside the configured stack
/// window `[stack_start - stack_size, stack_start - 4]` and keeps it
/// word-aligned relative to the stack base.
pub proof fn lemma_pop_keeps_sp_in_range<D: Device>(s: MachineState<D::V>)
    requires
        s.regs.len() == REG_BYTES,
        s.stack_set,
        s.stack_size <= s.stack_start,
        s.stack_start - s.stack_size <= reg_word(s, SP) <= s.stack_start - 4,
        (s.stack_start - reg_word(s, SP)) % 4 == 0,
    ensures
        match pop_spec::<D>(s) {
            Ok((s2, _w)) => s.stack_start - s.stack_size <= reg_word(s2, SP) <= s.stack_start - 4
                && (s.stack_start - reg_word(s2, SP)) % 4 == 0,
            Err(_e) => true,
        },
{
    let sp = reg_word(s, SP);
    match pop_spec::<D>(s) {
        Ok((s2, _w)) => {
            lemma_word_round_trip(s.regs, SP as int, (sp + 4) as u32);
        },
        Err(_e) => {},
    }
}

/// A machine whose one region is RAM over the whole address range it
/// covers, with absolute addressing.
pub open spec fn single_ram(s: MachineState<Seq<u8>>) -> bool {
    &&& s.regions.len() == 1
    &&& s.regions[0].start == 0
    &&& !s.regions[0].remap
    &&& s.regions[0].end == s.regions[0].device.len()
}

/// The byte store of a single-RAM machine.
pub open spec fn ram(s: MachineState<Seq<u8>>) -> Seq<u8> {
    s.regions[0].device
}

/// Setting a register changes exactly its own slot.
proof fn lemma_with_reg(s: MachineState<Seq<u8>>, off: u32, v: u32)
    requires
        s.regs.len() == REG_BYTES,
        off + 4 <= REG_BYTES,
    ensures
        reg_word(with_reg(s, off, v), off) == v,
        with_reg(s, off, v).regs.len() == REG_BYTES,
        forall|o2: u32|
            o2 + 4 <= REG_BYTES && (o2 + 4 <= off || off + 4 <= o2) ==> reg_word(
                with_reg(s, off, v),
                o2,
            ) == reg_word(s, o2),
{
    lemma_word_round_trip(s.regs, off as int, v);
    assert forall|o2: u32|
        o2 + 4 <= REG_BYTES && (o2 + 4 <= off || off + 4 <= o2) implies reg_word(
        with_reg(s, off, v),
        o2,
    ) == reg_word(s, o2) by {
        lemma_store_word_frame_word(s.regs, off as int, v, o2 as int);
    }
}

/// One push on a single-RAM machine: the word lands at `sp`, `sp` moves
/// down a slot, the frame counter grows by four, and nothing else moves.
proof fn lemma_push_once(s: MachineState<Seq<u8>>, v: u32)
    requires
        s.regs.len() == REG_BYTES,
        single_ram(s),
        s.stack_set,
        reg_word(s, SP) >= 4,
        s.stack_start - s.stack_size <= reg_word(s, SP) - 4,
        reg_word(s, SP) as int + 4 <= ram(s).len(),
        s.stackframe_size as int + 4 <= u32::MAX,
    ensures
        ({
            let sp = reg_word(s, SP);
            match push_spec::<Memory>(s, v) {
                Err(_e) => false,
                Ok(s1) => {
                    &&& s1.regs.len() == REG_BYTES
                    &&& single_ram(s1)
                    &&& ram(s1) == store_word_at(ram(s), sp as int, v)
                    &&& ram(s1).len() == ram(s).len()
                    &&& word_at(ram(s1), sp as int) == v
                    &&& reg_word(s1, SP) == sp - 4
                    &&& s1.stackframe_size == s.stackframe_size + 4
                    &&& s1.stack_set == s.stack_set
                    &&& s1.stack_start == s.stack_start
                    &&& s1.stack_size == s.stack_size
                    &&& s1.halt == s.halt
                    &&& forall|off: u32|
                        off + 4 <= REG_BYTES && (off + 4 <= SP || off >= SP + 4) ==> reg_word(
                            s1,
                            off,
                        ) == reg_word(s, off)
                },
            }
        }),
{
    let sp = reg_word(s, SP);
    assert(first_match(s.regions, sp) == Some(0int));
    match push_spec::<Memory>(s, v) {
        Err(_e) => {
            assert(false);
        },
        Ok(s1) => {
            lemma_word_round_trip(s.regs, SP as int, (sp - 4) as u32);
            lemma_word_round_trip(ram(s), sp as int, v);
            assert forall|off: u32|
                off + 4 <= REG_BYTES && (off + 4 <= SP || off >= SP + 4) implies reg_word(s1, off)
                == reg_word(s, off) by {
                lemma_store_word_frame_word(s.regs, SP as int, (sp - 4) as u32, off as int);
            }
        },
    }
}

/// One pop on a single-RAM machine: the word above `sp` comes back, `sp`
/// moves up a slot, the frame counter shrinks by four, and the memory is
/// untouched.
proof fn lemma_pop_once(s: MachineState<Seq<u8>>)
    requires
        s.regs.len() == REG_BYTES,
        single_ram(s),
        s.stack_set,
        reg_word(s, SP) as int + 4 <= s.stack_start - 3,
        reg_word(s, SP) as int + 8 <= ram(s).len(),
        s.stack_start <= u32::MAX,
        s.stackframe_size >= 4,
    ensures
        ({
            let sp = reg_word(s, SP);
            match pop_spec::<Memory>(s) {
                Err(_e) => false,
                Ok((s1, w)) => {
                    &&& w == word_at(ram(s), sp as int + 4)
                    &&& s1.regs.len() == REG_BYTES
                    &&& s1.regions == s.regions
                    &&& reg_word(s1, SP) == sp + 4
                    &&& s1.stackframe_size == s.stackframe_size - 4
                    &&& s1.stack_set == s.stack_set
                    &&& s1.stack_start == s.stack_start
                    &&& s1.stack_size == s.stack_size
                    &&& s1.halt == s.halt
                    &&& forall|off: u32|
                        off + 4 <= REG_BYTES && (off + 4 <= SP || off >= SP + 4) ==> reg_word(
                            s1,
                            off,
                        ) == reg_word(s, off)
                },
            }
        }),
{
    let sp = reg_word(s, SP);
    assert(first_match(s.regions, (sp + 4) as u32) == Some(0int));
    match pop_spec::<Memory>(s) {
        Err(_e) => {
            assert(false);
        },
        Ok((s1, _w)) => {
            lemma_word_round_trip(s.regs, SP as int, (sp + 4) as u32);
            assert forall|off: u32|
                off + 4 <= REG_BYTES && (off + 4 <= SP || off >= SP + 4) implies reg_word(s1, off)
                == reg_word(s, off) by {
                lemma_store_word_frame_word(s.regs, SP as int, (sp + 4) as u32, off as int);
            }
        },
    }
}

/// The second half of the register pushes: `r5..r8` go on after
/// `r1..r4`, keeping the four words already pushed.
#[verifier::rlimit(100)]
proof fn lemma_push_regs_tail(t: MachineState<Seq<u8>>, sp: int, w1: u32, w2: u32, w3: u32, w4: u32)
    requires
        t.regs.len() == REG_BYTES,
        single_ram(t),
        t.stack_set,
        t.stack_size <= t.stack_start,
        44 <= sp <= u32::MAX,
        reg_word(t, SP) == sp - 16,
        t.stack_start - t.stack_size <= sp - 40,
        sp + 8 <= ram(t).len(),
        t.stackframe_size as int <= u32::MAX - 28,
        word_at(ram(t), sp) == w1,
        word_at(ram(t), sp - 4) == w2,
        word_at(ram(t), sp - 8) == w3,
        word_at(ram(t), sp - 12) == w4,
        word_at(ram(t), sp + 4) == 0,
    ensures
        ({
            match push_regs_spec::<Memory>(t, 4) {
                Err(_e) => false,
                Ok(s8) => {
                    &&& s8.regs.len() == REG_BYTES
                    &&& single_ram(s8)
                    &&& ram(s8).len() == ram(t).len()
                    &&& s8.stackframe_size == t.stackframe_size + 16
                    &&& s8.stack_set == t.stack_set
                    &&& s8.stack_start == t.stack_start
                    &&& s8.stack_size == t.stack_size
                    &&& reg_word(s8, SP) == sp - 32
                    &&& reg_word(s8, PC) == reg_word(t, PC)
                    &&& reg_word(s8, 0) == reg_word(t, 0)
                    &&& reg_word(s8, 4) == reg_word(t, 4)
                    &&& reg_word(s8, 8) == reg_word(t, 8)
                    &&& reg_word(s8, 12) == reg_word(t, 12)
                    &&& reg_word(s8, 16) == reg_word(t, 16)
                    &&& reg_word(s8, 20) == reg_word(t, 20)
                    &&& reg_word(s8, 24) == reg_word(t, 24)
                    &&& reg_word(s8, 28) == reg_word(t, 28)
                    &&& word_at(ram(s8), sp) == w1
                    &&& word_at(ram(s8), sp - 4) == w2
                    &&& word_at(ram(s8), sp - 8) == w3
                    &&& word_at(ram(s8), sp - 12) == w4
                    &&& word_at(ram(s8), sp - 16) == reg_word(t, 16)
                    &&& word_at(ram(s8), sp - 20) == reg_word(t, 20)
                    &&& word_at(ram(s8), sp - 24) == reg_word(t, 24)
                    &&& word_at(ram(s8), sp - 28) == reg_word(t, 28)
                    &&& word_at(ram(s8), sp + 4) == 0
                },
            }
        }),
{
    let w5 = reg_word(t, 16);
    let w6 = reg_word(t, 20);
    let w7 = reg_word(t, 24);
    let w8 = reg_word(t, 28);
    lemma_push_once(t, reg_word(t, (4 * 4) as u32));
    let s5 = push_spec::<Memory>(t, reg_word(t, (4 * 4) as u32))->Ok_0;
    assert(push_regs_spec::<Memory>(t, 4) == push_regs_spec::<Memory>(s5, 5));
    assert(word_at(ram(s5), sp) == w1 && word_at(ram(s5), sp - 4) == w2 && word_at(ram(s5), sp - 8)
        == w3 && word_at(ram(s5), sp - 12) == w4 && word_at(ram(s5), sp + 4) == 0) by {
        lemma_store_word_frame_word(ram(t), sp - 16, w5, sp);
        lemma_store_word_frame_word(ram(t), sp - 16, w5, sp - 4);
        lemma_store_word_frame_word(ram(t), sp - 16, w5, sp - 8);
        lemma_store_word_frame_word(ram(t), sp - 16, w5, sp - 12);
        lemma_store_word_frame_word(ram(t), sp - 16, w5, sp + 4);
    }

    lemma_push_once(s5, reg_word(s5, (5 * 4) as u32));
    let s6 = push_spec::<Memory>(s5, reg_word(s5, (5 * 4) as u32))->Ok_0;
    assert(push_regs_spec::<Memory>(s5, 5) == push_regs_spec::<Memory>(s6, 6));
    assert(word_at(ram(s6), sp) == w1 && word_at(ram(s6), sp - 4) == w2 && word_at(ram(s6), sp - 8)
        == w3 && word_at(ram(s6), sp - 12) == w4 && word_at(ram(s6), sp - 16) == w5 && word_at(
        ram(s6),
        sp + 4,
    ) == 0) by {
        lemma_store_word_frame_word(ram(s5), sp - 20, w6, sp);
        lemma_store_word_frame_word(ram(s5), sp - 20, w6, sp - 4);
        lemma_store_word_frame_word(ram(s5), sp - 20, w6, sp - 8);
        lemma_store_word_frame_word(ram(s5), sp - 20, w6, sp - 12);
        lemma_store_word_frame_word(ram(s5), sp - 20, w6, sp - 16);
        lemma_store_word_frame_word(ram(s5), sp - 20, w6, sp + 4);
    }

    lemma_push_once(s6, reg_word(s6, (6 * 4) as u32));
    let s7 = push_spec::<Memory>(s6, reg_word(s6, (6 * 4) as u32))->Ok_0;
    assert(push_regs_spec::<Memory>(s6, 6) == push_regs_spec::<Memory>(s7, 7));
    assert(word_at(ram(s7), sp) == w1 && word_at(ram(s7), sp - 4) == w2 && word_at(ram(s7), sp - 8)
        == w3 && word_at(ram(s7), sp - 12) == w4 && word_at(ram(s7), sp - 16) == w5 && word_at(
        ram(s7),
        sp - 20,
    ) == w6 && word_at(ram(s7), sp + 4) == 0) by {
        lemma_store_word_frame_word(ram(s6), sp - 24, w7, sp);
        lemma_store_word_frame_word(ram(s6), sp - 24, w7, sp - 4);
        lemma_store_word_frame_word(ram(s6), sp - 24, w7, sp - 8);
        lemma_store_word_frame_word(ram(s6), sp - 24, w7, sp - 12);
        lemma_store_word_frame_word(ram(s6), sp - 24, w7, sp - 16);
        lemma_store_word_frame_word(ram(s6), sp - 24, w7, sp - 20);
        lemma_store_word_frame_word(ram(s6), sp - 24, w7, sp + 4);
    }

    lemma_push_once(s7, reg_word(s7, (7 * 4) as u32));
    let s8 = push_spec::<Memory>(s7, reg_word(s7, (7 * 4) as u32))->Ok_0;
    assert(push_regs_spec::<Memory>(s7, 7) == push_regs_spec::<Memory>(s8, 8));
    assert(push_regs_spec::<Memory>(s8, 8) == Ok::<MachineState<Seq<u8>>, crate::fault::Fault>(s8));
    assert(word_at(ram(s8), sp) == w1 && word_at(ram(s8), sp - 4) == w2 && word_at(ram(s8), sp - 8)
        == w3 && word_at(ram(s8), sp - 12) == w4 && word_at(ram(s8), sp - 16) == w5 && word_at(
        ram(s8),
        sp - 20,
    ) == w6 && word_at(ram(s8), sp - 24) == w7 && word_at(ram(s8), sp + 4) == 0) by {
        lemma_store_word_frame_word(ram(s7), sp - 28, w8, sp);
        lemma_store_word_frame_word(ram(s7), sp - 28, w8, sp - 4);
        lemma_store_word_frame_word(ram(s7), sp - 28, w8, sp - 8);
        lemma_store_word_frame_word(ram(s7), sp - 28, w8, sp - 12);
        lemma_store_word_frame_word(ram(s7), sp - 28, w8, sp - 16);
        lemma_store_word_frame_word(ram(s7), sp - 28, w8, sp - 20);
        lemma_store_word_frame_word(ram(s7), sp - 28, w8, sp + 4);
    }

}

/// The first half of a frame push: the eight general registers go onto
/// the stack in order.
#[verifier::rlimit(100)]
proof fn lemma_push_regs_frame(s: MachineState<Seq<u8>>)
    requires
        s.regs.len() == REG_BYTES,
        single_ram(s),
        s.stack_set,
        s.stack_size <= s.stack_start,
        reg_word(s, SP) >= 44,
        s.stack_start - s.stack_size <= reg_word(s, SP) - 40,
        reg_word(s, SP) as int + 8 <= ram(s).len(),
        word_at(ram(s), reg_word(s, SP) as int + 4) == 0,
        s.stackframe_size as int <= u32::MAX - 44,
    ensures
        ({
            let sp = reg_word(s, SP) as int;
            match push_regs_spec::<Memory>(s, 0) {
                Err(_e) => false,
                Ok(s8) => {
                    &&& s8.regs.len() == REG_BYTES
                    &&& single_ram(s8)
                    &&& ram(s8).len() == ram(s).len()
                    &&& s8.stackframe_size == s.stackframe_size + 32
                    &&& s8.stack_set == s.stack_set
                    &&& s8.stack_start == s.stack_start
                    &&& s8.stack_size == s.stack_size
                    &&& reg_word(s8, SP) == sp - 32
                    &&& reg_word(s8, PC) == reg_word(s, PC)
                    &&& reg_word(s8, 0) == reg_word(s, 0)
                    &&& reg_word(s8, 4) == reg_word(s, 4)
                    &&& reg_word(s8, 8) == reg_word(s, 8)
                    &&& reg_word(s8, 12) == reg_word(s, 12)
                    &&& reg_word(s8, 16) == reg_word(s, 16)
                    &&& reg_word(s8, 20) == reg_word(s, 20)
                    &&& reg_word(s8, 24) == reg_word(s, 24)
                    &&& reg_word(s8, 28) == reg_word(s, 28)
                    &&& word_at(ram(s8), sp) == reg_word(s, 0)
                    &&& word_at(ram(s8), sp - 4) == reg_word(s, 4)
                    &&& word_at(ram(s8), sp - 8) == reg_word(s, 8)
                    &&& word_at(ram(s8), sp - 12) == reg_word(s, 12)
                    &&& word_at(ram(s8), sp - 16) == reg_word(s, 16)
                    &&& word_at(ram(s8), sp - 20) == reg_word(s, 20)
                    &&& word_at(ram(s8), sp - 24) == reg_word(s, 24)
                    &&& word_at(ram(s8), sp - 28) == reg_word(s, 28)
                    &&& word_at(ram(s8), sp + 4) == 0
                },
            }
        }),
{
    let sp = reg_word(s, SP) as int;
    let m0 = ram(s);
    let v1 = reg_word(s, 0);
    let v2 = reg_word(s, 4);
    let v3 = reg_word(s, 8);
    let v4 = reg_word(s, 12);

    // the first four register pushes, one by one; the rest by the tail
    // lemma
    lemma_push_once(s, reg_word(s, (0 * 4) as u32));
    let s1 = push_spec::<Memory>(s, reg_word(s, (0 * 4) as u32))->Ok_0;
    assert(push_regs_spec::<Memory>(s, 0) == push_regs_spec::<Memory>(s1, 1));
    assert(word_at(ram(s1), sp + 4) == 0) by {
        lemma_store_word_frame_word(m0, sp, v1, sp + 4);
    }

    lemma_push_once(s1, reg_word(s1, (1 * 4) as u32));
    let s2 = push_spec::<Memory>(s1, reg_word(s1, (1 * 4) as u32))->Ok_0;
    assert(push_regs_spec::<Memory>(s1, 1) == push_regs_spec::<Memory>(s2, 2));
    assert(word_at(ram(s2), sp) == v1 && word_at(ram(s2), sp + 4) == 0) by {
        lemma_store_word_frame_word(ram(s1), sp - 4, v2, sp);
        lemma_store_word_frame_word(ram(s1), sp - 4, v2, sp + 4);
    }

    lemma_push_once(s2, reg_word(s2, (2 * 4) as u32));
    let s3 = push_spec::<Memory>(s2, reg_word(s2, (2 * 4) as u32))->Ok_0;
    assert(push_regs_spec::<Memory>(s2, 2) == push_regs_spec::<Memory>(s3, 3));
    assert(word_at(ram(s3), sp) == v1 && word_at(ram(s3), sp - 4) == v2 && word_at(ram(s3), sp + 4)
        == 0) by {
        lemma_store_word_frame_word(ram(s2), sp - 8, v3, sp);
        lemma_store_word_frame_word(ram(s2), sp - 8, v3, sp - 4);
        lemma_store_word_frame_word(ram(s2), sp - 8, v3, sp + 4);
    }

    lemma_push_once(s3, reg_word(s3, (3 * 4) as u32));
    let s4 = push_spec::<Memory>(s3, reg_word(s3, (3 * 4) as u32))->Ok_0;
    assert(push_regs_spec::<Memory>(s3, 3) == push_regs_spec::<Memory>(s4, 4));
    assert(word_at(ram(s4), sp) == v1 && word_at(ram(s4), sp - 4) == v2 && word_at(ram(s4), sp - 8)
        == v3 && word_at(ram(s4), sp + 4) == 0) by {
        lemma_store_word_frame_word(ram(s3), sp - 12, v4, sp);
        lemma_store_word_frame_word(ram(s3), sp - 12, v4, sp - 4);
        lemma_store_word_frame_word(ram(s3), sp - 12, v4, sp - 8);
        lemma_store_word_frame_word(ram(s3), sp - 12, v4, sp + 4);
    }


    lemma_push_regs_tail(s4, sp, v1, v2, v3, v4);
    let s8 = push_regs_spec::<Memory>(s4, 4)->Ok_0;
}

/// The push half of a call: `push_state` succeeds and leaves a fully
/// characterised frame below the old stack pointer.
#[verifier::rlimit(100)]
proof fn lemma_push_frame(s: MachineState<Seq<u8>>)
    requires
        s.regs.len() == REG_BYTES,
        single_ram(s),
        s.stack_set,
        s.stack_size <= s.stack_start,
        reg_word(s, SP) >= 44,
        s.stack_start - s.stack_size <= reg_word(s, SP) - 40,
        reg_word(s, SP) as int + 8 <= ram(s).len(),
        word_at(ram(s), reg_word(s, SP) as int + 4) == 0,
        s.stackframe_size as int <= u32::MAX - 44,
    ensures
        ({
            let sp = reg_word(s, SP) as int;
            match push_state_spec::<Memory>(s) {
                Err(_e) => false,
                Ok(sa) => {
                    &&& sa.regs.len() == REG_BYTES
                    &&& single_ram(sa)
                    &&& ram(sa).len() == ram(s).len()
                    &&& sa.stackframe_size == 0
                    &&& sa.stack_set == s.stack_set
                    &&& sa.stack_start == s.stack_start
                    &&& sa.stack_size == s.stack_size
                    &&& reg_word(sa, SP) == sp - 40
                    &&& reg_word(sa, FP) == sp - 40
                    &&& reg_word(sa, PC) == reg_word(s, PC)
                    &&& reg_word(sa, 0) == reg_word(s, 0)
                    &&& reg_word(sa, 4) == reg_word(s, 4)
                    &&& reg_word(sa, 8) == reg_word(s, 8)
                    &&& reg_word(sa, 12) == reg_word(s, 12)
                    &&& reg_word(sa, 16) == reg_word(s, 16)
                    &&& reg_word(sa, 20) == reg_word(s, 20)
                    &&& reg_word(sa, 24) == reg_word(s, 24)
                    &&& reg_word(sa, 28) == reg_word(s, 28)
                    &&& word_at(ram(sa), sp) == reg_word(s, 0)
                    &&& word_at(ram(sa), sp - 4) == reg_word(s, 4)
                    &&& word_at(ram(sa), sp - 8) == reg_word(s, 8)
                    &&& word_at(ram(sa), sp - 12) == reg_word(s, 12)
                    &&& word_at(ram(sa), sp - 16) == reg_word(s, 16)
                    &&& word_at(ram(sa), sp - 20) == reg_word(s, 20)
                    &&& word_at(ram(sa), sp - 24) == reg_word(s, 24)
                    &&& word_at(ram(sa), sp - 28) == reg_word(s, 28)
                    &&& word_at(ram(sa), sp - 32) == reg_word(s, PC)
                    &&& word_at(ram(sa), sp - 36) == s.stackframe_size + 40
                    &&& word_at(ram(sa), sp + 4) == 0
                },
            }
        }),
{
    let sp = reg_word(s, SP) as int;
    let sigma = s.stackframe_size;
    let pc0 = reg_word(s, PC);
    let v1 = reg_word(s, 0);
    let v2 = reg_word(s, 4);
    let v3 = reg_word(s, 8);
    let v4 = reg_word(s, 12);
    let v5 = reg_word(s, 16);
    let v6 = reg_word(s, 20);
    let v7 = reg_word(s, 24);
    let v8 = reg_word(s, 28);
    lemma_push_regs_frame(s);
    let s8 = push_regs_spec::<Memory>(s, 0)->Ok_0;

    // the saved program counter and the frame size slot
    lemma_push_once(s8, reg_word(s8, PC));
    let s9 = push_spec::<Memory>(s8, reg_word(s8, PC))->Ok_0;
    assert(word_at(ram(s9), sp) == v1 && word_at(ram(s9), sp - 4) == v2 && word_at(ram(s9), sp - 8)
        == v3 && word_at(ram(s9), sp - 12) == v4 && word_at(ram(s9), sp - 16) == v5 && word_at(
        ram(s9),
        sp - 20,
    ) == v6 && word_at(ram(s9), sp - 24) == v7 && word_at(ram(s9), sp - 28) == v8 && word_at(
        ram(s9),
        sp + 4,
    ) == 0) by {
        lemma_store_word_frame_word(ram(s8), sp - 32, pc0, sp);
        lemma_store_word_frame_word(ram(s8), sp - 32, pc0, sp - 4);
        lemma_store_word_frame_word(ram(s8), sp - 32, pc0, sp - 8);
        lemma_store_word_frame_word(ram(s8), sp - 32, pc0, sp - 12);
        lemma_store_word_frame_word(ram(s8), sp - 32, pc0, sp - 16);
        lemma_store_word_frame_word(ram(s8), sp - 32, pc0, sp - 20);
        lemma_store_word_frame_word(ram(s8), sp - 32, pc0, sp - 24);
        lemma_store_word_frame_word(ram(s8), sp - 32, pc0, sp - 28);
        lemma_store_word_frame_word(ram(s8), sp - 32, pc0, sp + 4);
    }

    let szv = vstd::wrapping::u32_specs::wrapping_add(s9.stackframe_size, 4);
    assert(szv == sigma + 40);
    lemma_push_once(s9, szv);
    let s10 = push_spec::<Memory>(s9, szv)->Ok_0;
    let mf = ram(s10);
    assert(word_at(mf, sp) == v1 && word_at(mf, sp - 4) == v2 && word_at(mf, sp - 8) == v3
        && word_at(mf, sp - 12) == v4 && word_at(mf, sp - 16) == v5 && word_at(mf, sp - 20) == v6
        && word_at(mf, sp - 24) == v7 && word_at(mf, sp - 28) == v8 && word_at(mf, sp - 32) == pc0
        && word_at(mf, sp + 4) == 0) by {
        lemma_store_word_frame_word(ram(s9), sp - 36, szv, sp);
        lemma_store_word_frame_word(ram(s9), sp - 36, szv, sp - 4);
        lemma_store_word_frame_word(ram(s9), sp - 36, szv, sp - 8);
        lemma_store_word_frame_word(ram(s9), sp - 36, szv, sp - 12);
        lemma_store_word_frame_word(ram(s9), sp - 36, szv, sp - 16);
        lemma_store_word_frame_word(ram(s9), sp - 36, szv, sp - 20);
        lemma_store_word_frame_word(ram(s9), sp - 36, szv, sp - 24);
        lemma_store_word_frame_word(ram(s9), sp - 36, szv, sp - 28);
        lemma_store_word_frame_word(ram(s9), sp - 36, szv, sp - 32);
        lemma_store_word_frame_word(ram(s9), sp - 36, szv, sp + 4);
    }
    assert(word_at(mf, sp - 36) == szv);

    // the frame pointer moves to the new stack top
    let sa = MachineState {
        regs: store_word_at(s10.regs, FP as int, reg_word(s10, SP)),
        stackframe_size: 0u32,
        ..s10
    };
    assert(push_state_spec::<Memory>(s) == Ok::<MachineState<Seq<u8>>, crate::fault::Fault>(sa));
    assert(reg_word(s10, SP) == sp - 40);
    assert(sa.regs.len() == REG_BYTES);
    assert(reg_word(sa, FP) == sp - 40) by {
        lemma_word_round_trip(s10.regs, FP as int, (sp - 40) as u32);
    }
    assert(reg_word(sa, SP) == sp - 40 && reg_word(sa, PC) == pc0 && reg_word(sa, 0) == v1
        && reg_word(sa, 4) == v2 && reg_word(sa, 8) == v3 && reg_word(sa, 12) == v4 && reg_word(
        sa,
        16,
    ) == v5 && reg_word(sa, 20) == v6 && reg_word(sa, 24) == v7 && reg_word(sa, 28) == v8) by {
        lemma_store_word_frame_word(s10.regs, FP as int, (sp - 40) as u32, SP as int);
        lemma_store_word_frame_word(s10.regs, FP as int, (sp - 40) as u32, PC as int);
        lemma_store_word_frame_word(s10.regs, FP as int, (sp - 40) as u32, 0);
        lemma_store_word_frame_word(s10.regs, FP as int, (sp - 40) as u32, 4);
        lemma_store_word_frame_word(s10.regs, FP as int, (sp - 40) as u32, 8);
        lemma_store_word_frame_word(s10.regs, FP as int, (sp - 40) as u32, 12);
        lemma_store_word_frame_word(s10.regs, FP as int, (sp - 40) as u32, 16);
        lemma_store_word_frame_word(s10.regs, FP as int, (sp - 40) as u32, 20);
        lemma_store_word_frame_word(s10.regs, FP as int, (sp - 40) as u32, 24);
        lemma_store_word_frame_word(s10.regs, FP as int, (sp - 40) as u32, 28);
    }

}

/// The pop half of a return: on a fully characterised frame, `pop_state`
/// succeeds and puts the saved words back where they came from.
#[verifier::rlimit(100)]
proof fn lemma_pop_frame(
    t: MachineState<Seq<u8>>,
    sp: int,
    sigma: u32,
    v1: u32,
    v2: u32,
    v3: u32,
    v4: u32,
    v5: u32,
    v6: u32,
    v7: u32,
    v8: u32,
    pc0: u32,
)
    requires
        t.regs.len() == REG_BYTES,
        single_ram(t),
        t.stack_set,
        44 <= sp,
        sp + 8 <= ram(t).len(),
        sp + 8 <= t.stack_start,
        reg_word(t, SP) == sp - 40,
        reg_word(t, FP) == sp - 40,
        t.stackframe_size == 0,
        sigma as int <= u32::MAX - 44,
        sp - 40 + sigma <= u32::MAX,
        word_at(ram(t), sp - 36) == sigma + 40,
        word_at(ram(t), sp - 32) == pc0,
        word_at(ram(t), sp - 28) == v8,
        word_at(ram(t), sp - 24) == v7,
        word_at(ram(t), sp - 20) == v6,
        word_at(ram(t), sp - 16) == v5,
        word_at(ram(t), sp - 12) == v4,
        word_at(ram(t), sp - 8) == v3,
        word_at(ram(t), sp - 4) == v2,
        word_at(ram(t), sp) == v1,
        word_at(ram(t), sp + 4) == 0,
    ensures
        ({
            match pop_state_spec::<Memory>(t) {
                Err(_e) => false,
                Ok(s2) => {
                    &&& reg_word(s2, 0) == v1
                    &&& reg_word(s2, 4) == v2
                    &&& reg_word(s2, 8) == v3
                    &&& reg_word(s2, 12) == v4
                    &&& reg_word(s2, 16) == v5
                    &&& reg_word(s2, 20) == v6
                    &&& reg_word(s2, 24) == v7
                    &&& reg_word(s2, 28) == v8
                    &&& reg_word(s2, PC) == pc0
                    &&& reg_word(s2, SP) == sp + 4
                    &&& reg_word(s2, FP) == sp - 40 + sigma
                    &&& s2.stackframe_size == sigma
                },
            }
        }),
{
    let callee = t;
    let mf = ram(t);
    // RET: back to the frame base, then pop the frame size slot
    let fp0 = reg_word(callee, FP);
    let c1 = with_reg(callee, SP, fp0);
    lemma_with_reg(callee, SP, fp0);
    let c2 = MachineState {
        stackframe_size: vstd::wrapping::u32_specs::wrapping_add(c1.stackframe_size, 4),
        ..c1
    };
    assert(c2.stackframe_size == 4 && reg_word(c2, SP) == sp - 40 && ram(c2) == mf);
    lemma_pop_once(c2);
    let p1 = pop_spec::<Memory>(c2)->Ok_0;
    assert(p1.1 == sigma + 40);
    let c3 = MachineState { stackframe_size: p1.1, ..p1.0 };
    assert(reg_word(c3, SP) == sp - 36 && c3.stackframe_size == sigma + 40);

    // pop the saved program counter
    lemma_pop_once(c3);
    let p2 = pop_spec::<Memory>(c3)->Ok_0;
    assert(p2.1 == pc0);
    let c4 = with_reg(p2.0, PC, p2.1);
    lemma_with_reg(p2.0, PC, p2.1);
    assert(reg_word(c4, SP) == sp - 32 && reg_word(c4, PC) == pc0 && c4.stackframe_size == sigma
        + 36 && ram(c4) == mf);

    // pop the eight general registers, r8 first
    lemma_pop_once(c4);
    let q8 = pop_spec::<Memory>(c4)->Ok_0;
    assert(q8.1 == v8);
    let c5 = with_reg(q8.0, ((8 - 1) * 4) as u32, q8.1);
    lemma_with_reg(q8.0, 28, q8.1);
    assert(pop_regs_spec::<Memory>(c4, 8) == pop_regs_spec::<Memory>(c5, 7));
    assert(reg_word(c5, SP) == sp - 28 && reg_word(c5, PC) == pc0 && reg_word(c5, 28) == v8
        && c5.stackframe_size == sigma + 32 && ram(c5) == mf);

    lemma_pop_once(c5);
    let q7 = pop_spec::<Memory>(c5)->Ok_0;
    assert(q7.1 == v7);
    let c6 = with_reg(q7.0, ((7 - 1) * 4) as u32, q7.1);
    lemma_with_reg(q7.0, 24, q7.1);
    assert(pop_regs_spec::<Memory>(c5, 7) == pop_regs_spec::<Memory>(c6, 6));
    assert(reg_word(c6, SP) == sp - 24 && reg_word(c6, PC) == pc0 && reg_word(c6, 28) == v8
        && reg_word(c6, 24) == v7 && c6.stackframe_size == sigma + 28 && ram(c6) == mf);

    lemma_pop_once(c6);
    let q6 = pop_spec::<Memory>(c6)->Ok_0;
    assert(q6.1 == v6);
    let c7 = with_reg(q6.0, ((6 - 1) * 4) as u32, q6.1);
    lemma_with_reg(q6.0, 20, q6.1);
    assert(pop_regs_spec::<Memory>(c6, 6) == pop_regs_spec::<Memory>(c7, 5));
    assert(reg_word(c7, SP) == sp - 20 && reg_word(c7, PC) == pc0 && reg_word(c7, 28) == v8
        && reg_word(c7, 24) == v7 && reg_word(c7, 20) == v6 && c7.stackframe_size == sigma + 24
        && ram(c7) == mf);

    lemma_pop_once(c7);
    let q5 = pop_spec::<Memory>(c7)->Ok_0;
    assert(q5.1 == v5);
    let c8 = with_reg(q5.0, ((5 - 1) * 4) as u32, q5.1);
    lemma_with_reg(q5.0, 16, q5.1);
    assert(pop_regs_spec::<Memory>(c7, 5) == pop_regs_spec::<Memory>(c8, 4));
    assert(reg_word(c8, SP) == sp - 16 && reg_word(c8, PC) == pc0 && reg_word(c8, 28) == v8
        && reg_word(c8, 24) == v7 && reg_word(c8, 20) == v6 && reg_word(c8, 16) == v5
        && c8.stackframe_size == sigma + 20 && ram(c8) == mf);

    lemma_pop_once(c8);
    let q4 = pop_spec::<Memory>(c8)->Ok_0;
    assert(q4.1 == v4);
    let c9 = with_reg(q4.0, ((4 - 1) * 4) as u32, q4.1);
    lemma_with_reg(q4.0, 12, q4.1);
    assert(pop_regs_spec::<Memory>(c8, 4) == pop_regs_spec::<Memory>(c9, 3));
    assert(reg_word(c9, SP) == sp - 12 && reg_word(c9, PC) == pc0 && reg_word(c9, 28) == v8
        && reg_word(c9, 24) == v7 && reg_word(c9, 20) == v6 && reg_word(c9, 16) == v5 && reg_word(
        c9,
        12,
    ) == v4 && c9.stackframe_size == sigma + 16 && ram(c9) == mf);

    lemma_pop_once(c9);
    let q3 = pop_spec::<Memory>(c9)->Ok_0;
    assert(q3.1 == v3);
    let c10 = with_reg(q3.0, ((3 - 1) * 4) as u32, q3.1);
    lemma_with_reg(q3.0, 8, q3.1);
    assert(pop_regs_spec::<Memory>(c9, 3) == pop_regs_spec::<Memory>(c10, 2));
    assert(reg_word(c10, SP) == sp - 8 && reg_word(c10, PC) == pc0 && reg_word(c10, 28) == v8
        && reg_word(c10, 24) == v7 && reg_word(c10, 20) == v6 && reg_word(c10, 16) == v5
        && reg_word(c10, 12) == v4 && reg_word(c10, 8) == v3 && c10.stackframe_size == sigma + 12
        && ram(c10) == mf);

    lemma_pop_once(c10);
    let q2 = pop_spec::<Memory>(c10)->Ok_0;
    assert(q2.1 == v2);
    let c11 = with_reg(q2.0, ((2 - 1) * 4) as u32, q2.1);
    lemma_with_reg(q2.0, 4, q2.1);
    assert(pop_regs_spec::<Memory>(c10, 2) == pop_regs_spec::<Memory>(c11, 1));
    assert(reg_word(c11, SP) == sp - 4 && reg_word(c11, PC) == pc0 && reg_word(c11, 28) == v8
        && reg_word(c11, 24) == v7 && reg_word(c11, 20) == v6 && reg_word(c11, 16) == v5
        && reg_word(c11, 12) == v4 && reg_word(c11, 8) == v3 && reg_word(c11, 4) == v2
        && c11.stackframe_size == sigma + 8 && ram(c11) == mf);

    lemma_pop_once(c11);
    let q1 = pop_spec::<Memory>(c11)->Ok_0;
    assert(q1.1 == v1);
    let c12 = with_reg(q1.0, ((1 - 1) * 4) as u32, q1.1);
    lemma_with_reg(q1.0, 0, q1.1);
    assert(pop_regs_spec::<Memory>(c11, 1) == pop_regs_spec::<Memory>(c12, 0));
    assert(pop_regs_spec::<Memory>(c12, 0) == Ok::<MachineState<Seq<u8>>, crate::fault::Fault>(
        c12,
    ));
    assert(reg_word(c12, SP) == sp && reg_word(c12, PC) == pc0 && reg_word(c12, 28) == v8
        && reg_word(c12, 24) == v7 && reg_word(c12, 20) == v6 && reg_word(c12, 16) == v5
        && reg_word(c12, 12) == v4 && reg_word(c12, 8) == v3 && reg_word(c12, 4) == v2 && reg_word(
        c12,
        0,
    ) == v1 && c12.stackframe_size == sigma + 4 && ram(c12) == mf);

    // pop the argument count (zero), then put the frame pointer above the
    // popped frame
    lemma_pop_once(c12);
    let pa = pop_spec::<Memory>(c12)->Ok_0;
    assert(pa.1 == 0);
    assert(pop_args_spec::<Memory>(pa.0, pa.1 as nat) == Ok::<
        MachineState<Seq<u8>>,
        crate::fault::Fault,
    >(pa.0));
    let fin = with_reg(
        pa.0,
        FP,
        vstd::wrapping::u32_specs::wrapping_add(fp0, pa.0.stackframe_size),
    );
    lemma_with_reg(pa.0, FP, vstd::wrapping::u32_specs::wrapping_add(fp0, pa.0.stackframe_size));
    assert(pa.0.stackframe_size == sigma);
    assert(pop_state_spec::<Memory>(callee) == Ok::<MachineState<Seq<u8>>, crate::fault::Fault>(
        fin,
    ));
    assert(reg_word(fin, SP) == sp + 4 && reg_word(fin, PC) == pc0 && reg_word(fin, FP) == sp - 40
        + sigma && fin.stackframe_size == sigma);
    assert(reg_word(fin, 0) == v1 && reg_word(fin, 4) == v2 && reg_word(fin, 8) == v3 && reg_word(
        fin,
        12,
    ) == v4 && reg_word(fin, 16) == v5 && reg_word(fin, 20) == v6 && reg_word(fin, 24) == v7
        && reg_word(fin, 28) == v8);
}

/// A call frame pushed by `push_state` and popped right away by
/// `pop_state` — what `CALL` to a subroutine that immediately `RET`s does
/// — restores `r1..r8`, `pc` and the frame counter exactly, and leaves
/// `sp` one slot above where it stood, the argument-count word (here
/// zero, matching a call without arguments) having been consumed. The
/// frame pointer is not restored: it lands at the popped frame's base
/// plus the old frame counter, one frame size below its old place.
pub proof fn lemma_call_then_ret(s: MachineState<Seq<u8>>, target: u32)
    requires
        s.regs.len() == REG_BYTES,
        single_ram(s),
        s.stack_set,
        s.stack_size <= s.stack_start,
        reg_word(s, SP) >= 44,
        s.stack_start - s.stack_size <= reg_word(s, SP) - 40,
        reg_word(s, SP) as int + 8 <= ram(s).len(),
        reg_word(s, SP) as int + 8 <= s.stack_start,
        word_at(ram(s), reg_word(s, SP) as int + 4) == 0,
        s.stackframe_size as int <= u32::MAX - 44,
        reg_word(s, SP) - 40 + s.stackframe_size <= u32::MAX,
    ensures
        ({
            let sp = reg_word(s, SP);
            match push_state_spec::<Memory>(s) {
                Err(_e) => false,
                Ok(s1) => match pop_state_spec::<Memory>(with_reg(s1, PC, target)) {
                    Err(_e) => false,
                    Ok(s2) => {
                        &&& forall|j: int|
                            0 <= j < 8 ==> #[trigger] reg_word(s2, (4 * j) as u32) == reg_word(
                                s,
                                (4 * j) as u32,
                            )
                        &&& reg_word(s2, PC) == reg_word(s, PC)
                        &&& reg_word(s2, SP) == sp + 4
                        &&& reg_word(s2, FP) == sp - 40 + s.stackframe_size
                        &&& s2.stackframe_size == s.stackframe_size
                    },
                },
            }
        }),
{
    let sp = reg_word(s, SP) as int;
    lemma_push_frame(s);
    let sa = push_state_spec::<Memory>(s)->Ok_0;
    let callee = with_reg(sa, PC, target);
    lemma_with_reg(sa, PC, target);
    assert(reg_word(callee, SP) == sp - 40 && reg_word(callee, FP) == sp - 40 && reg_word(
        callee,
        0,
    ) == reg_word(s, 0));
    assert(ram(callee) == ram(sa));
    lemma_pop_frame(
        callee,
        sp,
        s.stackframe_size,
        reg_word(s, 0),
        reg_word(s, 4),
        reg_word(s, 8),
        reg_word(s, 12),
        reg_word(s, 16),
        reg_word(s, 20),
        reg_word(s, 24),
        reg_word(s, 28),
        reg_word(s, PC),
    );
    let fin = pop_state_spec::<Memory>(callee)->Ok_0;
    assert forall|j: int| 0 <= j < 8 implies #[trigger] reg_word(fin, (4 * j) as u32) == reg_word(
        s,
        (4 * j) as u32,
    ) by {
        if j == 0 {
        } else if j == 1 {
        } else if j == 2 {
        } else if j == 3 {
        } else if j == 4 {
        } else if j == 5 {
        } else if j == 6 {
        } else {
            assert(j == 7);
        }
    }
}

} // verus!
