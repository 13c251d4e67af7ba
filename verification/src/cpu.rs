//! The CPU: register file, stack discipline and status flags.
//!
//! The register file is a small byte buffer addressed by word-aligned
//! byte offsets; `r1..r8` sit at offsets `0..28`, followed by `pc`,
//! `acc`, `sr`, `sp` and `fp`. The stack grows downward from
//! `stack_start - 4` toward `stack_start - stack_size`.
//!
//! Every operation is specified against the abstract `MachineState`
//! model: a transition function per operation says exactly which
//! registers, device models and counters change, or which fault aborts
//! the machine. All arithmetic on machine words wraps modulo `2^32`.

use vstd::prelude::*;

use crate::arith::{arith_rr_spec, arith_rw_spec, arith_step_spec, arith_wr_spec, BinOp};
use crate::bitwise::{bit_not_spec, bit_rr_spec, bit_rw_spec, BitOp};
use crate::branch::{br_bit_spec, br_r_spec, br_rr_spec, br_rw_spec, br_w_spec, Rel};
use crate::device::Device;
use crate::fault::Fault;
use crate::mapper::{
    mapper_read_byte, mapper_read_word, mapper_write_word, MemoryMapper, RegionModel,
};
use crate::memory::{store_word_at, word_at, Memory};
use crate::moves::{
    load_spec, loadm_spec, loadr_spec, movm_spec, movmr_spec, movr_spec, movrm_spec, movror_spec,
    movrpr_spec, movrr_spec, pop_instr_spec, push_instr_spec, pushr_spec, store_spec, storem_spec,
    storer_spec,
};
use crate::subroutine::{call_spec, callr_spec, jmp_spec};

verus! {

/// Byte offset of general register `r1`; `r2..r8` follow word by word.
pub const R1: u32 = 0;

/// Byte offset of general register `r2`.
pub const R2: u32 = 4;

/// Byte offset of general register `r3`.
pub const R3: u32 = 8;

/// Byte offset of general register `r4`.
pub const R4: u32 = 12;

/// Byte offset of general register `r5`.
pub const R5: u32 = 16;

/// Byte offset of general register `r6`.
pub const R6: u32 = 20;

/// Byte offset of general register `r7`.
pub const R7: u32 = 24;

/// Byte offset of general register `r8`.
pub const R8: u32 = 28;

/// Byte offset of the program counter.
pub const PC: u32 = 32;

/// Byte offset of the accumulator.
pub const ACC: u32 = 36;

/// Byte offset of the status register.
pub const SR: u32 = 40;

/// Offset of the least significant byte of the status register: words
/// are big-endian, so the flag bits live in the last byte of its slot.
pub const SR_LOW: u32 = SR + 3;

/// Byte offset of the stack pointer.
pub const SP: u32 = 44;

/// Byte offset of the frame pointer.
pub const FP: u32 = 48;

/// Number of registers.
pub const REGISTER_COUNT: u32 = 13;

/// Size of the register file in bytes.
pub const REG_BYTES: u32 = REGISTER_COUNT * 4;

/// The abstract machine: register bytes, the mapped regions' device
/// models, the frame byte counter, the halt flag and the stack bounds.
pub struct MachineState<M> {
    pub regs: Seq<u8>,
    pub regions: Seq<RegionModel<M>>,
    pub stackframe_size: u32,
    pub halt: bool,
    pub stack_start: u32,
    pub stack_size: u32,
    pub stack_set: bool,
}

/// Is `addr` a readable register slot (all four bytes inside the file)?
pub open spec fn reg_ok(addr: u32) -> bool {
    addr + 4 <= REG_BYTES
}

/// The word held by the register slot at byte offset `addr`.
pub open spec fn reg_word<M>(s: MachineState<M>, addr: u32) -> u32 {
    word_at(s.regs, addr as int)
}

/// The machine with the register slot at `addr` set to `v`.
pub open spec fn with_reg<M>(s: MachineState<M>, addr: u32, v: u32) -> MachineState<M> {
    MachineState { regs: store_word_at(s.regs, addr as int, v), ..s }
}

/// Reading a register by operand address: a memory fault outside the file.
pub open spec fn reg_read_spec<M>(s: MachineState<M>, addr: u32) -> Result<u32, Fault> {
    if reg_ok(addr) {
        Ok(reg_word(s, addr))
    } else {
        Err(Fault::MemoryFault)
    }
}

/// Writing a register by operand address: a memory fault outside the file.
pub open spec fn reg_write_spec<M>(s: MachineState<M>, addr: u32, v: u32) -> Result<
    MachineState<M>,
    Fault,
> {
    if reg_ok(addr) {
        Ok(with_reg(s, addr, v))
    } else {
        Err(Fault::MemoryFault)
    }
}

/// Status flag `n`: bit `n` of the status register's word.
pub open spec fn status_flag<M>(s: MachineState<M>, n: u8) -> bool {
    reg_word(s, SR) & (1u32 << ((n as u32) % 32)) != 0
}

/// The flag update every arithmetic and bitwise instruction performs:
/// bit 0 (Z) is set exactly when the result is zero, bit 1 (C) exactly
/// when the first operand exceeds the result; other bits keep their
/// values.
pub open spec fn update_sr_spec<M>(s: MachineState<M>, pre: u32, post: u32) -> MachineState<M> {
    let b = s.regs[SR_LOW as int];
    let b1: u8 = if post == 0 {
        b | 0x01
    } else {
        b & 0xFE
    };
    let b2: u8 = if pre > post {
        b1 | 0x02
    } else {
        b1 & 0xFD
    };
    MachineState { regs: s.regs.update(SR_LOW as int, b2), ..s }
}

/// Relates an operation's outcome to its transition: on `Ok` the machine
/// reached exactly the specified state, on a fault it reports the
/// specified fault.
pub open spec fn obeys<M>(
    post: MachineState<M>,
    r: Result<(), Fault>,
    t: Result<MachineState<M>, Fault>,
) -> bool {
    match t {
        Ok(s2) => r is Ok && post == s2,
        Err(e) => r == Err::<(), Fault>(e),
    }
}

/// As `obeys`, for operations that also return a value.
pub open spec fn obeys_val<M, T>(
    post: MachineState<M>,
    r: Result<T, Fault>,
    t: Result<(MachineState<M>, T), Fault>,
) -> bool {
    match t {
        Ok((s2, v)) => r == Ok::<T, Fault>(v) && post == s2,
        Err(e) => r == Err::<T, Fault>(e),
    }
}

/// Fetching one opcode byte: reads at `pc`, then advances `pc` by one.
pub open spec fn fetch_byte_spec<D: Device>(s: MachineState<D::V>) -> Result<
    (MachineState<D::V>, u8),
    Fault,
> {
    let pc = reg_word(s, PC);
    match mapper_read_byte::<D>(s.regions, pc) {
        Err(e) => Err(e),
        Ok(b) => Ok((with_reg(s, PC, vstd::wrapping::u32_specs::wrapping_add(pc, 1)), b)),
    }
}

/// Fetching one operand word: reads at `pc`, then advances `pc` by four.
pub open spec fn fetch_word_spec<D: Device>(s: MachineState<D::V>) -> Result<
    (MachineState<D::V>, u32),
    Fault,
> {
    let pc = reg_word(s, PC);
    match mapper_read_word::<D>(s.regions, pc) {
        Err(e) => Err(e),
        Ok(w) => Ok((with_reg(s, PC, vstd::wrapping::u32_specs::wrapping_add(pc, 4)), w)),
    }
}

/// Pushing a word: a stack fault below `stack_start - stack_size`,
/// otherwise the word is written at `sp`, `sp` moves down a slot and the
/// frame counter grows by four.
pub open spec fn push_spec<D: Device>(s: MachineState<D::V>, v: u32) -> Result<
    MachineState<D::V>,
    Fault,
> {
    if !s.stack_set {
        Err(Fault::StackFault)
    } else {
        let sp = reg_word(s, SP);
        if sp < 4 || sp - 4 < s.stack_start - s.stack_size {
            Err(Fault::StackFault)
        } else {
            match mapper_write_word::<D>(s.regions, sp, v) {
                Err(e) => Err(e),
                Ok(rs2) => Ok(
                    MachineState {
                        regs: store_word_at(s.regs, SP as int, (sp - 4) as u32),
                        regions: rs2,
                        stackframe_size: vstd::wrapping::u32_specs::wrapping_add(
                            s.stackframe_size,
                            4,
                        ),
                        ..s
                    },
                ),
            }
        }
    }
}

/// Popping a word: a stack fault above `stack_start - 4`, otherwise `sp`
/// moves up a slot, the frame counter shrinks by four and the word at the
/// new `sp` is returned.
pub open spec fn pop_spec<D: Device>(s: MachineState<D::V>) -> Result<
    (MachineState<D::V>, u32),
    Fault,
> {
    if !s.stack_set {
        Err(Fault::StackFault)
    } else {
        let sp = reg_word(s, SP);
        if sp as int + 4 > u32::MAX || sp as int + 4 > s.stack_start - 3 {
            Err(Fault::StackFault)
        } else {
            let next = (sp + 4) as u32;
            match mapper_read_word::<D>(s.regions, next) {
                Err(e) => Err(e),
                Ok(w) => Ok(
                    (
                        MachineState {
                            regs: store_word_at(s.regs, SP as int, next),
                            stackframe_size: vstd::wrapping::u32_specs::wrapping_sub(
                                s.stackframe_size,
                                4,
                            ),
                            ..s
                        },
                        w,
                    ),
                ),
            }
        }
    }
}

/// Pushing general registers `r(i+1)..r8`, one word each.
pub open spec fn push_regs_spec<D: Device>(s: MachineState<D::V>, i: nat) -> Result<
    MachineState<D::V>,
    Fault,
>
    decreases 8 - i,
{
    if i >= 8 {
        Ok(s)
    } else {
        match push_spec::<D>(s, reg_word(s, (i * 4) as u32)) {
            Err(e) => Err(e),
            Ok(s2) => push_regs_spec::<D>(s2, i + 1),
        }
    }
}

/// Popping general registers `r(i)..r1`, in reverse order.
pub open spec fn pop_regs_spec<D: Device>(s: MachineState<D::V>, i: nat) -> Result<
    MachineState<D::V>,
    Fault,
>
    decreases i,
{
    if i == 0 {
        Ok(s)
    } else {
        match pop_spec::<D>(s) {
            Err(e) => Err(e),
            Ok((s2, v)) => pop_regs_spec::<D>(with_reg(s2, ((i - 1) * 4) as u32, v), (i - 1) as nat),
        }
    }
}

/// Popping and discarding `k` words (the caller-pushed arguments).
pub open spec fn pop_args_spec<D: Device>(s: MachineState<D::V>, k: nat) -> Result<
    MachineState<D::V>,
    Fault,
>
    decreases k,
{
    if k == 0 {
        Ok(s)
    } else {
        match pop_spec::<D>(s) {
            Err(e) => Err(e),
            Ok((s2, _v)) => pop_args_spec::<D>(s2, (k - 1) as nat),
        }
    }
}

/// The call-frame push: `r1..r8` in order, then `pc`, then the frame size
/// including the size slot itself; `fp` moves to the new `sp` and the
/// frame counter restarts at zero.
pub open spec fn push_state_spec<D: Device>(s: MachineState<D::V>) -> Result<
    MachineState<D::V>,
    Fault,
> {
    match push_regs_spec::<D>(s, 0) {
        Err(e) => Err(e),
        Ok(s8) => match push_spec::<D>(s8, reg_word(s8, PC)) {
            Err(e) => Err(e),
            Ok(s9) => match push_spec::<D>(
                s9,
                vstd::wrapping::u32_specs::wrapping_add(s9.stackframe_size, 4),
            ) {
                Err(e) => Err(e),
                Ok(s10) => Ok(
                    MachineState {
                        regs: store_word_at(s10.regs, FP as int, reg_word(s10, SP)),
                        stackframe_size: 0,
                        ..s10
                    },
                ),
            },
        },
    }
}

/// The call-frame pop: `sp` returns to `fp`, the frame size slot, the
/// saved `pc`, `r8..r1`, the argument count and the arguments are popped,
/// and `fp` moves up by what is left of the popped frame size.
pub open spec fn pop_state_spec<D: Device>(s: MachineState<D::V>) -> Result<
    MachineState<D::V>,
    Fault,
> {
    let fp = reg_word(s, FP);
    let s1 = with_reg(s, SP, fp);
    let s2 = MachineState {
        stackframe_size: vstd::wrapping::u32_specs::wrapping_add(s1.stackframe_size, 4),
        ..s1
    };
    match pop_spec::<D>(s2) {
        Err(e) => Err(e),
        Ok((s3, size)) => {
            let s4 = MachineState { stackframe_size: size, ..s3 };
            match pop_spec::<D>(s4) {
                Err(e) => Err(e),
                Ok((s5, pcv)) => {
                    let s6 = with_reg(s5, PC, pcv);
                    match pop_regs_spec::<D>(s6, 8) {
                        Err(e) => Err(e),
                        Ok(s7) => match pop_spec::<D>(s7) {
                            Err(e) => Err(e),
                            Ok((s8, argc)) => match pop_args_spec::<D>(s8, argc as nat) {
                                Err(e) => Err(e),
                                Ok(s9) => Ok(
                                    with_reg(
                                        s9,
                                        FP,
                                        vstd::wrapping::u32_specs::wrapping_add(
                                            fp,
                                            s9.stackframe_size,
                                        ),
                                    ),
                                ),
                            },
                        },
                    }
                },
            }
        },
    }
}

/// The machine proper: a mapper full of devices, the register file and
/// the stack configuration.
pub struct CPU<D> {
    pub memory_mapper: MemoryMapper<D>,
    registers: Memory,
    stackframe_size: u32,
    halt_signal: bool,
    stack_start: u32,
    stack_size: u32,
    stack_set: bool,
}

impl<D: Device> View for CPU<D> {
    type V = MachineState<D::V>;

    closed spec fn view(&self) -> MachineState<D::V> {
        MachineState {
            regs: self.registers@,
            regions: self.memory_mapper@,
            stackframe_size: self.stackframe_size,
            halt: self.halt_signal,
            stack_start: self.stack_start,
            stack_size: self.stack_size,
            stack_set: self.stack_set,
        }
    }
}

impl<D: Device> CPU<D> {
    /// Well-formedness: the register file has its full size, every mapped
    /// device is well formed, and a configured stack has sane bounds.
    pub closed spec fn wf(&self) -> bool {
        &&& self.registers@.len() == REG_BYTES
        &&& self.memory_mapper.inv()
        &&& (self.stack_set ==> self.stack_start >= 4 && self.stack_size <= self.stack_start)
    }

    /// A machine over `memory_mapper` that will fetch its first opcode at
    /// `pc`. The stack is not configured yet.
    pub fn new(memory_mapper: MemoryMapper<D>, pc: u32) -> (cpu: CPU<D>)
        requires
            memory_mapper.inv(),
        ensures
            cpu.wf(),
            cpu@ == (MachineState {
                regs: store_word_at(Seq::new(REG_BYTES as nat, |i: int| 0u8), PC as int, pc),
                regions: memory_mapper@,
                stackframe_size: 0u32,
                halt: false,
                stack_start: 0u32,
                stack_size: 0u32,
                stack_set: false,
            }),
    {
        let mut registers = Memory::new(REGISTER_COUNT * 4);
        let r = registers.set_word(PC, pc);
        assert(r is Ok);
        CPU {
            memory_mapper,
            registers,
            stackframe_size: 0,
            halt_signal: false,
            stack_start: 0,
            stack_size: 0,
            stack_set: false,
        }
    }

    /// Configures the stack: it occupies `[stack_addr - stack_size,
    /// stack_addr)` and both `sp` and `fp` start at its topmost slot.
    pub fn set_stack(&mut self, stack_addr: u32, stack_size: u32)
        requires
            old(self).wf(),
            stack_addr >= 4,
            stack_size <= stack_addr,
        ensures
            final (self).wf(),
            final (self)@ == (MachineState {
                regs: store_word_at(
                    store_word_at(old(self)@.regs, SP as int, (stack_addr - 4) as u32),
                    FP as int,
                    (stack_addr - 4) as u32,
                ),
                stack_start: stack_addr,
                stack_size: stack_size,
                stack_set: true,
                ..old(self)@
            }),
    {
        self.stack_start = stack_addr;
        self.stack_size = stack_size;
        self.set_reg(SP, stack_addr - 4);
        self.set_reg(FP, stack_addr - 4);
        self.stack_set = true;
    }

    /// Has the machine executed a HALT?
    pub fn is_halted(&self) -> (r: bool)
        ensures
            r == self@.halt,
    {
        self.halt_signal
    }

    /// Updates the zero and carry flags from an operation's first operand
    /// and result: afterwards status bit 0 reads exactly "the result was
    /// zero" and status bit 1 exactly "the first operand exceeded the
    /// result".
    pub fn update_sr(&mut self, pre: u32, post: u32)
        requires
            old(self).wf(),
        ensures
            final (self).wf(),
            final (self)@ == update_sr_spec(old(self)@, pre, post),
            status_flag(final (self)@, 0) == (post == 0),
            status_flag(final (self)@, 1) == (pre > post),
    {
        proof {
            crate::laws::lemma_update_sr_flags(old(self)@, pre, post);
        }
        if post == 0 {
            let r = self.registers.or_set_byte(SR_LOW, 0x01);
            assert(r is Ok);
        } else {
            let r = self.registers.and_set_byte(SR_LOW, 0xFE);
            assert(r is Ok);
        }
        if pre > post {
            let r = self.registers.or_set_byte(SR_LOW, 0x02);
            assert(r is Ok);
        } else {
            let r = self.registers.and_set_byte(SR_LOW, 0xFD);
            assert(r is Ok);
        }
        proof {
            assert(self@.regs =~= update_sr_spec(old(self)@, pre, post).regs);
        }
    }

    /// Status flag of the `n`-th bit of the status register.
    pub fn get_status_flag(&self, n: u8) -> (r: bool)
        requires
            self.wf(),
        ensures
            r == status_flag(self@, n),
    {
        self.get_reg(SR) & 1u32.wrapping_shl(n as u32) != 0
    }

    /// The value of the register slot at byte offset `addr`.
    pub fn get_reg(&self, addr: u32) -> (r: u32)
        requires
            self.wf(),
            reg_ok(addr),
        ensures
            r == reg_word(self@, addr),
    {
        match self.registers.get_word(addr) {
            Ok(w) => w,
            // unreachable: the register file always holds REG_BYTES bytes
            Err(_) => 0,
        }
    }

    /// Sets the register slot at byte offset `addr` to `val`.
    pub fn set_reg(&mut self, addr: u32, val: u32)
        requires
            old(self).wf(),
            reg_ok(addr),
        ensures
            final (self).wf(),
            final (self)@ == with_reg(old(self)@, addr, val),
    {
        let r = self.registers.set_word(addr, val);
        assert(r is Ok);
    }

    /// Reads a register named by a fetched operand word; an address
    /// outside the register file is a memory fault.
    pub fn reg_read(&self, addr: u32) -> (r: Result<u32, Fault>)
        requires
            self.wf(),
        ensures
            r == reg_read_spec(self@, addr),
    {
        if addr <= REG_BYTES - 4 {
            Ok(self.get_reg(addr))
        } else {
            Err(Fault::MemoryFault)
        }
    }

    /// Writes a register named by a fetched operand word; an address
    /// outside the register file is a memory fault.
    pub fn reg_write(&mut self, addr: u32, val: u32) -> (r: Result<(), Fault>)
        requires
            old(self).wf(),
        ensures
            final (self).wf(),
            obeys(final (self)@, r, reg_write_spec(old(self)@, addr, val)),
    {
        if addr <= REG_BYTES - 4 {
            self.set_reg(addr, val);
            Ok(())
        } else {
            Err(Fault::MemoryFault)
        }
    }

    /// Fetches the next opcode byte and advances `pc`.
    pub fn fetch_byte(&mut self) -> (r: Result<u8, Fault>)
        requires
            old(self).wf(),
        ensures
            final (self).wf(),
            obeys_val(final (self)@, r, fetch_byte_spec::<D>(old(self)@)),
    {
        let pc = self.get_reg(PC);
        match self.memory_mapper.get_byte(pc) {
            Ok(b) => {
                self.set_reg(PC, pc.wrapping_add(1));
                Ok(b)
            },
            Err(e) => Err(e),
        }
    }

    /// Fetches the next operand word and advances `pc`.
    pub fn fetch_word(&mut self) -> (r: Result<u32, Fault>)
        requires
            old(self).wf(),
        ensures
            final (self).wf(),
            obeys_val(final (self)@, r, fetch_word_spec::<D>(old(self)@)),
    {
        let pc = self.get_reg(PC);
        match self.memory_mapper.get_word(pc) {
            Ok(w) => {
                self.set_reg(PC, pc.wrapping_add(4));
                Ok(w)
            },
            Err(e) => Err(e),
        }
    }

    /// Reads the byte at `addr` through the mapper.
    pub fn mem_read_byte(&self, addr: u32) -> (r: Result<u8, Fault>)
        requires
            self.wf(),
        ensures
            r == mapper_read_byte::<D>(self@.regions, addr),
    {
        self.memory_mapper.get_byte(addr)
    }

    /// Reads the word at `addr` through the mapper.
    pub fn mem_read_word(&self, addr: u32) -> (r: Result<u32, Fault>)
        requires
            self.wf(),
        ensures
            r == mapper_read_word::<D>(self@.regions, addr),
    {
        self.memory_mapper.get_word(addr)
    }

    /// Writes byte `v` at `addr` through the mapper.
    pub fn mem_write_byte(&mut self, addr: u32, v: u8) -> (r: Result<(), Fault>)
        requires
            old(self).wf(),
        ensures
            final (self).wf(),
            match crate::mapper::mapper_write_byte::<D>(old(self)@.regions, addr, v) {
                Ok(rs2) => r is Ok && final (self)@ == (MachineState { regions: rs2, ..old(self)@ }),
                Err(e) => r == Err::<(), Fault>(e),
            },
    {
        self.memory_mapper.set_byte(addr, v)
    }

    /// Writes word `w` at `addr` through the mapper.
    pub fn mem_write_word(&mut self, addr: u32, w: u32) -> (r: Result<(), Fault>)
        requires
            old(self).wf(),
        ensures
            final (self).wf(),
            match mapper_write_word::<D>(old(self)@.regions, addr, w) {
                Ok(rs2) => r is Ok && final (self)@ == (MachineState { regions: rs2, ..old(self)@ }),
                Err(e) => r == Err::<(), Fault>(e),
            },
    {
        self.memory_mapper.set_word(addr, w)
    }

    /// Raises the halt signal.
    pub(crate) fn set_halt(&mut self)
        requires
            old(self).wf(),
        ensures
            final (self).wf(),
            final (self)@ == (MachineState { halt: true, ..old(self)@ }),
    {
        self.halt_signal = true;
    }

    /// Pushes `val` onto the stack.
    pub fn push(&mut self, val: u32) -> (r: Result<(), Fault>)
        requires
            old(self).wf(),
        ensures
            final (self).wf(),
            obeys(final (self)@, r, push_spec::<D>(old(self)@, val)),
    {
        if !self.stack_set {
            return Err(Fault::StackFault);
        }
        let sp = self.get_reg(SP);
        let lower = self.stack_start - self.stack_size;
        if sp < 4 || sp - 4 < lower {
            return Err(Fault::StackFault);
        }
        match self.memory_mapper.set_word(sp, val) {
            Ok(_u) => {
                self.set_reg(SP, sp - 4);
                self.stackframe_size = self.stackframe_size.wrapping_add(4);
                Ok(())
            },
            Err(e) => Err(e),
        }
    }

    /// Pops a word from the stack.
    pub fn pop(&mut self) -> (r: Result<u32, Fault>)
        requires
            old(self).wf(),
        ensures
            final (self).wf(),
            obeys_val(final (self)@, r, pop_spec::<D>(old(self)@)),
    {
        if !self.stack_set {
            return Err(Fault::StackFault);
        }
        let sp = self.get_reg(SP);
        if sp > u32::MAX - 4 || sp + 4 > self.stack_start - 3 {
            return Err(Fault::StackFault);
        }
        let next = sp + 4;
        match self.memory_mapper.get_word(next) {
            Ok(w) => {
                self.set_reg(SP, next);
                self.stackframe_size = self.stackframe_size.wrapping_sub(4);
                Ok(w)
            },
            Err(e) => Err(e),
        }
    }

    /// Pushes the caller's state for a subroutine call.
    pub fn push_state(&mut self) -> (r: Result<(), Fault>)
        requires
            old(self).wf(),
        ensures
            final (self).wf(),
            obeys(final (self)@, r, push_state_spec::<D>(old(self)@)),
    {
        let mut i: u32 = 0;
        while i < 8
            invariant
                0 <= i <= 8,
                self.wf(),
                push_regs_spec::<D>(old(self)@, 0) == push_regs_spec::<D>(self@, i as nat),
            decreases 8 - i,
        {
            let v = self.get_reg(i * 4);
            match self.push(v) {
                Ok(_u) => {},
                Err(e) => {
                    return Err(e);
                },
            }
            i = i + 1;
        }
        let pcv = self.get_reg(PC);
        match self.push(pcv) {
            Ok(_u) => {},
            Err(e) => {
                return Err(e);
            },
        }
        let size = self.stackframe_size.wrapping_add(4);
        match self.push(size) {
            Ok(_u) => {},
            Err(e) => {
                return Err(e);
            },
        }
        let sp = self.get_reg(SP);
        self.set_reg(FP, sp);
        self.stackframe_size = 0;
        Ok(())
    }

    /// Pops the caller's state on return from a subroutine.
    pub fn pop_state(&mut self) -> (r: Result<(), Fault>)
        requires
            old(self).wf(),
        ensures
            final (self).wf(),
            obeys(final (self)@, r, pop_state_spec::<D>(old(self)@)),
    {
        let fp_addr = self.get_reg(FP);
        self.set_reg(SP, fp_addr);
        // the frame size slot itself is not counted by the frame counter,
        // so account for it before popping it
        self.stackframe_size = self.stackframe_size.wrapping_add(4);
        let size = match self.pop() {
            Ok(w) => w,
            Err(e) => {
                return Err(e);
            },
        };
        self.stackframe_size = size;
        let pcv = match self.pop() {
            Ok(w) => w,
            Err(e) => {
                return Err(e);
            },
        };
        self.set_reg(PC, pcv);
        let mut i: u32 = 8;
        while i > 0
            invariant
                0 <= i <= 8,
                self.wf(),
                pop_state_spec::<D>(old(self)@) == (match pop_regs_spec::<D>(self@, i as nat) {
                    Err(e) => Err::<MachineState<D::V>, Fault>(e),
                    Ok(s7) => match pop_spec::<D>(s7) {
                        Err(e) => Err(e),
                        Ok((s8, argc)) => match pop_args_spec::<D>(s8, argc as nat) {
                            Err(e) => Err(e),
                            Ok(s9) => Ok(
                                with_reg(
                                    s9,
                                    FP,
                                    vstd::wrapping::u32_specs::wrapping_add(
                                        fp_addr,
                                        s9.stackframe_size,
                                    ),
                                ),
                            ),
                        },
                    },
                }),
            decreases i,
        {
            let v = match self.pop() {
                Ok(w) => w,
                Err(e) => {
                    return Err(e);
                },
            };
            self.set_reg((i - 1) * 4, v);
            i = i - 1;
        }
        let arg_count = match self.pop() {
            Ok(w) => w,
            Err(e) => {
                return Err(e);
            },
        };
        let mut k: u32 = arg_count;
        while k > 0
            invariant
                self.wf(),
                pop_state_spec::<D>(old(self)@) == (match pop_args_spec::<D>(self@, k as nat) {
                    Err(e) => Err::<MachineState<D::V>, Fault>(e),
                    Ok(s9) => Ok(
                        with_reg(
                            s9,
                            FP,
                            vstd::wrapping::u32_specs::wrapping_add(fp_addr, s9.stackframe_size),
                        ),
                    ),
                }),
            decreases k,
        {
            match self.pop() {
                Ok(_w) => {},
                Err(e) => {
                    return Err(e);
                },
            }
            k = k - 1;
        }
        let sfs = self.stackframe_size;
        self.set_reg(FP, fp_addr.wrapping_add(sfs));
        Ok(())
    }

    /// Decodes and executes one instruction whose opcode byte is `instr`;
    /// an unknown opcode is a decode fault.
    pub fn execute(&mut self, instr: u8) -> (r: Result<(), Fault>)
        requires
            old(self).wf(),
        ensures
            final (self).wf(),
            obeys(final (self)@, r, exec_instr_spec::<D>(old(self)@, instr)),
    {
        proof {
            reveal(exec_instr_spec);
        }
        match instr {
            0x00u8 => Ok(()),
            0xFFu8 => {
                self.set_halt();
                Ok(())
            },
            0x01u8 => crate::subroutine::JMP(self),
            0x02u8 => crate::subroutine::CALL(self),
            0x03u8 => crate::subroutine::CALLR(self),
            0x04u8 => crate::subroutine::RET(self),
            0x05u8 => crate::moves::POP(self),
            0x10u8 => crate::moves::MOVR(self),
            0x11u8 => crate::moves::MOVM(self),
            0x12u8 => crate::moves::MOVRR(self),
            0x13u8 => crate::moves::MOVRM(self),
            0x14u8 => crate::moves::MOVMR(self),
            0x15u8 => crate::moves::PUSH(self),
            0x16u8 => crate::moves::PUSHR(self),
            0x17u8 => crate::moves::MOVRPR(self),
            0x18u8 => crate::moves::MOVROR(self),
            0x19u8 => crate::moves::LOAD(self),
            0x1Au8 => crate::moves::LOADR(self),
            0x1Bu8 => crate::moves::LOADM(self),
            0x1Cu8 => crate::moves::STORE(self),
            0x1Du8 => crate::moves::STORER(self),
            0x1Eu8 => crate::moves::STOREM(self),
            0x20u8 => crate::arith::ADD(self),
            0x21u8 => crate::arith::ADDR(self),
            0x22u8 => crate::arith::SUB(self),
            0x23u8 => crate::arith::SUBWR(self),
            0x24u8 => crate::arith::SUBR(self),
            0x25u8 => crate::arith::MULT(self),
            0x26u8 => crate::arith::MULTR(self),
            0x27u8 => crate::arith::DIV(self),
            0x28u8 => crate::arith::DIVWR(self),
            0x29u8 => crate::arith::DIVR(self),
            0x2Au8 => crate::arith::INC(self),
            0x2Bu8 => crate::arith::DEC(self),
            0x30u8 => crate::branch::BRBS(self),
            0x31u8 => crate::branch::BRBC(self),
            0x32u8 => crate::branch::BREQ(self),
            0x33u8 => crate::branch::BREQR(self),
            0x34u8 => crate::branch::BREQRW(self),
            0x35u8 => crate::branch::BREQRR(self),
            0x36u8 => crate::branch::BRNQ(self),
            0x37u8 => crate::branch::BRNQR(self),
            0x38u8 => crate::branch::BRNQRW(self),
            0x39u8 => crate::branch::BRNQRR(self),
            0x3Au8 => crate::branch::BRLT(self),
            0x3Bu8 => crate::branch::BRLTR(self),
            0x3Cu8 => crate::branch::BRLTRW(self),
            0x3Du8 => crate::branch::BRLTRR(self),
            0x3Eu8 => crate::branch::BRGT(self),
            0x3Fu8 => crate::branch::BRGTR(self),
            0x40u8 => crate::branch::BRGTRW(self),
            0x41u8 => crate::branch::BRGTRR(self),
            0x42u8 => crate::branch::BRLTE(self),
            0x43u8 => crate::branch::BRLTER(self),
            0x44u8 => crate::branch::BRLTERW(self),
            0x45u8 => crate::branch::BRLTERR(self),
            0x46u8 => crate::branch::BRGTE(self),
            0x47u8 => crate::branch::BRGTER(self),
            0x48u8 => crate::branch::BRGTERW(self),
            0x49u8 => crate::branch::BRGTERR(self),
            0x50u8 => crate::bitwise::LSF(self),
            0x51u8 => crate::bitwise::LSFR(self),
            0x52u8 => crate::bitwise::RSF(self),
            0x53u8 => crate::bitwise::RSFR(self),
            0x54u8 => crate::bitwise::WLSF(self),
            0x55u8 => crate::bitwise::WLSFR(self),
            0x56u8 => crate::bitwise::WRSF(self),
            0x57u8 => crate::bitwise::WRSFR(self),
            0x58u8 => crate::bitwise::AND(self),
            0x59u8 => crate::bitwise::ANDR(self),
            0x5Au8 => crate::bitwise::OR(self),
            0x5Bu8 => crate::bitwise::ORR(self),
            0x5Cu8 => crate::bitwise::XOR(self),
            0x5Du8 => crate::bitwise::XORR(self),
            0x5Eu8 => crate::bitwise::NOT(self),
            _ => Err(Fault::DecodeFault),
        }
    }

    /// Fetches one opcode byte and executes it.
    pub fn step(&mut self) -> (r: Result<(), Fault>)
        requires
            old(self).wf(),
        ensures
            final (self).wf(),
            obeys(final (self)@, r, step_spec::<D>(old(self)@)),
    {
        let instr = match self.fetch_byte() {
            Ok(b) => b,
            Err(e) => {
                return Err(e);
            },
        };
        self.execute(instr)
    }

    /// Runs the fetch-execute loop until the machine halts or faults.
    /// Running before `set_stack` is a stack fault. On success the final
    /// state is reached from the initial one by some number of steps and
    /// has the halt signal raised — unless the program ran for `u64::MAX`
    /// steps without halting, in which case the loop gives up with the
    /// halt signal still clear. On a fault, some number of steps leads to
    /// a state whose next step raises exactly that fault.
    pub fn run(&mut self) -> (r: Result<(), Fault>)
        requires
            old(self).wf(),
        ensures
            final (self).wf(),
            !old(self)@.stack_set ==> r == Err::<(), Fault>(Fault::StackFault) && final (self)@
                == old(self)@,
            old(self)@.stack_set ==> match r {
                Ok(_u) => exists|n: nat|
                    steps_n::<D>(old(self)@, n) == Ok::<MachineState<D::V>, Fault>(final (self)@)
                        && (final (self)@.halt || n == u64::MAX),
                Err(e) => exists|n: nat, s1: MachineState<D::V>|
                    steps_n::<D>(old(self)@, n) == Ok::<MachineState<D::V>, Fault>(s1)
                        && step_spec::<D>(s1) == Err::<MachineState<D::V>, Fault>(e),
            },
    {
        if !self.stack_set {
            return Err(Fault::StackFault);
        }
        let ghost start = self@;
        let mut steps_taken: u64 = 0;
        while !self.halt_signal && steps_taken < u64::MAX
            invariant
                self.wf(),
                steps_n::<D>(start, steps_taken as nat) == Ok::<MachineState<D::V>, Fault>(self@),
                start == old(self)@,
                old(self)@.stack_set,
            decreases u64::MAX - steps_taken,
        {
            let ghost pre = self@;
            match self.step() {
                Ok(_u) => {
                    steps_taken = steps_taken + 1;
                    proof {
                        assert(steps_n::<D>(start, steps_taken as nat) == step_spec::<D>(pre));
                    }
                },
                Err(e) => {
                    proof {
                        assert(steps_n::<D>(start, steps_taken as nat) == Ok::<
                            MachineState<D::V>,
                            Fault,
                        >(pre) && step_spec::<D>(pre) == Err::<MachineState<D::V>, Fault>(e));
                    }
                    return Err(e);
                },
            }
        }
        Ok(())
    }
}

/// One decoded instruction as a transition of the abstract machine.
#[verifier::opaque]
pub open spec fn exec_instr_spec<D: Device>(s: MachineState<D::V>, instr: u8) -> Result<
    MachineState<D::V>,
    Fault,
> {
    match instr {
        0x00u8 => Ok(s),
        0xFFu8 => Ok(MachineState { halt: true, ..s }),
        0x01u8 => jmp_spec::<D>(s),
        0x02u8 => call_spec::<D>(s),
        0x03u8 => callr_spec::<D>(s),
        0x04u8 => pop_state_spec::<D>(s),
        0x05u8 => pop_instr_spec::<D>(s),
        0x10u8 => movr_spec::<D>(s),
        0x11u8 => movm_spec::<D>(s),
        0x12u8 => movrr_spec::<D>(s),
        0x13u8 => movrm_spec::<D>(s),
        0x14u8 => movmr_spec::<D>(s),
        0x15u8 => push_instr_spec::<D>(s),
        0x16u8 => pushr_spec::<D>(s),
        0x17u8 => movrpr_spec::<D>(s),
        0x18u8 => movror_spec::<D>(s),
        0x19u8 => load_spec::<D>(s),
        0x1Au8 => loadr_spec::<D>(s),
        0x1Bu8 => loadm_spec::<D>(s),
        0x1Cu8 => store_spec::<D>(s),
        0x1Du8 => storer_spec::<D>(s),
        0x1Eu8 => storem_spec::<D>(s),
        0x20u8 => arith_wr_spec::<D>(s, BinOp::Add),
        0x21u8 => arith_rr_spec::<D>(s, BinOp::Add),
        0x22u8 => arith_wr_spec::<D>(s, BinOp::Sub),
        0x23u8 => arith_rw_spec::<D>(s, BinOp::Sub),
        0x24u8 => arith_rr_spec::<D>(s, BinOp::Sub),
        0x25u8 => arith_wr_spec::<D>(s, BinOp::Mult),
        0x26u8 => arith_rr_spec::<D>(s, BinOp::Mult),
        0x27u8 => arith_wr_spec::<D>(s, BinOp::Div),
        0x28u8 => arith_rw_spec::<D>(s, BinOp::Div),
        0x29u8 => arith_rr_spec::<D>(s, BinOp::Div),
        0x2Au8 => arith_step_spec::<D>(s, BinOp::Add),
        0x2Bu8 => arith_step_spec::<D>(s, BinOp::Sub),
        0x30u8 => br_bit_spec::<D>(s, true),
        0x31u8 => br_bit_spec::<D>(s, false),
        0x32u8 => br_w_spec::<D>(s, Rel::Eq),
        0x33u8 => br_r_spec::<D>(s, Rel::Eq),
        0x34u8 => br_rw_spec::<D>(s, Rel::Eq),
        0x35u8 => br_rr_spec::<D>(s, Rel::Eq),
        0x36u8 => br_w_spec::<D>(s, Rel::Nq),
        0x37u8 => br_r_spec::<D>(s, Rel::Nq),
        0x38u8 => br_rw_spec::<D>(s, Rel::Nq),
        0x39u8 => br_rr_spec::<D>(s, Rel::Nq),
        0x3Au8 => br_w_spec::<D>(s, Rel::Lt),
        0x3Bu8 => br_r_spec::<D>(s, Rel::Lt),
        0x3Cu8 => br_rw_spec::<D>(s, Rel::Lt),
        0x3Du8 => br_rr_spec::<D>(s, Rel::Lt),
        0x3Eu8 => br_w_spec::<D>(s, Rel::Gt),
        0x3Fu8 => br_r_spec::<D>(s, Rel::Gt),
        0x40u8 => br_rw_spec::<D>(s, Rel::Gt),
        0x41u8 => br_rr_spec::<D>(s, Rel::Gt),
        0x42u8 => br_w_spec::<D>(s, Rel::Lte),
        0x43u8 => br_r_spec::<D>(s, Rel::Lte),
        0x44u8 => br_rw_spec::<D>(s, Rel::Lte),
        0x45u8 => br_rr_spec::<D>(s, Rel::Lte),
        0x46u8 => br_w_spec::<D>(s, Rel::Gte),
        0x47u8 => br_r_spec::<D>(s, Rel::Gte),
        0x48u8 => br_rw_spec::<D>(s, Rel::Gte),
        0x49u8 => br_rr_spec::<D>(s, Rel::Gte),
        0x50u8 => bit_rw_spec::<D>(s, BitOp::Shl),
        0x51u8 => bit_rr_spec::<D>(s, BitOp::Shl),
        0x52u8 => bit_rw_spec::<D>(s, BitOp::Shr),
        0x53u8 => bit_rr_spec::<D>(s, BitOp::Shr),
        0x54u8 => bit_rw_spec::<D>(s, BitOp::Rol),
        0x55u8 => bit_rr_spec::<D>(s, BitOp::Rol),
        0x56u8 => bit_rw_spec::<D>(s, BitOp::Ror),
        0x57u8 => bit_rr_spec::<D>(s, BitOp::Ror),
        0x58u8 => bit_rw_spec::<D>(s, BitOp::And),
        0x59u8 => bit_rr_spec::<D>(s, BitOp::And),
        0x5Au8 => bit_rw_spec::<D>(s, BitOp::Or),
        0x5Bu8 => bit_rr_spec::<D>(s, BitOp::Or),
        0x5Cu8 => bit_rw_spec::<D>(s, BitOp::Xor),
        0x5Du8 => bit_rr_spec::<D>(s, BitOp::Xor),
        0x5Eu8 => bit_not_spec::<D>(s),
        _ => Err(Fault::DecodeFault),
    }
}

/// One machine step: fetch an opcode byte, then execute it.
pub open spec fn step_spec<D: Device>(s: MachineState<D::V>) -> Result<MachineState<D::V>, Fault> {
    match fetch_byte_spec::<D>(s) {
        Err(e) => Err(e),
        Ok((s1, instr)) => exec_instr_spec::<D>(s1, instr),
    }
}

/// The machine after `n` steps, or the fault that stopped it.
pub open spec fn steps_n<D: Device>(s: MachineState<D::V>, n: nat) -> Result<
    MachineState<D::V>,
    Fault,
>
    decreases n,
{
    if n == 0 {
        Ok(s)
    } else {
        match steps_n::<D>(s, (n - 1) as nat) {
            Err(e) => Err(e),
            Ok(s1) => step_spec::<D>(s1),
        }
    }
}

} // verus!
