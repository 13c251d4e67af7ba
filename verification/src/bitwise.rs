//! Bitwise instructions.
//!
//! Shifts wrap their shift amount modulo 32; the wide-shift family
//! rotates, losing no bit. The result lands back in the first register
//! operand, and every handler updates the status flags with the
//! register's old value and the result.

#![allow(non_snake_case)]

use vstd::prelude::*;

use crate::cpu::{
    fetch_word_spec, obeys, reg_read_spec, update_sr_spec, with_reg, MachineState, CPU,
};
use crate::device::Device;
use crate::fault::Fault;

verus! {

/// Rotating `x` left by `k` (modulo 32) bit positions.
pub open spec fn rotl32(x: u32, k: u32) -> u32 {
    let s = k % 32;
    (x << s) | (x >> (((32 - s) as u32) % 32))
}

/// Rotating `x` right by `k` (modulo 32) bit positions.
pub open spec fn rotr32(x: u32, k: u32) -> u32 {
    let s = k % 32;
    (x >> s) | (x << (((32 - s) as u32) % 32))
}

/// The number of set bits of `x`.
pub open spec fn popcount(x: u32) -> int {
    ((x >> 0) & 1) + ((x >> 1) & 1) + ((x >> 2) & 1) + ((x >> 3) & 1) + ((x >> 4) & 1) + ((x >> 5)
        & 1) + ((x >> 6) & 1) + ((x >> 7) & 1) + ((x >> 8) & 1) + ((x >> 9) & 1) + ((x >> 10) & 1)
        + ((x >> 11) & 1) + ((x >> 12) & 1) + ((x >> 13) & 1) + ((x >> 14) & 1) + ((x >> 15) & 1) + (
    (x >> 16) & 1) + ((x >> 17) & 1) + ((x >> 18) & 1) + ((x >> 19) & 1) + ((x >> 20) & 1) + ((x
        >> 21) & 1) + ((x >> 22) & 1) + ((x >> 23) & 1) + ((x >> 24) & 1) + ((x >> 25) & 1) + ((x
        >> 26) & 1) + ((x >> 27) & 1) + ((x >> 28) & 1) + ((x >> 29) & 1) + ((x >> 30) & 1) + ((x
        >> 31) & 1)
}

/// Rotating left by one position preserves the number of set bits.
proof fn lemma_rotl1_popcount(x: u32)
    ensures
        popcount(rotl32(x, 1)) == popcount(x),
{
    assert(popcount((x << 1u32) | (x >> 31u32)) == popcount(x)) by (bit_vector);
}

/// A left rotation by `s` is a rotation by `s - 1` followed by one more.
proof fn lemma_rotl_step(x: u32, s: u32)
    requires
        1 <= s < 32,
    ensures
        rotl32(x, s) == rotl32(rotl32(x, (s - 1) as u32), 1),
{
    let t = (s - 1) as u32;
    let y = rotl32(x, t);
    assert((x << s) | (x >> ((32 - s) as u32 % 32)) == (y << 1u32) | (y >> 31u32)) by (bit_vector)
        requires
            1 <= s < 32,
            t == s - 1,
            y == (x << (t % 32)) | (x >> ((32 - t % 32) as u32 % 32)),
    ;
}

proof fn lemma_rotl_popcount_upto(x: u32, s: u32)
    requires
        s < 32,
    ensures
        popcount(rotl32(x, s)) == popcount(x),
    decreases s,
{
    if s == 0 {
        assert(popcount((x << 0u32) | (x >> 0u32)) == popcount(x)) by (bit_vector);
    } else {
        lemma_rotl_popcount_upto(x, (s - 1) as u32);
        lemma_rotl1_popcount(rotl32(x, (s - 1) as u32));
        lemma_rotl_step(x, s);
    }
}

/// Rotations lose no bit: rotating left preserves the number of set bits.
pub proof fn lemma_rotl_preserves_popcount(x: u32, k: u32)
    ensures
        popcount(rotl32(x, k)) == popcount(x),
{
    lemma_rotl_popcount_upto(x, k % 32);
    assert(rotl32(x, k) == rotl32(x, k % 32));
}

/// A right rotation is a left rotation by the complementary amount.
proof fn lemma_rotr_as_rotl(x: u32, k: u32)
    ensures
        rotr32(x, k) == rotl32(x, ((32 - (k % 32) as int) as u32) % 32),
{
    let s = k % 32;
    let c = ((32 - s) as u32) % 32;
    assert((x >> s) | (x << ((32 - s) as u32 % 32)) == (x << (c % 32)) | (x >> ((32 - c % 32)
        as u32 % 32))) by (bit_vector)
        requires
            s < 32,
            c == (32 - s) as u32 % 32,
    ;
}

/// Rotations lose no bit: rotating right preserves the number of set bits.
pub proof fn lemma_rotr_preserves_popcount(x: u32, k: u32)
    ensures
        popcount(rotr32(x, k)) == popcount(x),
{
    lemma_rotr_as_rotl(x, k);
    lemma_rotl_preserves_popcount(x, ((32 - (k % 32) as int) as u32) % 32);
}

fn rotate_left32(x: u32, k: u32) -> (r: u32)
    ensures
        r == rotl32(x, k),
{
    let s = k % 32;
    if s == 0 {
        proof {
            assert((x << 0u32) | (x >> 0u32) == x) by (bit_vector);
        }
        x
    } else {
        (x << s) | (x >> (32 - s))
    }
}

fn rotate_right32(x: u32, k: u32) -> (r: u32)
    ensures
        r == rotr32(x, k),
{
    let s = k % 32;
    if s == 0 {
        proof {
            assert((x >> 0u32) | (x << 0u32) == x) by (bit_vector);
        }
        x
    } else {
        (x >> s) | (x << (32 - s))
    }
}

/// A bitwise binary operation.
#[derive(Clone, Copy, PartialEq, Eq, Structural)]
pub enum BitOp {
    Shl,
    Shr,
    Rol,
    Ror,
    And,
    Or,
    Xor,
}

/// The value of `a op b`; shift amounts wrap modulo 32.
pub open spec fn apply_bitop_spec(op: BitOp, a: u32, b: u32) -> u32 {
    match op {
        BitOp::Shl => vstd::wrapping::u32_specs::wrapping_shl(a, b),
        BitOp::Shr => vstd::wrapping::u32_specs::wrapping_shr(a, b),
        BitOp::Rol => rotl32(a, b),
        BitOp::Ror => rotr32(a, b),
        BitOp::And => a & b,
        BitOp::Or => a | b,
        BitOp::Xor => a ^ b,
    }
}

fn apply_bitop(op: BitOp, a: u32, b: u32) -> (r: u32)
    ensures
        r == apply_bitop_spec(op, a, b),
{
    match op {
        BitOp::Shl => a.wrapping_shl(b),
        BitOp::Shr => a.wrapping_shr(b),
        BitOp::Rol => rotate_left32(a, b),
        BitOp::Ror => rotate_right32(a, b),
        BitOp::And => a & b,
        BitOp::Or => a | b,
        BitOp::Xor => a ^ b,
    }
}

/// A register-literal instruction: `[R] <- [R] op W`, flags from the old
/// `[R]` and the result.
pub open spec fn bit_rw_spec<D: Device>(s: MachineState<D::V>, op: BitOp) -> Result<
    MachineState<D::V>,
    Fault,
> {
    match fetch_word_spec::<D>(s) {
        Err(e) => Err(e),
        Ok((s1, raddr)) => match reg_read_spec(s1, raddr) {
            Err(e) => Err(e),
            Ok(rv) => match fetch_word_spec::<D>(s1) {
                Err(e) => Err(e),
                Ok((s2, w)) => {
                    let res = apply_bitop_spec(op, rv, w);
                    Ok(update_sr_spec(with_reg(s2, raddr, res), rv, res))
                },
            },
        },
    }
}

/// A register-register instruction: `[R1] <- [R1] op [R2]`, flags from
/// the old `[R1]` and the result.
pub open spec fn bit_rr_spec<D: Device>(s: MachineState<D::V>, op: BitOp) -> Result<
    MachineState<D::V>,
    Fault,
> {
    match fetch_word_spec::<D>(s) {
        Err(e) => Err(e),
        Ok((s1, r1)) => match fetch_word_spec::<D>(s1) {
            Err(e) => Err(e),
            Ok((s2, r2)) => match reg_read_spec(s2, r1) {
                Err(e) => Err(e),
                Ok(v1) => match reg_read_spec(s2, r2) {
                    Err(e) => Err(e),
                    Ok(v2) => {
                        let res = apply_bitop_spec(op, v1, v2);
                        Ok(update_sr_spec(with_reg(s2, r1, res), v1, res))
                    },
                },
            },
        },
    }
}

/// `NOT`: `[R] <- !([R])`, flags from the old value and the result.
pub open spec fn bit_not_spec<D: Device>(s: MachineState<D::V>) -> Result<
    MachineState<D::V>,
    Fault,
> {
    match fetch_word_spec::<D>(s) {
        Err(e) => Err(e),
        Ok((s1, raddr)) => match reg_read_spec(s1, raddr) {
            Err(e) => Err(e),
            Ok(rv) => {
                let res = !rv;
                Ok(update_sr_spec(with_reg(s1, raddr, res), rv, res))
            },
        },
    }
}

fn bit_rw<D: Device>(cpu: &mut CPU<D>, op: BitOp) -> (r: Result<(), Fault>)
    requires
        old(cpu).wf(),
    ensures
        final (cpu).wf(),
        obeys(final (cpu)@, r, bit_rw_spec::<D>(old(cpu)@, op)),
{
    let raddr = match cpu.fetch_word() {
        Ok(v) => v,
        Err(e) => {
            return Err(e);
        },
    };
    let rv = match cpu.reg_read(raddr) {
        Ok(v) => v,
        Err(e) => {
            return Err(e);
        },
    };
    let w = match cpu.fetch_word() {
        Ok(v) => v,
        Err(e) => {
            return Err(e);
        },
    };
    let res = apply_bitop(op, rv, w);
    cpu.set_reg(raddr, res);
    cpu.update_sr(rv, res);
    Ok(())
}

fn bit_rr<D: Device>(cpu: &mut CPU<D>, op: BitOp) -> (r: Result<(), Fault>)
    requires
        old(cpu).wf(),
    ensures
        final (cpu).wf(),
        obeys(final (cpu)@, r, bit_rr_spec::<D>(old(cpu)@, op)),
{
    let r1 = match cpu.fetch_word() {
        Ok(v) => v,
        Err(e) => {
            return Err(e);
        },
    };
    let r2 = match cpu.fetch_word() {
        Ok(v) => v,
        Err(e) => {
            return Err(e);
        },
    };
    let v1 = match cpu.reg_read(r1) {
        Ok(v) => v,
        Err(e) => {
            return Err(e);
        },
    };
    let v2 = match cpu.reg_read(r2) {
        Ok(v) => v,
        Err(e) => {
            return Err(e);
        },
    };
    let res = apply_bitop(op, v1, v2);
    cpu.set_reg(r1, res);
    cpu.update_sr(v1, res);
    Ok(())
}

/// ## LSF r1, 0x4
/// Shift register r1 left by 0x4.
pub fn LSF<D: Device>(cpu: &mut CPU<D>) -> (r: Result<(), Fault>)
    requires
        old(cpu).wf(),
    ensures
        final (cpu).wf(),
        obeys(final (cpu)@, r, bit_rw_spec::<D>(old(cpu)@, BitOp::Shl)),
{
    bit_rw(cpu, BitOp::Shl)
}

/// ## LSFR r1, r2
/// Shift register r1 left by register r2.
pub fn LSFR<D: Device>(cpu: &mut CPU<D>) -> (r: Result<(), Fault>)
    requires
        old(cpu).wf(),
    ensures
        final (cpu).wf(),
        obeys(final (cpu)@, r, bit_rr_spec::<D>(old(cpu)@, BitOp::Shl)),
{
    bit_rr(cpu, BitOp::Shl)
}

/// ## RSF r1, 0x4
/// Shift register r1 right by 0x4.
pub fn RSF<D: Device>(cpu: &mut CPU<D>) -> (r: Result<(), Fault>)
    requires
        old(cpu).wf(),
    ensures
        final (cpu).wf(),
        obeys(final (cpu)@, r, bit_rw_spec::<D>(old(cpu)@, BitOp::Shr)),
{
    bit_rw(cpu, BitOp::Shr)
}

/// ## RSFR r1, r2
/// Shift register r1 right by register r2.
pub fn RSFR<D: Device>(cpu: &mut CPU<D>) -> (r: Result<(), Fault>)
    requires
        old(cpu).wf(),
    ensures
        final (cpu).wf(),
        obeys(final (cpu)@, r, bit_rr_spec::<D>(old(cpu)@, BitOp::Shr)),
{
    bit_rr(cpu, BitOp::Shr)
}

/// ## WLSF r1, 0x4
/// Rotate register r1 left by 0x4, wrapping around.
pub fn WLSF<D: Device>(cpu: &mut CPU<D>) -> (r: Result<(), Fault>)
    requires
        old(cpu).wf(),
    ensures
        final (cpu).wf(),
        obeys(final (cpu)@, r, bit_rw_spec::<D>(old(cpu)@, BitOp::Rol)),
{
    bit_rw(cpu, BitOp::Rol)
}

/// ## WLSFR r1, r2
/// Rotate register r1 left by register r2, wrapping around.
pub fn WLSFR<D: Device>(cpu: &mut CPU<D>) -> (r: Result<(), Fault>)
    requires
        old(cpu).wf(),
    ensures
        final (cpu).wf(),
        obeys(final (cpu)@, r, bit_rr_spec::<D>(old(cpu)@, BitOp::Rol)),
{
    bit_rr(cpu, BitOp::Rol)
}

/// ## WRSF r1, 0x4
/// Rotate register r1 right by 0x4, wrapping around.
pub fn WRSF<D: Device>(cpu: &mut CPU<D>) -> (r: Result<(), Fault>)
    requires
        old(cpu).wf(),
    ensures
        final (cpu).wf(),
        obeys(final (cpu)@, r, bit_rw_spec::<D>(old(cpu)@, BitOp::Ror)),
{
    bit_rw(cpu, BitOp::Ror)
}

/// ## WRSFR r1, r2
/// Rotate register r1 right by register r2, wrapping around.
pub fn WRSFR<D: Device>(cpu: &mut CPU<D>) -> (r: Result<(), Fault>)
    requires
        old(cpu).wf(),
    ensures
        final (cpu).wf(),
        obeys(final (cpu)@, r, bit_rr_spec::<D>(old(cpu)@, BitOp::Ror)),
{
    bit_rr(cpu, BitOp::Ror)
}

/// ## AND r1, 0x4
/// Bitwise AND register r1 with 0x4.
pub fn AND<D: Device>(cpu: &mut CPU<D>) -> (r: Result<(), Fault>)
    requires
        old(cpu).wf(),
    ensures
        final (cpu).wf(),
        obeys(final (cpu)@, r, bit_rw_spec::<D>(old(cpu)@, BitOp::And)),
{
    bit_rw(cpu, BitOp::And)
}

/// ## ANDR r1, r2
/// Bitwise AND register r1 with register r2.
pub fn ANDR<D: Device>(cpu: &mut CPU<D>) -> (r: Result<(), Fault>)
    requires
        old(cpu).wf(),
    ensures
        final (cpu).wf(),
        obeys(final (cpu)@, r, bit_rr_spec::<D>(old(cpu)@, BitOp::And)),
{
    bit_rr(cpu, BitOp::And)
}

/// ## OR r1, 0x4
/// Bitwise OR register r1 with 0x4.
pub fn OR<D: Device>(cpu: &mut CPU<D>) -> (r: Result<(), Fault>)
    requires
        old(cpu).wf(),
    ensures
        final (cpu).wf(),
        obeys(final (cpu)@, r, bit_rw_spec::<D>(old(cpu)@, BitOp::Or)),
{
    bit_rw(cpu, BitOp::Or)
}

/// ## ORR r1, r2
/// Bitwise OR register r1 with register r2.
pub fn ORR<D: Device>(cpu: &mut CPU<D>) -> (r: Result<(), Fault>)
    requires
        old(cpu).wf(),
    ensures
        final (cpu).wf(),
        obeys(final (cpu)@, r, bit_rr_spec::<D>(old(cpu)@, BitOp::Or)),
{
    bit_rr(cpu, BitOp::Or)
}

/// ## XOR r1, 0x4
/// Bitwise XOR register r1 with 0x4.
pub fn XOR<D: Device>(cpu: &mut CPU<D>) -> (r: Result<(), Fault>)
    requires
        old(cpu).wf(),
    ensures
        final (cpu).wf(),
        obeys(final (cpu)@, r, bit_rw_spec::<D>(old(cpu)@, BitOp::Xor)),
{
    bit_rw(cpu, BitOp::Xor)
}

/// ## XORR r1, r2
/// Bitwise XOR register r1 with register r2.
pub fn XORR<D: Device>(cpu: &mut CPU<D>) -> (r: Result<(), Fault>)
    requires
        old(cpu).wf(),
    ensures
        final (cpu).wf(),
        obeys(final (cpu)@, r, bit_rr_spec::<D>(old(cpu)@, BitOp::Xor)),
{
    bit_rr(cpu, BitOp::Xor)
}

/// ## NOT r1
/// Bitwise NOT register r1.
pub fn NOT<D: Device>(cpu: &mut CPU<D>) -> (r: Result<(), Fault>)
    requires
        old(cpu).wf(),
    ensures
        final (cpu).wf(),
        obeys(final (cpu)@, r, bit_not_spec::<D>(old(cpu)@)),
{
    let raddr = match cpu.fetch_word() {
        Ok(v) => v,
        Err(e) => {
            return Err(e);
        },
    };
    let rv = match cpu.reg_read(raddr) {
        Ok(v) => v,
        Err(e) => {
            return Err(e);
        },
    };
    let res = !rv;
    cpu.set_reg(raddr, res);
    cpu.update_sr(rv, res);
    Ok(())
}

} // verus!
