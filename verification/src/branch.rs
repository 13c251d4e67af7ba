//! Conditional branch instructions.
//!
//! Each comparison family comes in four addressing variants: literal
//! against the accumulator, register against the accumulator, register
//! against a literal, and register against register. When the comparison
//! holds, `pc` moves to the branch target; otherwise execution falls
//! through to the next instruction. `BRBS`/`BRBC` branch on a single
//! status-register bit. All comparisons are unsigned.

#![allow(non_snake_case)]

use vstd::prelude::*;

use crate::cpu::{
    fetch_byte_spec, fetch_word_spec, obeys, reg_read_spec, reg_word, status_flag, with_reg,
    MachineState, ACC, CPU, PC,
};
use crate::device::Device;
use crate::fault::Fault;

verus! {

/// An unsigned comparison.
#[derive(Clone, Copy, PartialEq, Eq, Structural)]
pub enum Rel {
    Eq,
    Nq,
    Lt,
    Gt,
    Lte,
    Gte,
}

/// Does `a rel b` hold?
pub open spec fn rel_holds(rel: Rel, a: u32, b: u32) -> bool {
    match rel {
        Rel::Eq => a == b,
        Rel::Nq => a != b,
        Rel::Lt => a < b,
        Rel::Gt => a > b,
        Rel::Lte => a <= b,
        Rel::Gte => a >= b,
    }
}

fn rel_test(rel: Rel, a: u32, b: u32) -> (r: bool)
    ensures
        r == rel_holds(rel, a, b),
{
    match rel {
        Rel::Eq => a == b,
        Rel::Nq => a != b,
        Rel::Lt => a < b,
        Rel::Gt => a > b,
        Rel::Lte => a <= b,
        Rel::Gte => a >= b,
    }
}

/// A literal-vs-accumulator branch: fetch `W` and the target, branch when
/// `W rel acc`.
pub open spec fn br_w_spec<D: Device>(s: MachineState<D::V>, rel: Rel) -> Result<
    MachineState<D::V>,
    Fault,
> {
    match fetch_word_spec::<D>(s) {
        Err(e) => Err(e),
        Ok((s1, w)) => match fetch_word_spec::<D>(s1) {
            Err(e) => Err(e),
            Ok((s2, addr)) => if rel_holds(rel, w, reg_word(s2, ACC)) {
                Ok(with_reg(s2, PC, addr))
            } else {
                Ok(s2)
            },
        },
    }
}

/// A register-vs-accumulator branch: branch when `[R] rel acc`.
pub open spec fn br_r_spec<D: Device>(s: MachineState<D::V>, rel: Rel) -> Result<
    MachineState<D::V>,
    Fault,
> {
    match fetch_word_spec::<D>(s) {
        Err(e) => Err(e),
        Ok((s1, raddr)) => match reg_read_spec(s1, raddr) {
            Err(e) => Err(e),
            Ok(v) => match fetch_word_spec::<D>(s1) {
                Err(e) => Err(e),
                Ok((s2, addr)) => if rel_holds(rel, v, reg_word(s2, ACC)) {
                    Ok(with_reg(s2, PC, addr))
                } else {
                    Ok(s2)
                },
            },
        },
    }
}

/// A register-vs-literal branch: branch when `[R] rel W`.
pub open spec fn br_rw_spec<D: Device>(s: MachineState<D::V>, rel: Rel) -> Result<
    MachineState<D::V>,
    Fault,
> {
    match fetch_word_spec::<D>(s) {
        Err(e) => Err(e),
        Ok((s1, raddr)) => match reg_read_spec(s1, raddr) {
            Err(e) => Err(e),
            Ok(v) => match fetch_word_spec::<D>(s1) {
                Err(e) => Err(e),
                Ok((s2, w)) => match fetch_word_spec::<D>(s2) {
                    Err(e) => Err(e),
                    Ok((s3, addr)) => if rel_holds(rel, v, w) {
                        Ok(with_reg(s3, PC, addr))
                    } else {
                        Ok(s3)
                    },
                },
            },
        },
    }
}

/// A register-vs-register branch: branch when `[R1] rel [R2]`.
pub open spec fn br_rr_spec<D: Device>(s: MachineState<D::V>, rel: Rel) -> Result<
    MachineState<D::V>,
    Fault,
> {
    match fetch_word_spec::<D>(s) {
        Err(e) => Err(e),
        Ok((s1, r1)) => match reg_read_spec(s1, r1) {
            Err(e) => Err(e),
            Ok(v1) => match fetch_word_spec::<D>(s1) {
                Err(e) => Err(e),
                Ok((s2, r2)) => match reg_read_spec(s2, r2) {
                    Err(e) => Err(e),
                    Ok(v2) => match fetch_word_spec::<D>(s2) {
                        Err(e) => Err(e),
                        Ok((s3, addr)) => if rel_holds(rel, v1, v2) {
                            Ok(with_reg(s3, PC, addr))
                        } else {
                            Ok(s3)
                        },
                    },
                },
            },
        },
    }
}

/// A status-bit branch: fetch the flag index and the target, branch when
/// flag `F` equals `expected`.
pub open spec fn br_bit_spec<D: Device>(s: MachineState<D::V>, expected: bool) -> Result<
    MachineState<D::V>,
    Fault,
> {
    match fetch_byte_spec::<D>(s) {
        Err(e) => Err(e),
        Ok((s1, f)) => match fetch_word_spec::<D>(s1) {
            Err(e) => Err(e),
            Ok((s2, addr)) => if status_flag(s2, f) == expected {
                Ok(with_reg(s2, PC, addr))
            } else {
                Ok(s2)
            },
        },
    }
}

fn br_w<D: Device>(cpu: &mut CPU<D>, rel: Rel) -> (r: Result<(), Fault>)
    requires
        old(cpu).wf(),
    ensures
        final (cpu).wf(),
        obeys(final (cpu)@, r, br_w_spec::<D>(old(cpu)@, rel)),
{
    let w = match cpu.fetch_word() {
        Ok(v) => v,
        Err(e) => {
            return Err(e);
        },
    };
    let addr = match cpu.fetch_word() {
        Ok(v) => v,
        Err(e) => {
            return Err(e);
        },
    };
    let acc = cpu.get_reg(ACC);
    if rel_test(rel, w, acc) {
        cpu.set_reg(PC, addr);
    }
    Ok(())
}

fn br_r<D: Device>(cpu: &mut CPU<D>, rel: Rel) -> (r: Result<(), Fault>)
    requires
        old(cpu).wf(),
    ensures
        final (cpu).wf(),
        obeys(final (cpu)@, r, br_r_spec::<D>(old(cpu)@, rel)),
{
    let raddr = match cpu.fetch_word() {
        Ok(v) => v,
        Err(e) => {
            return Err(e);
        },
    };
    let v = match cpu.reg_read(raddr) {
        Ok(v) => v,
        Err(e) => {
            return Err(e);
        },
    };
    let addr = match cpu.fetch_word() {
        Ok(v) => v,
        Err(e) => {
            return Err(e);
        },
    };
    let acc = cpu.get_reg(ACC);
    if rel_test(rel, v, acc) {
        cpu.set_reg(PC, addr);
    }
    Ok(())
}

fn br_rw<D: Device>(cpu: &mut CPU<D>, rel: Rel) -> (r: Result<(), Fault>)
    requires
        old(cpu).wf(),
    ensures
        final (cpu).wf(),
        obeys(final (cpu)@, r, br_rw_spec::<D>(old(cpu)@, rel)),
{
    let raddr = match cpu.fetch_word() {
        Ok(v) => v,
        Err(e) => {
            return Err(e);
        },
    };
    let v = match cpu.reg_read(raddr) {
        Ok(v) => v,
        Err(e) => {
            return Err(e);
        },
    };
    let w = match cpu.fetch_word() {
        Ok(v) => v,
        Err(e) => {
            return Err(e);
        },
    };
    let addr = match cpu.fetch_word() {
        Ok(v) => v,
        Err(e) => {
            return Err(e);
        },
    };
    if rel_test(rel, v, w) {
        cpu.set_reg(PC, addr);
    }
    Ok(())
}

fn br_rr<D: Device>(cpu: &mut CPU<D>, rel: Rel) -> (r: Result<(), Fault>)
    requires
        old(cpu).wf(),
    ensures
        final (cpu).wf(),
        obeys(final (cpu)@, r, br_rr_spec::<D>(old(cpu)@, rel)),
{
    let r1 = match cpu.fetch_word() {
        Ok(v) => v,
        Err(e) => {
            return Err(e);
        },
    };
    let v1 = match cpu.reg_read(r1) {
        Ok(v) => v,
        Err(e) => {
            return Err(e);
        },
    };
    let r2 = match cpu.fetch_word() {
        Ok(v) => v,
        Err(e) => {
            return Err(e);
        },
    };
    let v2 = match cpu.reg_read(r2) {
        Ok(v) => v,
        Err(e) => {
            return Err(e);
        },
    };
    let addr = match cpu.fetch_word() {
        Ok(v) => v,
        Err(e) => {
            return Err(e);
        },
    };
    if rel_test(rel, v1, v2) {
        cpu.set_reg(PC, addr);
    }
    Ok(())
}

fn br_bit<D: Device>(cpu: &mut CPU<D>, expected: bool) -> (r: Result<(), Fault>)
    requires
        old(cpu).wf(),
    ensures
        final (cpu).wf(),
        obeys(final (cpu)@, r, br_bit_spec::<D>(old(cpu)@, expected)),
{
    let f = match cpu.fetch_byte() {
        Ok(v) => v,
        Err(e) => {
            return Err(e);
        },
    };
    let addr = match cpu.fetch_word() {
        Ok(v) => v,
        Err(e) => {
            return Err(e);
        },
    };
    if cpu.get_status_flag(f) == expected {
        cpu.set_reg(PC, addr);
    }
    Ok(())
}

/// ## BRBS 0x0, 0xAF
/// Branch to 0xAF when status bit 0 is set.
pub fn BRBS<D: Device>(cpu: &mut CPU<D>) -> (r: Result<(), Fault>)
    requires
        old(cpu).wf(),
    ensures
        final (cpu).wf(),
        obeys(final (cpu)@, r, br_bit_spec::<D>(old(cpu)@, true)),
{
    br_bit(cpu, true)
}

/// ## BRBC 0x0, 0xAF
/// Branch to 0xAF when status bit 0 is clear.
pub fn BRBC<D: Device>(cpu: &mut CPU<D>) -> (r: Result<(), Fault>)
    requires
        old(cpu).wf(),
    ensures
        final (cpu).wf(),
        obeys(final (cpu)@, r, br_bit_spec::<D>(old(cpu)@, false)),
{
    br_bit(cpu, false)
}

/// ## BREQ 0x4, 0xAF
/// Branch to 0xAF when the literal 0x4 equals the accumulator.
pub fn BREQ<D: Device>(cpu: &mut CPU<D>) -> (r: Result<(), Fault>)
    requires
        old(cpu).wf(),
    ensures
        final (cpu).wf(),
        obeys(final (cpu)@, r, br_w_spec::<D>(old(cpu)@, Rel::Eq)),
{
    br_w(cpu, Rel::Eq)
}

/// ## BREQR r1, 0xAF
/// Branch to 0xAF when register r1 equals the accumulator.
pub fn BREQR<D: Device>(cpu: &mut CPU<D>) -> (r: Result<(), Fault>)
    requires
        old(cpu).wf(),
    ensures
        final (cpu).wf(),
        obeys(final (cpu)@, r, br_r_spec::<D>(old(cpu)@, Rel::Eq)),
{
    br_r(cpu, Rel::Eq)
}

/// ## BREQRW r1, 0x4, 0xAF
/// Branch to 0xAF when register r1 equals the literal 0x4.
pub fn BREQRW<D: Device>(cpu: &mut CPU<D>) -> (r: Result<(), Fault>)
    requires
        old(cpu).wf(),
    ensures
        final (cpu).wf(),
        obeys(final (cpu)@, r, br_rw_spec::<D>(old(cpu)@, Rel::Eq)),
{
    br_rw(cpu, Rel::Eq)
}

/// ## BREQRR r1, r2, 0xAF
/// Branch to 0xAF when register r1 equals register r2.
pub fn BREQRR<D: Device>(cpu: &mut CPU<D>) -> (r: Result<(), Fault>)
    requires
        old(cpu).wf(),
    ensures
        final (cpu).wf(),
        obeys(final (cpu)@, r, br_rr_spec::<D>(old(cpu)@, Rel::Eq)),
{
    br_rr(cpu, Rel::Eq)
}

/// ## BRNQ 0x4, 0xAF
/// Branch to 0xAF when the literal 0x4 differs from the accumulator.
pub fn BRNQ<D: Device>(cpu: &mut CPU<D>) -> (r: Result<(), Fault>)
    requires
        old(cpu).wf(),
    ensures
        final (cpu).wf(),
        obeys(final (cpu)@, r, br_w_spec::<D>(old(cpu)@, Rel::Nq)),
{
    br_w(cpu, Rel::Nq)
}

/// ## BRNQR r1, 0xAF
/// Branch to 0xAF when register r1 differs from the accumulator.
pub fn BRNQR<D: Device>(cpu: &mut CPU<D>) -> (r: Result<(), Fault>)
    requires
        old(cpu).wf(),
    ensures
        final (cpu).wf(),
        obeys(final (cpu)@, r, br_r_spec::<D>(old(cpu)@, Rel::Nq)),
{
    br_r(cpu, Rel::Nq)
}

/// ## BRNQRW r1, 0x4, 0xAF
/// Branch to 0xAF when register r1 differs from the literal 0x4.
pub fn BRNQRW<D: Device>(cpu: &mut CPU<D>) -> (r: Result<(), Fault>)
    requires
        old(cpu).wf(),
    ensures
        final (cpu).wf(),
        obeys(final (cpu)@, r, br_rw_spec::<D>(old(cpu)@, Rel::Nq)),
{
    br_rw(cpu, Rel::Nq)
}

/// ## BRNQRR r1, r2, 0xAF
/// Branch to 0xAF when register r1 differs from register r2.
pub fn BRNQRR<D: Device>(cpu: &mut CPU<D>) -> (r: Result<(), Fault>)
    requires
        old(cpu).wf(),
    ensures
        final (cpu).wf(),
        obeys(final (cpu)@, r, br_rr_spec::<D>(old(cpu)@, Rel::Nq)),
{
    br_rr(cpu, Rel::Nq)
}

/// ## BRLT 0x4, 0xAF
/// Branch to 0xAF when the literal 0x4 is below the accumulator.
pub fn BRLT<D: Device>(cpu: &mut CPU<D>) -> (r: Result<(), Fault>)
    requires
        old(cpu).wf(),
    ensures
        final (cpu).wf(),
        obeys(final (cpu)@, r, br_w_spec::<D>(old(cpu)@, Rel::Lt)),
{
    br_w(cpu, Rel::Lt)
}

/// ## BRLTR r1, 0xAF
/// Branch to 0xAF when register r1 is below the accumulator.
pub fn BRLTR<D: Device>(cpu: &mut CPU<D>) -> (r: Result<(), Fault>)
    requires
        old(cpu).wf(),
    ensures
        final (cpu).wf(),
        obeys(final (cpu)@, r, br_r_spec::<D>(old(cpu)@, Rel::Lt)),
{
    br_r(cpu, Rel::Lt)
}

/// ## BRLTRW r1, 0x4, 0xAF
/// Branch to 0xAF when register r1 is below the literal 0x4.
pub fn BRLTRW<D: Device>(cpu: &mut CPU<D>) -> (r: Result<(), Fault>)
    requires
        old(cpu).wf(),
    ensures
        final (cpu).wf(),
        obeys(final (cpu)@, r, br_rw_spec::<D>(old(cpu)@, Rel::Lt)),
{
    br_rw(cpu, Rel::Lt)
}

/// ## BRLTRR r1, r2, 0xAF
/// Branch to 0xAF when register r1 is below register r2.
pub fn BRLTRR<D: Device>(cpu: &mut CPU<D>) -> (r: Result<(), Fault>)
    requires
        old(cpu).wf(),
    ensures
        final (cpu).wf(),
        obeys(final (cpu)@, r, br_rr_spec::<D>(old(cpu)@, Rel::Lt)),
{
    br_rr(cpu, Rel::Lt)
}

/// ## BRGT 0x4, 0xAF
/// Branch to 0xAF when the literal 0x4 is above the accumulator.
pub fn BRGT<D: Device>(cpu: &mut CPU<D>) -> (r: Result<(), Fault>)
    requires
        old(cpu).wf(),
    ensures
        final (cpu).wf(),
        obeys(final (cpu)@, r, br_w_spec::<D>(old(cpu)@, Rel::Gt)),
{
    br_w(cpu, Rel::Gt)
}

/// ## BRGTR r1, 0xAF
/// Branch to 0xAF when register r1 is above the accumulator.
pub fn BRGTR<D: Device>(cpu: &mut CPU<D>) -> (r: Result<(), Fault>)
    requires
        old(cpu).wf(),
    ensures
        final (cpu).wf(),
        obeys(final (cpu)@, r, br_r_spec::<D>(old(cpu)@, Rel::Gt)),
{
    br_r(cpu, Rel::Gt)
}

/// ## BRGTRW r1, 0x4, 0xAF
/// Branch to 0xAF when register r1 is above the literal 0x4.
pub fn BRGTRW<D: Device>(cpu: &mut CPU<D>) -> (r: Result<(), Fault>)
    requires
        old(cpu).wf(),
    ensures
        final (cpu).wf(),
        obeys(final (cpu)@, r, br_rw_spec::<D>(old(cpu)@, Rel::Gt)),
{
    br_rw(cpu, Rel::Gt)
}

/// ## BRGTRR r1, r2, 0xAF
/// Branch to 0xAF when register r1 is above register r2.
pub fn BRGTRR<D: Device>(cpu: &mut CPU<D>) -> (r: Result<(), Fault>)
    requires
        old(cpu).wf(),
    ensures
        final (cpu).wf(),
        obeys(final (cpu)@, r, br_rr_spec::<D>(old(cpu)@, Rel::Gt)),
{
    br_rr(cpu, Rel::Gt)
}

/// ## BRLTE 0x4, 0xAF
/// Branch to 0xAF when the literal 0x4 is at most the accumulator.
pub fn BRLTE<D: Device>(cpu: &mut CPU<D>) -> (r: Result<(), Fault>)
    requires
        old(cpu).wf(),
    ensures
        final (cpu).wf(),
        obeys(final (cpu)@, r, br_w_spec::<D>(old(cpu)@, Rel::Lte)),
{
    br_w(cpu, Rel::Lte)
}

/// ## BRLTER r1, 0xAF
/// Branch to 0xAF when register r1 is at most the accumulator.
pub fn BRLTER<D: Device>(cpu: &mut CPU<D>) -> (r: Result<(), Fault>)
    requires
        old(cpu).wf(),
    ensures
        final (cpu).wf(),
        obeys(final (cpu)@, r, br_r_spec::<D>(old(cpu)@, Rel::Lte)),
{
    br_r(cpu, Rel::Lte)
}

/// ## BRLTERW r1, 0x4, 0xAF
/// Branch to 0xAF when register r1 is at most the literal 0x4.
pub fn BRLTERW<D: Device>(cpu: &mut CPU<D>) -> (r: Result<(), Fault>)
    requires
        old(cpu).wf(),
    ensures
        final (cpu).wf(),
        obeys(final (cpu)@, r, br_rw_spec::<D>(old(cpu)@, Rel::Lte)),
{
    br_rw(cpu, Rel::Lte)
}

/// ## BRLTERR r1, r2, 0xAF
/// Branch to 0xAF when register r1 is at most register r2.
pub fn BRLTERR<D: Device>(cpu: &mut CPU<D>) -> (r: Result<(), Fault>)
    requires
        old(cpu).wf(),
    ensures
        final (cpu).wf(),
        obeys(final (cpu)@, r, br_rr_spec::<D>(old(cpu)@, Rel::Lte)),
{
    br_rr(cpu, Rel::Lte)
}

/// ## BRGTE 0x4, 0xAF
/// Branch to 0xAF when the literal 0x4 is at least the accumulator.
pub fn BRGTE<D: Device>(cpu: &mut CPU<D>) -> (r: Result<(), Fault>)
    requires
        old(cpu).wf(),
    ensures
        final (cpu).wf(),
        obeys(final (cpu)@, r, br_w_spec::<D>(old(cpu)@, Rel::Gte)),
{
    br_w(cpu, Rel::Gte)
}

/// ## BRGTER r1, 0xAF
/// Branch to 0xAF when register r1 is at least the accumulator.
pub fn BRGTER<D: Device>(cpu: &mut CPU<D>) -> (r: Result<(), Fault>)
    requires
        old(cpu).wf(),
    ensures
        final (cpu).wf(),
        obeys(final (cpu)@, r, br_r_spec::<D>(old(cpu)@, Rel::Gte)),
{
    br_r(cpu, Rel::Gte)
}

/// ## BRGTERW r1, 0x4, 0xAF
/// Branch to 0xAF when register r1 is at least the literal 0x4.
pub fn BRGTERW<D: Device>(cpu: &mut CPU<D>) -> (r: Result<(), Fault>)
    requires
        old(cpu).wf(),
    ensures
        final (cpu).wf(),
        obeys(final (cpu)@, r, br_rw_spec::<D>(old(cpu)@, Rel::Gte)),
{
    br_rw(cpu, Rel::Gte)
}

/// ## BRGTERR r1, r2, 0xAF
/// Branch to 0xAF when register r1 is at least register r2.
pub fn BRGTERR<D: Device>(cpu: &mut CPU<D>) -> (r: Result<(), Fault>)
    requires
        old(cpu).wf(),
    ensures
        final (cpu).wf(),
        obeys(final (cpu)@, r, br_rr_spec::<D>(old(cpu)@, Rel::Gte)),
{
    br_rr(cpu, Rel::Gte)
}

} // verus!
