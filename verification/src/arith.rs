//! Arithmetic instructions.
//!
//! All arithmetic wraps modulo `2^32` and the result lands in the
//! accumulator, except `INC`/`DEC` which update their register in place.
//! Division by zero is an arithmetic fault. Every handler updates the
//! status flags with the operation's first operand and its result.

#![allow(non_snake_case)]

use vstd::prelude::*;

use crate::cpu::{
    fetch_word_spec, obeys, reg_read_spec, update_sr_spec, with_reg, MachineState, ACC, CPU,
};
use crate::device::Device;
use crate::fault::Fault;

verus! {

/// A wrapping binary arithmetic operation.
#[derive(Clone, Copy, PartialEq, Eq, Structural)]
pub enum BinOp {
    Add,
    Sub,
    Mult,
    Div,
}

/// The value of `a op b`; dividing by zero is an arithmetic fault.
pub open spec fn apply_binop_spec(op: BinOp, a: u32, b: u32) -> Result<u32, Fault> {
    match op {
        BinOp::Add => Ok(vstd::wrapping::u32_specs::wrapping_add(a, b)),
        BinOp::Sub => Ok(vstd::wrapping::u32_specs::wrapping_sub(a, b)),
        BinOp::Mult => Ok(vstd::wrapping::u32_specs::wrapping_mul(a, b)),
        BinOp::Div => if b == 0 {
            Err(Fault::ArithFault)
        } else {
            Ok(((a as int) / (b as int)) as u32)
        },
    }
}

fn apply_binop(op: BinOp, a: u32, b: u32) -> (r: Result<u32, Fault>)
    ensures
        r == apply_binop_spec(op, a, b),
{
    match op {
        BinOp::Add => Ok(a.wrapping_add(b)),
        BinOp::Sub => Ok(a.wrapping_sub(b)),
        BinOp::Mult => Ok(a.wrapping_mul(b)),
        BinOp::Div => if b == 0 {
            Err(Fault::ArithFault)
        } else {
            Ok(a / b)
        },
    }
}

/// A literal-register instruction: `acc <- W op [R]`, flags from `W`.
pub open spec fn arith_wr_spec<D: Device>(s: MachineState<D::V>, op: BinOp) -> Result<
    MachineState<D::V>,
    Fault,
> {
    match fetch_word_spec::<D>(s) {
        Err(e) => Err(e),
        Ok((s1, w)) => match fetch_word_spec::<D>(s1) {
            Err(e) => Err(e),
            Ok((s2, raddr)) => match reg_read_spec(s2, raddr) {
                Err(e) => Err(e),
                Ok(rv) => match apply_binop_spec(op, w, rv) {
                    Err(e) => Err(e),
                    Ok(res) => Ok(update_sr_spec(with_reg(s2, ACC, res), w, res)),
                },
            },
        },
    }
}

/// A register-literal instruction: `acc <- [R] op W`, flags from `[R]`.
pub open spec fn arith_rw_spec<D: Device>(s: MachineState<D::V>, op: BinOp) -> Result<
    MachineState<D::V>,
    Fault,
> {
    match fetch_word_spec::<D>(s) {
        Err(e) => Err(e),
        Ok((s1, raddr)) => match reg_read_spec(s1, raddr) {
            Err(e) => Err(e),
            Ok(rv) => match fetch_word_spec::<D>(s1) {
                Err(e) => Err(e),
                Ok((s2, w)) => match apply_binop_spec(op, rv, w) {
                    Err(e) => Err(e),
                    Ok(res) => Ok(update_sr_spec(with_reg(s2, ACC, res), rv, res)),
                },
            },
        },
    }
}

/// A register-register instruction: `acc <- [R1] op [R2]`, flags from `[R1]`.
pub open spec fn arith_rr_spec<D: Device>(s: MachineState<D::V>, op: BinOp) -> Result<
    MachineState<D::V>,
    Fault,
> {
    match fetch_word_spec::<D>(s) {
        Err(e) => Err(e),
        Ok((s1, r1)) => match fetch_word_spec::<D>(s1) {
            Err(e) => Err(e),
            Ok((s2, r2)) => match reg_read_spec(s2, r1) {
                Err(e) => Err(e),
                Ok(v1) => match reg_read_spec(s2, r2) {
                    Err(e) => Err(e),
                    Ok(v2) => match apply_binop_spec(op, v1, v2) {
                        Err(e) => Err(e),
                        Ok(res) => Ok(update_sr_spec(with_reg(s2, ACC, res), v1, res)),
                    },
                },
            },
        },
    }
}

/// An in-place step on one register: `[R] <- [R] +/- 1`, flags from the
/// old value and the result.
pub open spec fn arith_step_spec<D: Device>(s: MachineState<D::V>, op: BinOp) -> Result<
    MachineState<D::V>,
    Fault,
> {
    match fetch_word_spec::<D>(s) {
        Err(e) => Err(e),
        Ok((s1, raddr)) => match reg_read_spec(s1, raddr) {
            Err(e) => Err(e),
            Ok(pre) => match apply_binop_spec(op, pre, 1) {
                Err(e) => Err(e),
                Ok(post) => Ok(update_sr_spec(with_reg(s1, raddr, post), pre, post)),
            },
        },
    }
}

fn arith_wr<D: Device>(cpu: &mut CPU<D>, op: BinOp) -> (r: Result<(), Fault>)
    requires
        old(cpu).wf(),
    ensures
        final (cpu).wf(),
        obeys(final (cpu)@, r, arith_wr_spec::<D>(old(cpu)@, op)),
{
    let w = match cpu.fetch_word() {
        Ok(v) => v,
        Err(e) => {
            return Err(e);
        },
    };
    let raddr = match cpu.fetch_word() {
        Ok(v) => v,
        Err(e) => {
            return Err(e);
        },
    };
    let rv = match cpu.reg_read(raddr) {
        Ok(v) => v,
        Err(e) => {
            return Err(e);
        },
    };
    let res = match apply_binop(op, w, rv) {
        Ok(v) => v,
        Err(e) => {
            return Err(e);
        },
    };
    cpu.set_reg(ACC, res);
    cpu.update_sr(w, res);
    Ok(())
}

fn arith_rw<D: Device>(cpu: &mut CPU<D>, op: BinOp) -> (r: Result<(), Fault>)
    requires
        old(cpu).wf(),
    ensures
        final (cpu).wf(),
        obeys(final (cpu)@, r, arith_rw_spec::<D>(old(cpu)@, op)),
{
    let raddr = match cpu.fetch_word() {
        Ok(v) => v,
        Err(e) => {
            return Err(e);
        },
    };
    let rv = match cpu.reg_read(raddr) {
        Ok(v) => v,
        Err(e) => {
            return Err(e);
        },
    };
    let w = match cpu.fetch_word() {
        Ok(v) => v,
        Err(e) => {
            return Err(e);
        },
    };
    let res = match apply_binop(op, rv, w) {
        Ok(v) => v,
        Err(e) => {
            return Err(e);
        },
    };
    cpu.set_reg(ACC, res);
    cpu.update_sr(rv, res);
    Ok(())
}

fn arith_rr<D: Device>(cpu: &mut CPU<D>, op: BinOp) -> (r: Result<(), Fault>)
    requires
        old(cpu).wf(),
    ensures
        final (cpu).wf(),
        obeys(final (cpu)@, r, arith_rr_spec::<D>(old(cpu)@, op)),
{
    let r1 = match cpu.fetch_word() {
        Ok(v) => v,
        Err(e) => {
            return Err(e);
        },
    };
    let r2 = match cpu.fetch_word() {
        Ok(v) => v,
        Err(e) => {
            return Err(e);
        },
    };
    let v1 = match cpu.reg_read(r1) {
        Ok(v) => v,
        Err(e) => {
            return Err(e);
        },
    };
    let v2 = match cpu.reg_read(r2) {
        Ok(v) => v,
        Err(e) => {
            return Err(e);
        },
    };
    let res = match apply_binop(op, v1, v2) {
        Ok(v) => v,
        Err(e) => {
            return Err(e);
        },
    };
    cpu.set_reg(ACC, res);
    cpu.update_sr(v1, res);
    Ok(())
}

fn arith_step<D: Device>(cpu: &mut CPU<D>, op: BinOp) -> (r: Result<(), Fault>)
    requires
        old(cpu).wf(),
    ensures
        final (cpu).wf(),
        obeys(final (cpu)@, r, arith_step_spec::<D>(old(cpu)@, op)),
{
    let raddr = match cpu.fetch_word() {
        Ok(v) => v,
        Err(e) => {
            return Err(e);
        },
    };
    let pre = match cpu.reg_read(raddr) {
        Ok(v) => v,
        Err(e) => {
            return Err(e);
        },
    };
    let post = match apply_binop(op, pre, 1) {
        Ok(v) => v,
        Err(e) => {
            return Err(e);
        },
    };
    cpu.set_reg(raddr, post);
    cpu.update_sr(pre, post);
    Ok(())
}

/// ## ADD 0x4, r1
/// `acc <- 0x4 + [r1]`, wrapping.
pub fn ADD<D: Device>(cpu: &mut CPU<D>) -> (r: Result<(), Fault>)
    requires
        old(cpu).wf(),
    ensures
        final (cpu).wf(),
        obeys(final (cpu)@, r, arith_wr_spec::<D>(old(cpu)@, BinOp::Add)),
{
    arith_wr(cpu, BinOp::Add)
}

/// ## ADDR r1, r2
/// `acc <- [r1] + [r2]`, wrapping.
pub fn ADDR<D: Device>(cpu: &mut CPU<D>) -> (r: Result<(), Fault>)
    requires
        old(cpu).wf(),
    ensures
        final (cpu).wf(),
        obeys(final (cpu)@, r, arith_rr_spec::<D>(old(cpu)@, BinOp::Add)),
{
    arith_rr(cpu, BinOp::Add)
}

/// ## SUB 0x4, r1
/// `acc <- 0x4 - [r1]`, wrapping.
pub fn SUB<D: Device>(cpu: &mut CPU<D>) -> (r: Result<(), Fault>)
    requires
        old(cpu).wf(),
    ensures
        final (cpu).wf(),
        obeys(final (cpu)@, r, arith_wr_spec::<D>(old(cpu)@, BinOp::Sub)),
{
    arith_wr(cpu, BinOp::Sub)
}

/// ## SUBWR r1, 0x4
/// `acc <- [r1] - 0x4`, wrapping.
pub fn SUBWR<D: Device>(cpu: &mut CPU<D>) -> (r: Result<(), Fault>)
    requires
        old(cpu).wf(),
    ensures
        final (cpu).wf(),
        obeys(final (cpu)@, r, arith_rw_spec::<D>(old(cpu)@, BinOp::Sub)),
{
    arith_rw(cpu, BinOp::Sub)
}

/// ## SUBR r1, r2
/// `acc <- [r1] - [r2]`, wrapping.
pub fn SUBR<D: Device>(cpu: &mut CPU<D>) -> (r: Result<(), Fault>)
    requires
        old(cpu).wf(),
    ensures
        final (cpu).wf(),
        obeys(final (cpu)@, r, arith_rr_spec::<D>(old(cpu)@, BinOp::Sub)),
{
    arith_rr(cpu, BinOp::Sub)
}

/// ## MULT 0x4, r1
/// `acc <- 0x4 * [r1]`, wrapping.
pub fn MULT<D: Device>(cpu: &mut CPU<D>) -> (r: Result<(), Fault>)
    requires
        old(cpu).wf(),
    ensures
        final (cpu).wf(),
        obeys(final (cpu)@, r, arith_wr_spec::<D>(old(cpu)@, BinOp::Mult)),
{
    arith_wr(cpu, BinOp::Mult)
}

/// ## MULTR r1, r2
/// `acc <- [r1] * [r2]`, wrapping.
pub fn MULTR<D: Device>(cpu: &mut CPU<D>) -> (r: Result<(), Fault>)
    requires
        old(cpu).wf(),
    ensures
        final (cpu).wf(),
        obeys(final (cpu)@, r, arith_rr_spec::<D>(old(cpu)@, BinOp::Mult)),
{
    arith_rr(cpu, BinOp::Mult)
}

/// ## DIV 0x4, r1
/// `acc <- 0x4 / [r1]`; dividing by zero is an arithmetic fault.
pub fn DIV<D: Device>(cpu: &mut CPU<D>) -> (r: Result<(), Fault>)
    requires
        old(cpu).wf(),
    ensures
        final (cpu).wf(),
        obeys(final (cpu)@, r, arith_wr_spec::<D>(old(cpu)@, BinOp::Div)),
{
    arith_wr(cpu, BinOp::Div)
}

/// ## DIVWR r1, 0x4
/// `acc <- [r1] / 0x4`; dividing by zero is an arithmetic fault.
pub fn DIVWR<D: Device>(cpu: &mut CPU<D>) -> (r: Result<(), Fault>)
    requires
        old(cpu).wf(),
    ensures
        final (cpu).wf(),
        obeys(final (cpu)@, r, arith_rw_spec::<D>(old(cpu)@, BinOp::Div)),
{
    arith_rw(cpu, BinOp::Div)
}

/// ## DIVR r1, r2
/// `acc <- [r1] / [r2]`; dividing by zero is an arithmetic fault.
pub fn DIVR<D: Device>(cpu: &mut CPU<D>) -> (r: Result<(), Fault>)
    requires
        old(cpu).wf(),
    ensures
        final (cpu).wf(),
        obeys(final (cpu)@, r, arith_rr_spec::<D>(old(cpu)@, BinOp::Div)),
{
    arith_rr(cpu, BinOp::Div)
}

/// ## INC r1
/// `[r1] <- [r1] + 1`, wrapping.
pub fn INC<D: Device>(cpu: &mut CPU<D>) -> (r: Result<(), Fault>)
    requires
        old(cpu).wf(),
    ensures
        final (cpu).wf(),
        obeys(final (cpu)@, r, arith_step_spec::<D>(old(cpu)@, BinOp::Add)),
{
    arith_step(cpu, BinOp::Add)
}

/// ## DEC r1
/// `[r1] <- [r1] - 1`, wrapping.
pub fn DEC<D: Device>(cpu: &mut CPU<D>) -> (r: Result<(), Fault>)
    requires
        old(cpu).wf(),
    ensures
        final (cpu).wf(),
        obeys(final (cpu)@, r, arith_step_spec::<D>(old(cpu)@, BinOp::Sub)),
{
    arith_step(cpu, BinOp::Sub)
}

} // verus!
