//! Jump and subroutine instructions.
//!
//! `CALL`/`CALLR` save the caller's state on the stack with `push_state`
//! before redirecting `pc`; `RET` undoes the frame with `pop_state`. The
//! calling convention expects the caller to push its arguments and then
//! the argument count before the call.

#![allow(non_snake_case)]

use vstd::prelude::*;

use crate::cpu::{
    fetch_word_spec, obeys, pop_state_spec, push_state_spec, reg_read_spec, with_reg, MachineState,
    CPU, PC,
};
use crate::device::Device;
use crate::fault::Fault;

verus! {

/// `JMP A`: `pc <- A`.
pub open spec fn jmp_spec<D: Device>(s: MachineState<D::V>) -> Result<MachineState<D::V>, Fault> {
    match fetch_word_spec::<D>(s) {
        Err(e) => Err(e),
        Ok((s1, addr)) => Ok(with_reg(s1, PC, addr)),
    }
}

/// ## JMP 0xAF
/// Continue execution at address 0xAF.
pub fn JMP<D: Device>(cpu: &mut CPU<D>) -> (r: Result<(), Fault>)
    requires
        old(cpu).wf(),
    ensures
        final (cpu).wf(),
        obeys(final (cpu)@, r, jmp_spec::<D>(old(cpu)@)),
{
    let addr = match cpu.fetch_word() {
        Ok(v) => v,
        Err(e) => {
            return Err(e);
        },
    };
    cpu.set_reg(PC, addr);
    Ok(())
}

/// `CALL A`: save the caller's state, then `pc <- A`.
pub open spec fn call_spec<D: Device>(s: MachineState<D::V>) -> Result<MachineState<D::V>, Fault> {
    match fetch_word_spec::<D>(s) {
        Err(e) => Err(e),
        Ok((s1, addr)) => match push_state_spec::<D>(s1) {
            Err(e) => Err(e),
            Ok(s2) => Ok(with_reg(s2, PC, addr)),
        },
    }
}

/// ## CALL 0xAF
/// Call the subroutine at address 0xAF.
pub fn CALL<D: Device>(cpu: &mut CPU<D>) -> (r: Result<(), Fault>)
    requires
        old(cpu).wf(),
    ensures
        final (cpu).wf(),
        obeys(final (cpu)@, r, call_spec::<D>(old(cpu)@)),
{
    let addr = match cpu.fetch_word() {
        Ok(v) => v,
        Err(e) => {
            return Err(e);
        },
    };
    match cpu.push_state() {
        Ok(_u) => {},
        Err(e) => {
            return Err(e);
        },
    }
    cpu.set_reg(PC, addr);
    Ok(())
}

/// `CALLR R`: save the caller's state, then `pc <- [R]`.
pub open spec fn callr_spec<D: Device>(s: MachineState<D::V>) -> Result<MachineState<D::V>, Fault> {
    match fetch_word_spec::<D>(s) {
        Err(e) => Err(e),
        Ok((s1, raddr)) => match reg_read_spec(s1, raddr) {
            Err(e) => Err(e),
            Ok(addr) => match push_state_spec::<D>(s1) {
                Err(e) => Err(e),
                Ok(s2) => Ok(with_reg(s2, PC, addr)),
            },
        },
    }
}

/// ## CALLR r1
/// Call the subroutine whose address is in register r1.
pub fn CALLR<D: Device>(cpu: &mut CPU<D>) -> (r: Result<(), Fault>)
    requires
        old(cpu).wf(),
    ensures
        final (cpu).wf(),
        obeys(final (cpu)@, r, callr_spec::<D>(old(cpu)@)),
{
    let raddr = match cpu.fetch_word() {
        Ok(v) => v,
        Err(e) => {
            return Err(e);
        },
    };
    let addr = match cpu.reg_read(raddr) {
        Ok(v) => v,
        Err(e) => {
            return Err(e);
        },
    };
    match cpu.push_state() {
        Ok(_u) => {},
        Err(e) => {
            return Err(e);
        },
    }
    cpu.set_reg(PC, addr);
    Ok(())
}

/// ## RET
/// Return from the current subroutine, restoring the caller's frame.
pub fn RET<D: Device>(cpu: &mut CPU<D>) -> (r: Result<(), Fault>)
    requires
        old(cpu).wf(),
    ensures
        final (cpu).wf(),
        obeys(final (cpu)@, r, pop_state_spec::<D>(old(cpu)@)),
{
    cpu.pop_state()
}

} // verus!
