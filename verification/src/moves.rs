//! Move, load/store and stack-transfer instructions.
//!
//! The word-sized move family transfers whole words between literals,
//! registers and mapped memory; the load/store family is its
//! byte-granular counterpart, with an 8-bit literal and single-byte
//! memory traffic; `PUSH`/`PUSHR`/`POP` transfer words over the stack.

#![allow(non_snake_case)]

use vstd::prelude::*;

use crate::cpu::{
    fetch_byte_spec, fetch_word_spec, obeys, pop_spec, push_spec, reg_read_spec, reg_write_spec,
    MachineState, CPU,
};
use crate::device::Device;
use crate::fault::Fault;
use crate::mapper::{mapper_read_byte, mapper_read_word, mapper_write_byte, mapper_write_word};

verus! {

/// `MOVR W, R`: `[R] <- W`.
pub open spec fn movr_spec<D: Device>(s: MachineState<D::V>) -> Result<MachineState<D::V>, Fault> {
    match fetch_word_spec::<D>(s) {
        Err(e) => Err(e),
        Ok((s1, w)) => match fetch_word_spec::<D>(s1) {
            Err(e) => Err(e),
            Ok((s2, raddr)) => reg_write_spec(s2, raddr, w),
        },
    }
}

/// ## MOVR 0x4, r1
/// Move the literal 0x4 into register r1.
pub fn MOVR<D: Device>(cpu: &mut CPU<D>) -> (r: Result<(), Fault>)
    requires
        old(cpu).wf(),
    ensures
        final (cpu).wf(),
        obeys(final (cpu)@, r, movr_spec::<D>(old(cpu)@)),
{
    let w = match cpu.fetch_word() {
        Ok(v) => v,
        Err(e) => {
            return Err(e);
        },
    };
    let raddr = match cpu.fetch_word() {
        Ok(v) => v,
        Err(e) => {
            return Err(e);
        },
    };
    cpu.reg_write(raddr, w)
}

/// `MOVM W, A`: `mem[A] <- W`.
pub open spec fn movm_spec<D: Device>(s: MachineState<D::V>) -> Result<MachineState<D::V>, Fault> {
    match fetch_word_spec::<D>(s) {
        Err(e) => Err(e),
        Ok((s1, w)) => match fetch_word_spec::<D>(s1) {
            Err(e) => Err(e),
            Ok((s2, addr)) => match mapper_write_word::<D>(s2.regions, addr, w) {
                Err(e) => Err(e),
                Ok(rs2) => Ok(MachineState { regions: rs2, ..s2 }),
            },
        },
    }
}

/// ## MOVM 0x4, 0xAF
/// Move the literal 0x4 into memory at address 0xAF.
pub fn MOVM<D: Device>(cpu: &mut CPU<D>) -> (r: Result<(), Fault>)
    requires
        old(cpu).wf(),
    ensures
        final (cpu).wf(),
        obeys(final (cpu)@, r, movm_spec::<D>(old(cpu)@)),
{
    let w = match cpu.fetch_word() {
        Ok(v) => v,
        Err(e) => {
            return Err(e);
        },
    };
    let addr = match cpu.fetch_word() {
        Ok(v) => v,
        Err(e) => {
            return Err(e);
        },
    };
    cpu.mem_write_word(addr, w)
}

/// `MOVRR R1, R2`: `[R2] <- [R1]`.
pub open spec fn movrr_spec<D: Device>(s: MachineState<D::V>) -> Result<MachineState<D::V>, Fault> {
    match fetch_word_spec::<D>(s) {
        Err(e) => Err(e),
        Ok((s1, r1)) => match fetch_word_spec::<D>(s1) {
            Err(e) => Err(e),
            Ok((s2, r2)) => match reg_read_spec(s2, r1) {
                Err(e) => Err(e),
                Ok(v) => reg_write_spec(s2, r2, v),
            },
        },
    }
}

/// ## MOVRR r1, r2
/// Move the value of register r1 into register r2.
pub fn MOVRR<D: Device>(cpu: &mut CPU<D>) -> (r: Result<(), Fault>)
    requires
        old(cpu).wf(),
    ensures
        final (cpu).wf(),
        obeys(final (cpu)@, r, movrr_spec::<D>(old(cpu)@)),
{
    let r1 = match cpu.fetch_word() {
        Ok(v) => v,
        Err(e) => {
            return Err(e);
        },
    };
    let r2 = match cpu.fetch_word() {
        Ok(v) => v,
        Err(e) => {
            return Err(e);
        },
    };
    let v = match cpu.reg_read(r1) {
        Ok(v) => v,
        Err(e) => {
            return Err(e);
        },
    };
    cpu.reg_write(r2, v)
}

/// `MOVRM R, A`: `mem[A] <- [R]`.
pub open spec fn movrm_spec<D: Device>(s: MachineState<D::V>) -> Result<MachineState<D::V>, Fault> {
    match fetch_word_spec::<D>(s) {
        Err(e) => Err(e),
        Ok((s1, raddr)) => match fetch_word_spec::<D>(s1) {
            Err(e) => Err(e),
            Ok((s2, addr)) => match reg_read_spec(s2, raddr) {
                Err(e) => Err(e),
                Ok(v) => match mapper_write_word::<D>(s2.regions, addr, v) {
                    Err(e) => Err(e),
                    Ok(rs2) => Ok(MachineState { regions: rs2, ..s2 }),
                },
            },
        },
    }
}

/// ## MOVRM r1, 0xAF
/// Move the value of register r1 into memory at address 0xAF.
pub fn MOVRM<D: Device>(cpu: &mut CPU<D>) -> (r: Result<(), Fault>)
    requires
        old(cpu).wf(),
    ensures
        final (cpu).wf(),
        obeys(final (cpu)@, r, movrm_spec::<D>(old(cpu)@)),
{
    let raddr = match cpu.fetch_word() {
        Ok(v) => v,
        Err(e) => {
            return Err(e);
        },
    };
    let addr = match cpu.fetch_word() {
        Ok(v) => v,
        Err(e) => {
            return Err(e);
        },
    };
    let v = match cpu.reg_read(raddr) {
        Ok(v) => v,
        Err(e) => {
            return Err(e);
        },
    };
    cpu.mem_write_word(addr, v)
}

/// `MOVMR A, R`: `[R] <- mem[A]`.
pub open spec fn movmr_spec<D: Device>(s: MachineState<D::V>) -> Result<MachineState<D::V>, Fault> {
    match fetch_word_spec::<D>(s) {
        Err(e) => Err(e),
        Ok((s1, addr)) => match fetch_word_spec::<D>(s1) {
            Err(e) => Err(e),
            Ok((s2, raddr)) => match mapper_read_word::<D>(s2.regions, addr) {
                Err(e) => Err(e),
                Ok(v) => reg_write_spec(s2, raddr, v),
            },
        },
    }
}

/// ## MOVMR 0xAF, r1
/// Move the memory word at address 0xAF into register r1.
pub fn MOVMR<D: Device>(cpu: &mut CPU<D>) -> (r: Result<(), Fault>)
    requires
        old(cpu).wf(),
    ensures
        final (cpu).wf(),
        obeys(final (cpu)@, r, movmr_spec::<D>(old(cpu)@)),
{
    let addr = match cpu.fetch_word() {
        Ok(v) => v,
        Err(e) => {
            return Err(e);
        },
    };
    let raddr = match cpu.fetch_word() {
        Ok(v) => v,
        Err(e) => {
            return Err(e);
        },
    };
    let v = match cpu.mem_read_word(addr) {
        Ok(v) => v,
        Err(e) => {
            return Err(e);
        },
    };
    cpu.reg_write(raddr, v)
}

/// `MOVRPR R1, R2`: `[R2] <- mem[[R1]]` (pointer read).
pub open spec fn movrpr_spec<D: Device>(s: MachineState<D::V>) -> Result<
    MachineState<D::V>,
    Fault,
> {
    match fetch_word_spec::<D>(s) {
        Err(e) => Err(e),
        Ok((s1, r1)) => match fetch_word_spec::<D>(s1) {
            Err(e) => Err(e),
            Ok((s2, r2)) => match reg_read_spec(s2, r1) {
                Err(e) => Err(e),
                Ok(p) => match mapper_read_word::<D>(s2.regions, p) {
                    Err(e) => Err(e),
                    Ok(v) => reg_write_spec(s2, r2, v),
                },
            },
        },
    }
}

/// ## MOVRPR r1, r2
/// Move the memory word whose address is in register r1 into register r2.
pub fn MOVRPR<D: Device>(cpu: &mut CPU<D>) -> (r: Result<(), Fault>)
    requires
        old(cpu).wf(),
    ensures
        final (cpu).wf(),
        obeys(final (cpu)@, r, movrpr_spec::<D>(old(cpu)@)),
{
    let r1 = match cpu.fetch_word() {
        Ok(v) => v,
        Err(e) => {
            return Err(e);
        },
    };
    let r2 = match cpu.fetch_word() {
        Ok(v) => v,
        Err(e) => {
            return Err(e);
        },
    };
    let p = match cpu.reg_read(r1) {
        Ok(v) => v,
        Err(e) => {
            return Err(e);
        },
    };
    let v = match cpu.mem_read_word(p) {
        Ok(v) => v,
        Err(e) => {
            return Err(e);
        },
    };
    cpu.reg_write(r2, v)
}

/// `MOVROR R1, W, R2`: `[R2] <- mem[[R1] + W]` (indexed read, wrapping).
pub open spec fn movror_spec<D: Device>(s: MachineState<D::V>) -> Result<
    MachineState<D::V>,
    Fault,
> {
    match fetch_word_spec::<D>(s) {
        Err(e) => Err(e),
        Ok((s1, r1)) => match fetch_word_spec::<D>(s1) {
            Err(e) => Err(e),
            Ok((s2, w)) => match fetch_word_spec::<D>(s2) {
                Err(e) => Err(e),
                Ok((s3, r2)) => match reg_read_spec(s3, r1) {
                    Err(e) => Err(e),
                    Ok(p) => match mapper_read_word::<D>(
                        s3.regions,
                        vstd::wrapping::u32_specs::wrapping_add(p, w),
                    ) {
                        Err(e) => Err(e),
                        Ok(v) => reg_write_spec(s3, r2, v),
                    },
                },
            },
        },
    }
}

/// ## MOVROR r1, 0x4, r2
/// Move the memory word at the address in register r1 offset by 0x4 into
/// register r2.
pub fn MOVROR<D: Device>(cpu: &mut CPU<D>) -> (r: Result<(), Fault>)
    requires
        old(cpu).wf(),
    ensures
        final (cpu).wf(),
        obeys(final (cpu)@, r, movror_spec::<D>(old(cpu)@)),
{
    let r1 = match cpu.fetch_word() {
        Ok(v) => v,
        Err(e) => {
            return Err(e);
        },
    };
    let w = match cpu.fetch_word() {
        Ok(v) => v,
        Err(e) => {
            return Err(e);
        },
    };
    let r2 = match cpu.fetch_word() {
        Ok(v) => v,
        Err(e) => {
            return Err(e);
        },
    };
    let p = match cpu.reg_read(r1) {
        Ok(v) => v,
        Err(e) => {
            return Err(e);
        },
    };
    let v = match cpu.mem_read_word(p.wrapping_add(w)) {
        Ok(v) => v,
        Err(e) => {
            return Err(e);
        },
    };
    cpu.reg_write(r2, v)
}

/// `PUSH W`: push the literal.
pub open spec fn push_instr_spec<D: Device>(s: MachineState<D::V>) -> Result<
    MachineState<D::V>,
    Fault,
> {
    match fetch_word_spec::<D>(s) {
        Err(e) => Err(e),
        Ok((s1, w)) => push_spec::<D>(s1, w),
    }
}

/// ## PUSH 0x4
/// Push the literal 0x4 onto the stack.
pub fn PUSH<D: Device>(cpu: &mut CPU<D>) -> (r: Result<(), Fault>)
    requires
        old(cpu).wf(),
    ensures
        final (cpu).wf(),
        obeys(final (cpu)@, r, push_instr_spec::<D>(old(cpu)@)),
{
    let w = match cpu.fetch_word() {
        Ok(v) => v,
        Err(e) => {
            return Err(e);
        },
    };
    cpu.push(w)
}

/// `PUSHR R`: push the register's value.
pub open spec fn pushr_spec<D: Device>(s: MachineState<D::V>) -> Result<MachineState<D::V>, Fault> {
    match fetch_word_spec::<D>(s) {
        Err(e) => Err(e),
        Ok((s1, raddr)) => match reg_read_spec(s1, raddr) {
            Err(e) => Err(e),
            Ok(v) => push_spec::<D>(s1, v),
        },
    }
}

/// ## PUSHR r1
/// Push the value of register r1 onto the stack.
pub fn PUSHR<D: Device>(cpu: &mut CPU<D>) -> (r: Result<(), Fault>)
    requires
        old(cpu).wf(),
    ensures
        final (cpu).wf(),
        obeys(final (cpu)@, r, pushr_spec::<D>(old(cpu)@)),
{
    let raddr = match cpu.fetch_word() {
        Ok(v) => v,
        Err(e) => {
            return Err(e);
        },
    };
    let v = match cpu.reg_read(raddr) {
        Ok(v) => v,
        Err(e) => {
            return Err(e);
        },
    };
    cpu.push(v)
}

/// `POP R`: `[R] <- pop`.
pub open spec fn pop_instr_spec<D: Device>(s: MachineState<D::V>) -> Result<
    MachineState<D::V>,
    Fault,
> {
    match fetch_word_spec::<D>(s) {
        Err(e) => Err(e),
        Ok((s1, raddr)) => match pop_spec::<D>(s1) {
            Err(e) => Err(e),
            Ok((s2, v)) => reg_write_spec(s2, raddr, v),
        },
    }
}

/// ## POP r1
/// Pop the top of the stack into register r1.
pub fn POP<D: Device>(cpu: &mut CPU<D>) -> (r: Result<(), Fault>)
    requires
        old(cpu).wf(),
    ensures
        final (cpu).wf(),
        obeys(final (cpu)@, r, pop_instr_spec::<D>(old(cpu)@)),
{
    let raddr = match cpu.fetch_word() {
        Ok(v) => v,
        Err(e) => {
            return Err(e);
        },
    };
    let v = match cpu.pop() {
        Ok(v) => v,
        Err(e) => {
            return Err(e);
        },
    };
    cpu.reg_write(raddr, v)
}

/// `LOAD b, R`: `[R] <- b`, an 8-bit literal widened to a word.
pub open spec fn load_spec<D: Device>(s: MachineState<D::V>) -> Result<MachineState<D::V>, Fault> {
    match fetch_byte_spec::<D>(s) {
        Err(e) => Err(e),
        Ok((s1, b)) => match fetch_word_spec::<D>(s1) {
            Err(e) => Err(e),
            Ok((s2, raddr)) => reg_write_spec(s2, raddr, b as u32),
        },
    }
}

/// ## LOAD 0x4, r1
/// Load the byte literal 0x4 into register r1.
pub fn LOAD<D: Device>(cpu: &mut CPU<D>) -> (r: Result<(), Fault>)
    requires
        old(cpu).wf(),
    ensures
        final (cpu).wf(),
        obeys(final (cpu)@, r, load_spec::<D>(old(cpu)@)),
{
    let b = match cpu.fetch_byte() {
        Ok(v) => v,
        Err(e) => {
            return Err(e);
        },
    };
    let raddr = match cpu.fetch_word() {
        Ok(v) => v,
        Err(e) => {
            return Err(e);
        },
    };
    cpu.reg_write(raddr, b as u32)
}

/// `LOADR R1, R2`: `[R2] <- mem byte at [R1]` (byte pointer read).
pub open spec fn loadr_spec<D: Device>(s: MachineState<D::V>) -> Result<MachineState<D::V>, Fault> {
    match fetch_word_spec::<D>(s) {
        Err(e) => Err(e),
        Ok((s1, r1)) => match fetch_word_spec::<D>(s1) {
            Err(e) => Err(e),
            Ok((s2, r2)) => match reg_read_spec(s2, r1) {
                Err(e) => Err(e),
                Ok(p) => match mapper_read_byte::<D>(s2.regions, p) {
                    Err(e) => Err(e),
                    Ok(b) => reg_write_spec(s2, r2, b as u32),
                },
            },
        },
    }
}

/// ## LOADR r1, r2
/// Load the memory byte whose address is in register r1 into register r2.
pub fn LOADR<D: Device>(cpu: &mut CPU<D>) -> (r: Result<(), Fault>)
    requires
        old(cpu).wf(),
    ensures
        final (cpu).wf(),
        obeys(final (cpu)@, r, loadr_spec::<D>(old(cpu)@)),
{
    let r1 = match cpu.fetch_word() {
        Ok(v) => v,
        Err(e) => {
            return Err(e);
        },
    };
    let r2 = match cpu.fetch_word() {
        Ok(v) => v,
        Err(e) => {
            return Err(e);
        },
    };
    let p = match cpu.reg_read(r1) {
        Ok(v) => v,
        Err(e) => {
            return Err(e);
        },
    };
    let b = match cpu.mem_read_byte(p) {
        Ok(v) => v,
        Err(e) => {
            return Err(e);
        },
    };
    cpu.reg_write(r2, b as u32)
}

/// `LOADM A, R`: `[R] <- mem byte at A`.
pub open spec fn loadm_spec<D: Device>(s: MachineState<D::V>) -> Result<MachineState<D::V>, Fault> {
    match fetch_word_spec::<D>(s) {
        Err(e) => Err(e),
        Ok((s1, addr)) => match fetch_word_spec::<D>(s1) {
            Err(e) => Err(e),
            Ok((s2, raddr)) => match mapper_read_byte::<D>(s2.regions, addr) {
                Err(e) => Err(e),
                Ok(b) => reg_write_spec(s2, raddr, b as u32),
            },
        },
    }
}

/// ## LOADM 0xAF, r1
/// Load the memory byte at address 0xAF into register r1.
pub fn LOADM<D: Device>(cpu: &mut CPU<D>) -> (r: Result<(), Fault>)
    requires
        old(cpu).wf(),
    ensures
        final (cpu).wf(),
        obeys(final (cpu)@, r, loadm_spec::<D>(old(cpu)@)),
{
    let addr = match cpu.fetch_word() {
        Ok(v) => v,
        Err(e) => {
            return Err(e);
        },
    };
    let raddr = match cpu.fetch_word() {
        Ok(v) => v,
        Err(e) => {
            return Err(e);
        },
    };
    let b = match cpu.mem_read_byte(addr) {
        Ok(v) => v,
        Err(e) => {
            return Err(e);
        },
    };
    cpu.reg_write(raddr, b as u32)
}

/// `STORE b, A`: `mem byte at A <- b`, an 8-bit literal.
pub open spec fn store_spec<D: Device>(s: MachineState<D::V>) -> Result<MachineState<D::V>, Fault> {
    match fetch_byte_spec::<D>(s) {
        Err(e) => Err(e),
        Ok((s1, b)) => match fetch_word_spec::<D>(s1) {
            Err(e) => Err(e),
            Ok((s2, addr)) => match mapper_write_byte::<D>(s2.regions, addr, b) {
                Err(e) => Err(e),
                Ok(rs2) => Ok(MachineState { regions: rs2, ..s2 }),
            },
        },
    }
}

/// ## STORE 0x4, 0xAF
/// Store the byte literal 0x4 into memory at address 0xAF.
pub fn STORE<D: Device>(cpu: &mut CPU<D>) -> (r: Result<(), Fault>)
    requires
        old(cpu).wf(),
    ensures
        final (cpu).wf(),
        obeys(final (cpu)@, r, store_spec::<D>(old(cpu)@)),
{
    let b = match cpu.fetch_byte() {
        Ok(v) => v,
        Err(e) => {
            return Err(e);
        },
    };
    let addr = match cpu.fetch_word() {
        Ok(v) => v,
        Err(e) => {
            return Err(e);
        },
    };
    cpu.mem_write_byte(addr, b)
}

/// `STORER R, A`: `mem byte at A <- low byte of [R]`.
pub open spec fn storer_spec<D: Device>(s: MachineState<D::V>) -> Result<
    MachineState<D::V>,
    Fault,
> {
    match fetch_word_spec::<D>(s) {
        Err(e) => Err(e),
        Ok((s1, raddr)) => match fetch_word_spec::<D>(s1) {
            Err(e) => Err(e),
            Ok((s2, addr)) => match reg_read_spec(s2, raddr) {
                Err(e) => Err(e),
                Ok(v) => match mapper_write_byte::<D>(s2.regions, addr, v as u8) {
                    Err(e) => Err(e),
                    Ok(rs2) => Ok(MachineState { regions: rs2, ..s2 }),
                },
            },
        },
    }
}

/// ## STORER r1, 0xAF
/// Store the low byte of register r1 into memory at address 0xAF.
pub fn STORER<D: Device>(cpu: &mut CPU<D>) -> (r: Result<(), Fault>)
    requires
        old(cpu).wf(),
    ensures
        final (cpu).wf(),
        obeys(final (cpu)@, r, storer_spec::<D>(old(cpu)@)),
{
    let raddr = match cpu.fetch_word() {
        Ok(v) => v,
        Err(e) => {
            return Err(e);
        },
    };
    let addr = match cpu.fetch_word() {
        Ok(v) => v,
        Err(e) => {
            return Err(e);
        },
    };
    let v = match cpu.reg_read(raddr) {
        Ok(v) => v,
        Err(e) => {
            return Err(e);
        },
    };
    cpu.mem_write_byte(addr, #[verifier::truncate] (v as u8))
}

/// `STOREM A1, A2`: `mem byte at A2 <- mem byte at A1`.
pub open spec fn storem_spec<D: Device>(s: MachineState<D::V>) -> Result<
    MachineState<D::V>,
    Fault,
> {
    match fetch_word_spec::<D>(s) {
        Err(e) => Err(e),
        Ok((s1, a1)) => match fetch_word_spec::<D>(s1) {
            Err(e) => Err(e),
            Ok((s2, a2)) => match mapper_read_byte::<D>(s2.regions, a1) {
                Err(e) => Err(e),
                Ok(b) => match mapper_write_byte::<D>(s2.regions, a2, b) {
                    Err(e) => Err(e),
                    Ok(rs2) => Ok(MachineState { regions: rs2, ..s2 }),
                },
            },
        },
    }
}

/// ## STOREM 0xAF, 0xFA
/// Copy the memory byte at address 0xAF to address 0xFA.
pub fn STOREM<D: Device>(cpu: &mut CPU<D>) -> (r: Result<(), Fault>)
    requires
        old(cpu).wf(),
    ensures
        final (cpu).wf(),
        obeys(final (cpu)@, r, storem_spec::<D>(old(cpu)@)),
{
    let a1 = match cpu.fetch_word() {
        Ok(v) => v,
        Err(e) => {
            return Err(e);
        },
    };
    let a2 = match cpu.fetch_word() {
        Ok(v) => v,
        Err(e) => {
            return Err(e);
        },
    };
    let b = match cpu.mem_read_byte(a1) {
        Ok(v) => v,
        Err(e) => {
            return Err(e);
        },
    };
    cpu.mem_write_byte(a2, b)
}

} // verus!
