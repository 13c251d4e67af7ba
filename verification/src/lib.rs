//! A small 32-bit virtual machine and a text parser-combinator library.
//!
//! The machine side models a stack-based register machine: a flat byte
//! `Memory` with big-endian words, a `MemoryMapper` that dispatches address
//! ranges to pluggable devices, and a `CPU` that fetches, decodes and
//! executes instructions until it halts or faults.
//!
//! The parser side offers combinators (`string`, `regex`, `sequence`,
//! `any`, `map`, `many`, ...) over a `Context` cursor into a text.

use vstd::prelude::*;

pub mod arith;
pub mod bitwise;
pub mod branch;
pub mod cpu;
pub mod device;
pub mod fault;
pub mod laws;
pub mod mapper;
pub mod memory;
pub mod moves;
pub mod parser;
pub mod subroutine;

verus! {

/// Machine word: unsigned 32-bit, big-endian in memory.
pub type Word = u32;

/// Machine byte.
pub type Byte = u8;

} // verus!
