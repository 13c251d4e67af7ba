//! The device interface.
//!
//! A device is anything the memory mapper can dispatch to: a RAM block, a
//! memory-mapped peripheral, and so on. A device exposes exactly the byte
//! and word accessors of a memory, and may reject addresses with a fault,
//! but must never silently truncate an access.
//!
//! A device's behaviour is specified against its abstract model (its
//! `View`): the four `*_m` spec functions say what each accessor reads or
//! how it transforms the model, and the executable accessors are bound to
//! them. This keeps the CPU's own contracts exact for any device.

use vstd::prelude::*;

use crate::fault::Fault;

verus! {

/// A memory-mapped capability with byte and word accessors.
pub trait Device: View + Sized {
    /// Well-formedness of the device; established at construction and
    /// preserved by every accessor.
    spec fn inv(&self) -> bool;

    /// What reading a byte at `addr` returns on model `m`.
    spec fn read_byte_m(m: Self::V, addr: u32) -> Result<u8, Fault>;

    /// What reading a word at `addr` returns on model `m`.
    spec fn read_word_m(m: Self::V, addr: u32) -> Result<u32, Fault>;

    /// How writing byte `v` at `addr` transforms model `m`.
    spec fn write_byte_m(m: Self::V, addr: u32, v: u8) -> Result<Self::V, Fault>;

    /// How writing word `w` at `addr` transforms model `m`.
    spec fn write_word_m(m: Self::V, addr: u32, w: u32) -> Result<Self::V, Fault>;

    /// The byte at `addr`.
    fn get_byte(&self, addr: u32) -> (r: Result<u8, Fault>)
        requires
            self.inv(),
        ensures
            r == Self::read_byte_m(self@, addr),
    ;

    /// The word at `addr`.
    fn get_word(&self, addr: u32) -> (r: Result<u32, Fault>)
        requires
            self.inv(),
        ensures
            r == Self::read_word_m(self@, addr),
    ;

    /// Stores byte `v` at `addr`; on a fault the device is unchanged.
    fn set_byte(&mut self, addr: u32, v: u8) -> (r: Result<(), Fault>)
        requires
            old(self).inv(),
        ensures
            final (self).inv(),
            match Self::write_byte_m(old(self)@, addr, v) {
                Ok(m2) => r is Ok && final (self)@ == m2,
                Err(e) => r == Err::<(), Fault>(e) && final (self)@ == old(self)@,
            },
    ;

    /// Stores word `w` at `addr`; on a fault the device is unchanged.
    fn set_word(&mut self, addr: u32, w: u32) -> (r: Result<(), Fault>)
        requires
            old(self).inv(),
        ensures
            final (self).inv(),
            match Self::write_word_m(old(self)@, addr, w) {
                Ok(m2) => r is Ok && final (self)@ == m2,
                Err(e) => r == Err::<(), Fault>(e) && final (self)@ == old(self)@,
            },
    ;
}

} // verus!
