//! Flat byte memory with big-endian 32-bit words.
//!
//! A `Memory` is an owned byte buffer of fixed size. Every access is
//! bounds-checked: an out-of-range byte or word access is a `MemoryFault`.
//! Words occupy four consecutive bytes, high byte at the lower address.

use vstd::prelude::*;

use crate::device::Device;
use crate::fault::Fault;

verus! {

/// The word whose big-endian bytes are `b0 b1 b2 b3` (`b0` most significant).
pub open spec fn word_from_bytes(b0: u8, b1: u8, b2: u8, b3: u8) -> u32 {
    ((b0 as u32) << 24) | ((b1 as u32) << 16) | ((b2 as u32) << 8) | (b3 as u32)
}

/// Most significant byte of `w`.
pub open spec fn word_byte0(w: u32) -> u8 {
    (w >> 24) as u8
}

/// Second byte of `w`.
pub open spec fn word_byte1(w: u32) -> u8 {
    (w >> 16) as u8
}

/// Third byte of `w`.
pub open spec fn word_byte2(w: u32) -> u8 {
    (w >> 8) as u8
}

/// Least significant byte of `w`.
pub open spec fn word_byte3(w: u32) -> u8 {
    w as u8
}

/// The big-endian word stored at offset `a` of buffer `s`.
pub open spec fn word_at(s: Seq<u8>, a: int) -> u32 {
    word_from_bytes(s[a], s[a + 1], s[a + 2], s[a + 3])
}

/// Buffer `s` with the big-endian bytes of `w` stored at offset `a`.
pub open spec fn store_word_at(s: Seq<u8>, a: int, w: u32) -> Seq<u8> {
    s.update(a, word_byte0(w)).update(a + 1, word_byte1(w)).update(a + 2, word_byte2(w)).update(
        a + 3,
        word_byte3(w),
    )
}

/// Reassembling the four bytes of a word gives the word back.
pub proof fn lemma_word_bytes_round_trip(w: u32)
    ensures
        word_from_bytes(word_byte0(w), word_byte1(w), word_byte2(w), word_byte3(w)) == w,
{
    let b0 = word_byte0(w);
    let b1 = word_byte1(w);
    let b2 = word_byte2(w);
    let b3 = word_byte3(w);
    assert(((b0 as u32) << 24) | ((b1 as u32) << 16) | ((b2 as u32) << 8) | (b3 as u32) == w)
        by (bit_vector)
        requires
            b0 == (w >> 24) as u8,
            b1 == (w >> 16) as u8,
            b2 == (w >> 8) as u8,
            b3 == w as u8,
    ;
}

/// Taking a word apart recovers exactly the bytes it was built from.
pub proof fn lemma_bytes_word_round_trip(b0: u8, b1: u8, b2: u8, b3: u8)
    ensures
        word_byte0(word_from_bytes(b0, b1, b2, b3)) == b0,
        word_byte1(word_from_bytes(b0, b1, b2, b3)) == b1,
        word_byte2(word_from_bytes(b0, b1, b2, b3)) == b2,
        word_byte3(word_from_bytes(b0, b1, b2, b3)) == b3,
{
    let w = word_from_bytes(b0, b1, b2, b3);
    assert((w >> 24) as u8 == b0 && (w >> 16) as u8 == b1 && (w >> 8) as u8 == b2 && w as u8 == b3)
        by (bit_vector)
        requires
            w == ((b0 as u32) << 24) | ((b1 as u32) << 16) | ((b2 as u32) << 8) | (b3 as u32),
    ;
}

/// Reading a word back from where it was just stored returns that word.
pub proof fn lemma_word_round_trip(s: Seq<u8>, a: int, w: u32)
    requires
        0 <= a,
        a + 4 <= s.len(),
    ensures
        word_at(store_word_at(s, a, w), a) == w,
        store_word_at(s, a, w).len() == s.len(),
{
    lemma_word_bytes_round_trip(w);
}

/// Reading a byte back from where it was just stored returns that byte.
pub proof fn lemma_byte_round_trip(s: Seq<u8>, a: int, b: u8)
    requires
        0 <= a < s.len(),
    ensures
        s.update(a, b)[a] == b,
        s.update(a, b).len() == s.len(),
{
}

/// A stored word leaves every byte outside its four-byte window unchanged.
pub proof fn lemma_store_word_frame(s: Seq<u8>, a: int, w: u32, b: int)
    requires
        0 <= a,
        a + 4 <= s.len(),
        0 <= b < s.len(),
        b < a || a + 4 <= b,
    ensures
        store_word_at(s, a, w)[b] == s[b],
{
}

/// A stored word leaves every word in a disjoint window unchanged.
pub proof fn lemma_store_word_frame_word(s: Seq<u8>, a: int, w: u32, b: int)
    requires
        0 <= a,
        a + 4 <= s.len(),
        0 <= b,
        b + 4 <= s.len(),
        b + 4 <= a || a + 4 <= b,
    ensures
        word_at(store_word_at(s, a, w), b) == word_at(s, b),
{
}

/// Reading a byte at `addr`, or a memory fault if it is out of range.
pub open spec fn read_byte(s: Seq<u8>, addr: u32) -> Result<u8, Fault> {
    if (addr as int) < s.len() {
        Ok(s[addr as int])
    } else {
        Err(Fault::MemoryFault)
    }
}

/// Writing a byte at `addr`, or a memory fault if it is out of range.
pub open spec fn write_byte(s: Seq<u8>, addr: u32, v: u8) -> Result<Seq<u8>, Fault> {
    if (addr as int) < s.len() {
        Ok(s.update(addr as int, v))
    } else {
        Err(Fault::MemoryFault)
    }
}

/// Reading the big-endian word at `addr`, or a memory fault if any of its
/// four bytes is out of range.
pub open spec fn read_word(s: Seq<u8>, addr: u32) -> Result<u32, Fault> {
    if addr as int + 4 <= s.len() {
        Ok(word_at(s, addr as int))
    } else {
        Err(Fault::MemoryFault)
    }
}

/// Writing the big-endian word at `addr`, or a memory fault if any of its
/// four bytes is out of range.
pub open spec fn write_word(s: Seq<u8>, addr: u32, w: u32) -> Result<Seq<u8>, Fault> {
    if addr as int + 4 <= s.len() {
        Ok(store_word_at(s, addr as int, w))
    } else {
        Err(Fault::MemoryFault)
    }
}

/// An owned byte buffer of fixed size.
pub struct Memory {
    data: Vec<u8>,
}

impl View for Memory {
    type V = Seq<u8>;

    closed spec fn view(&self) -> Seq<u8> {
        self.data@
    }
}

impl Memory {
    /// A zero-filled buffer of `size` bytes.
    pub fn new(size: u32) -> (m: Memory)
        ensures
            m.inv(),
            m@ == Seq::new(size as nat, |i: int| 0u8),
    {
        let data: Vec<u8> = vec![0u8; size as usize];
        let m = Memory { data };
        proof {
            assert(m@ =~= Seq::new(size as nat, |i: int| 0u8));
        }
        m
    }

    /// The declared size of the buffer.
    pub fn get_size(&self) -> (r: u32)
        requires
            self.inv(),
        ensures
            r == self@.len(),
    {
        self.data.len() as u32
    }

    /// The byte at `addr`.
    pub fn get_byte(&self, addr: u32) -> (r: Result<u8, Fault>)
        ensures
            r == read_byte(self@, addr),
    {
        let a = addr as usize;
        if a < self.data.len() {
            Ok(self.data[a])
        } else {
            Err(Fault::MemoryFault)
        }
    }

    /// Stores `v` at `addr`.
    pub fn set_byte(&mut self, addr: u32, v: u8) -> (r: Result<(), Fault>)
        ensures
            match write_byte(old(self)@, addr, v) {
                Ok(s2) => r is Ok && final (self)@ == s2,
                Err(e) => r == Err::<(), Fault>(e) && final (self)@ == old(self)@,
            },
            final (self).inv() == old(self).inv(),
    {
        let a = addr as usize;
        if a < self.data.len() {
            self.data[a] = v;
            Ok(())
        } else {
            Err(Fault::MemoryFault)
        }
    }

    /// The big-endian word whose high byte sits at `addr`.
    pub fn get_word(&self, addr: u32) -> (r: Result<u32, Fault>)
        ensures
            r == read_word(self@, addr),
    {
        let a = addr as usize;
        let n = self.data.len();
        if n >= 4 && a <= n - 4 {
            let b0 = self.data[a];
            let b1 = self.data[a + 1];
            let b2 = self.data[a + 2];
            let b3 = self.data[a + 3];
            Ok(((b0 as u32) << 24) | ((b1 as u32) << 16) | ((b2 as u32) << 8) | (b3 as u32))
        } else {
            Err(Fault::MemoryFault)
        }
    }

    /// Stores the big-endian bytes of `w` starting at `addr`.
    pub fn set_word(&mut self, addr: u32, w: u32) -> (r: Result<(), Fault>)
        ensures
            match write_word(old(self)@, addr, w) {
                Ok(s2) => r is Ok && final (self)@ == s2,
                Err(e) => r == Err::<(), Fault>(e) && final (self)@ == old(self)@,
            },
            final (self).inv() == old(self).inv(),
    {
        let a = addr as usize;
        let n = self.data.len();
        if n >= 4 && a <= n - 4 {
            self.data[a] = #[verifier::truncate] ((w >> 24) as u8);
            self.data[a + 1] = #[verifier::truncate] ((w >> 16) as u8);
            self.data[a + 2] = #[verifier::truncate] ((w >> 8) as u8);
            self.data[a + 3] = #[verifier::truncate] (w as u8);
            Ok(())
        } else {
            Err(Fault::MemoryFault)
        }
    }

    /// Ors `mask` into the byte at `addr` in place.
    pub fn or_set_byte(&mut self, addr: u32, mask: u8) -> (r: Result<(), Fault>)
        ensures
            match write_byte(old(self)@, addr, (old(self)@[addr as int] | mask) as u8) {
                Ok(s2) => r is Ok && final (self)@ == s2,
                Err(e) => r == Err::<(), Fault>(e) && final (self)@ == old(self)@,
            },
            final (self).inv() == old(self).inv(),
    {
        let a = addr as usize;
        if a < self.data.len() {
            let b = self.data[a];
            self.data[a] = b | mask;
            Ok(())
        } else {
            Err(Fault::MemoryFault)
        }
    }

    /// Ands `mask` into the byte at `addr` in place.
    pub fn and_set_byte(&mut self, addr: u32, mask: u8) -> (r: Result<(), Fault>)
        ensures
            match write_byte(old(self)@, addr, (old(self)@[addr as int] & mask) as u8) {
                Ok(s2) => r is Ok && final (self)@ == s2,
                Err(e) => r == Err::<(), Fault>(e) && final (self)@ == old(self)@,
            },
            final (self).inv() == old(self).inv(),
    {
        let a = addr as usize;
        if a < self.data.len() {
            let b = self.data[a];
            self.data[a] = b & mask;
            Ok(())
        } else {
            Err(Fault::MemoryFault)
        }
    }
}

/// RAM: a `Memory` used directly as a device. Its model is its byte
/// buffer, and every accessor behaves exactly as the inherent one.
impl Device for Memory {
    /// The buffer size fits a `u32`, so `get_size` cannot truncate.
    open spec fn inv(&self) -> bool {
        self@.len() <= u32::MAX
    }

    open spec fn read_byte_m(m: Seq<u8>, addr: u32) -> Result<u8, Fault> {
        read_byte(m, addr)
    }

    open spec fn read_word_m(m: Seq<u8>, addr: u32) -> Result<u32, Fault> {
        read_word(m, addr)
    }

    open spec fn write_byte_m(m: Seq<u8>, addr: u32, v: u8) -> Result<Seq<u8>, Fault> {
        write_byte(m, addr, v)
    }

    open spec fn write_word_m(m: Seq<u8>, addr: u32, w: u32) -> Result<Seq<u8>, Fault> {
        write_word(m, addr, w)
    }

    fn get_byte(&self, addr: u32) -> Result<u8, Fault> {
        Memory::get_byte(self, addr)
    }

    fn get_word(&self, addr: u32) -> Result<u32, Fault> {
        Memory::get_word(self, addr)
    }

    fn set_byte(&mut self, addr: u32, v: u8) -> Result<(), Fault> {
        Memory::set_byte(self, addr, v)
    }

    fn set_word(&mut self, addr: u32, w: u32) -> Result<(), Fault> {
        Memory::set_word(self, addr, w)
    }
}

} // verus!
