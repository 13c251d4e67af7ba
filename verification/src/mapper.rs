//! The memory mapper: dispatches address ranges to devices.
//!
//! Regions are kept in most-recent-first order: `map` inserts at the front
//! of the list, so a later, narrower mapping shadows an earlier, broader
//! one. Every access scans from the front and the first region whose
//! `[start, end)` window contains the address is chosen; the device sees
//! the address relative to `start` when the region was mapped with
//! `remap`, and the absolute address otherwise. An address no region maps
//! is a memory fault.

use vstd::prelude::*;

use crate::device::Device;
use crate::fault::Fault;

verus! {

/// Abstract model of a region: the device's model and the window.
pub struct RegionModel<M> {
    pub device: M,
    pub start: u32,
    pub end: u32,
    pub remap: bool,
}

/// An address window `[start, end)` delegating to a device.
pub struct Region<D> {
    pub device: D,
    pub start: u32,
    pub end: u32,
    pub remap: bool,
}

impl<D: View> View for Region<D> {
    type V = RegionModel<D::V>;

    open spec fn view(&self) -> RegionModel<D::V> {
        RegionModel { device: self.device@, start: self.start, end: self.end, remap: self.remap }
    }
}

/// Does the region's window contain `addr`?
pub open spec fn region_matches<M>(r: RegionModel<M>, addr: u32) -> bool {
    r.start <= addr < r.end
}

/// The address the region's device sees for `addr`.
pub open spec fn region_local_addr<M>(r: RegionModel<M>, addr: u32) -> u32 {
    if r.remap {
        (addr - r.start) as u32
    } else {
        addr
    }
}

/// The index of the first region whose window contains `addr`.
pub open spec fn first_match<M>(rs: Seq<RegionModel<M>>, addr: u32) -> Option<int>
    decreases rs.len(),
{
    if rs.len() == 0 {
        None
    } else if region_matches(rs[0], addr) {
        Some(0)
    } else {
        match first_match(rs.skip(1), addr) {
            None => None,
            Some(i) => Some(i + 1),
        }
    }
}

/// Routing an address: the chosen region's index and the address its
/// device sees, or `None` if no region matches.
pub open spec fn route<M>(rs: Seq<RegionModel<M>>, addr: u32) -> Option<(int, u32)> {
    match first_match(rs, addr) {
        None => None,
        Some(i) => Some((i, region_local_addr(rs[i], addr))),
    }
}

/// `first_match` returns `i` exactly when `rs[i]` matches and no earlier
/// region does.
pub proof fn lemma_first_match_at<M>(rs: Seq<RegionModel<M>>, addr: u32, i: int)
    requires
        0 <= i < rs.len(),
        region_matches(rs[i], addr),
        forall|j: int| 0 <= j < i ==> !region_matches(rs[j], addr),
    ensures
        first_match(rs, addr) == Some(i),
    decreases i,
{
    if i == 0 {
    } else {
        assert(rs.skip(1)[i - 1] == rs[i]);
        assert(forall|j: int| 0 <= j < i - 1 ==> rs.skip(1)[j] == rs[j + 1]);
        lemma_first_match_at(rs.skip(1), addr, i - 1);
    }
}

/// When no region matches, `first_match` finds nothing.
pub proof fn lemma_first_match_none<M>(rs: Seq<RegionModel<M>>, addr: u32)
    requires
        forall|j: int| 0 <= j < rs.len() ==> !region_matches(rs[j], addr),
    ensures
        first_match(rs, addr) is None,
    decreases rs.len(),
{
    if rs.len() > 0 {
        assert(forall|j: int| 0 <= j < rs.skip(1).len() ==> rs.skip(1)[j] == rs[j + 1]);
        lemma_first_match_none(rs.skip(1), addr);
    }
}

/// A found index matches, and nothing before it does.
pub proof fn lemma_first_match_props<M>(rs: Seq<RegionModel<M>>, addr: u32)
    ensures
        match first_match(rs, addr) {
            Some(i) => 0 <= i < rs.len() && region_matches(rs[i], addr) && forall|j: int|
                0 <= j < i ==> !region_matches(rs[j], addr),
            None => forall|j: int| 0 <= j < rs.len() ==> !region_matches(rs[j], addr),
        },
    decreases rs.len(),
{
    if rs.len() > 0 && !region_matches(rs[0], addr) {
        let tail = rs.skip(1);
        lemma_first_match_props(tail, addr);
        match first_match(tail, addr) {
            Some(i) => {
                assert(tail[i] == rs[i + 1]);
                assert forall|j: int| 0 <= j < i + 1 implies !region_matches(
                    rs[j],
                    addr,
                ) by {
                    if j > 0 {
                        assert(tail[j - 1] == rs[j]);
                    }
                }
            },
            None => {
                assert forall|j: int| 0 <= j < rs.len() implies !region_matches(
                    rs[j],
                    addr,
                ) by {
                    if j > 0 {
                        assert(tail[j - 1] == rs[j]);
                    }
                }
            },
        }
    }
}

/// Reading a byte through the mapper on region models `rs`.
pub open spec fn mapper_read_byte<D: Device>(rs: Seq<RegionModel<D::V>>, addr: u32) -> Result<
    u8,
    Fault,
> {
    match route(rs, addr) {
        None => Err(Fault::MemoryFault),
        Some((i, a)) => D::read_byte_m(rs[i].device, a),
    }
}

/// Reading a word through the mapper on region models `rs`.
pub open spec fn mapper_read_word<D: Device>(rs: Seq<RegionModel<D::V>>, addr: u32) -> Result<
    u32,
    Fault,
> {
    match route(rs, addr) {
        None => Err(Fault::MemoryFault),
        Some((i, a)) => D::read_word_m(rs[i].device, a),
    }
}

/// Writing a byte through the mapper: the chosen region's device model is
/// transformed, all other regions stay as they are.
pub open spec fn mapper_write_byte<D: Device>(rs: Seq<RegionModel<D::V>>, addr: u32, v: u8) -> Result<
    Seq<RegionModel<D::V>>,
    Fault,
> {
    match route(rs, addr) {
        None => Err(Fault::MemoryFault),
        Some((i, a)) => match D::write_byte_m(rs[i].device, a, v) {
            Err(e) => Err(e),
            Ok(m2) => Ok(
                rs.update(
                    i,
                    RegionModel {
                        device: m2,
                        start: rs[i].start,
                        end: rs[i].end,
                        remap: rs[i].remap,
                    },
                ),
            ),
        },
    }
}

/// Writing a word through the mapper, as `mapper_write_byte`.
pub open spec fn mapper_write_word<D: Device>(rs: Seq<RegionModel<D::V>>, addr: u32, w: u32) -> Result<
    Seq<RegionModel<D::V>>,
    Fault,
> {
    match route(rs, addr) {
        None => Err(Fault::MemoryFault),
        Some((i, a)) => match D::write_word_m(rs[i].device, a, w) {
            Err(e) => Err(e),
            Ok(m2) => Ok(
                rs.update(
                    i,
                    RegionModel {
                        device: m2,
                        start: rs[i].start,
                        end: rs[i].end,
                        remap: rs[i].remap,
                    },
                ),
            ),
        },
    }
}

/// An ordered collection of regions, most recently mapped first.
pub struct MemoryMapper<D> {
    pub regions: Vec<Region<D>>,
}

impl<D: Device> View for MemoryMapper<D> {
    type V = Seq<RegionModel<D::V>>;

    open spec fn view(&self) -> Seq<RegionModel<D::V>> {
        self.regions@.map_values(|r: Region<D>| r@)
    }
}

impl<D: Device> MemoryMapper<D> {
    /// Every region's device is well formed.
    pub open spec fn inv(&self) -> bool {
        forall|i: int| 0 <= i < self.regions@.len() ==> (#[trigger] self.regions@[i]).device.inv()
    }

    /// An empty mapper: no address is mapped yet.
    pub fn new() -> (m: MemoryMapper<D>)
        ensures
            m.inv(),
            m@ == Seq::<RegionModel<D::V>>::empty(),
    {
        let m = MemoryMapper { regions: Vec::new() };
        proof {
            assert(m@ =~= Seq::<RegionModel<D::V>>::empty());
        }
        m
    }

    /// The index of the first region containing `addr`; a memory fault if
    /// none does.
    fn find_region(&self, addr: u32) -> (r: Result<usize, Fault>)
        ensures
            match r {
                Ok(i) => first_match(self@, addr) == Some(i as int) && i < self.regions@.len(),
                Err(e) => e == Fault::MemoryFault && first_match(self@, addr) is None,
            },
    {
        let n = self.regions.len();
        let mut i: usize = 0;
        while i < n
            invariant
                n == self.regions@.len(),
                0 <= i <= n,
                forall|j: int| 0 <= j < i ==> !region_matches(self@[j], addr),
            decreases n - i,
        {
            let region = &self.regions[i];
            if region.start <= addr && addr < region.end {
                proof {
                    lemma_first_match_at(self@, addr, i as int);
                }
                return Ok(i);
            }
            i = i + 1;
        }
        proof {
            lemma_first_match_none(self@, addr);
        }
        Err(Fault::MemoryFault)
    }

    /// The routed region index and the device-local address for `addr`.
    fn get_region_and_addr(&self, addr: u32) -> (r: Result<(usize, u32), Fault>)
        ensures
            match r {
                Ok((i, a)) => route(self@, addr) == Some((i as int, a)) && i
                    < self.regions@.len(),
                Err(e) => e == Fault::MemoryFault && route(self@, addr) is None,
            },
    {
        let region_index = match self.find_region(addr) {
            Ok(i) => i,
            Err(e) => {
                return Err(e);
            },
        };
        proof {
            lemma_first_match_props(self@, addr);
        }
        let region = &self.regions[region_index];
        let final_addr = if region.remap {
            addr - region.start
        } else {
            addr
        };
        Ok((region_index, final_addr))
    }

    /// The byte the routed device reads at `addr`.
    pub fn get_byte(&self, addr: u32) -> (r: Result<u8, Fault>)
        requires
            self.inv(),
        ensures
            r == mapper_read_byte::<D>(self@, addr),
    {
        match self.get_region_and_addr(addr) {
            Ok((i, a)) => self.regions[i].device.get_byte(a),
            Err(e) => Err(e),
        }
    }

    /// The word the routed device reads at `addr`.
    pub fn get_word(&self, addr: u32) -> (r: Result<u32, Fault>)
        requires
            self.inv(),
        ensures
            r == mapper_read_word::<D>(self@, addr),
    {
        match self.get_region_and_addr(addr) {
            Ok((i, a)) => self.regions[i].device.get_word(a),
            Err(e) => Err(e),
        }
    }

    /// Writes byte `v` through the routed device.
    pub fn set_byte(&mut self, addr: u32, v: u8) -> (r: Result<(), Fault>)
        requires
            old(self).inv(),
        ensures
            final (self).inv(),
            match mapper_write_byte::<D>(old(self)@, addr, v) {
                Ok(rs2) => r is Ok && final (self)@ == rs2,
                Err(e) => r == Err::<(), Fault>(e),
            },
    {
        match self.get_region_and_addr(addr) {
            Ok((i, a)) => {
                let ghost pre = self@;
                let region = &mut self.regions[i];
                let r = region.device.set_byte(a, v);
                proof {
                    if r is Ok {
                        assert(self@ =~= pre.update(
                            i as int,
                            RegionModel {
                                device: self.regions@[i as int].device@,
                                start: pre[i as int].start,
                                end: pre[i as int].end,
                                remap: pre[i as int].remap,
                            },
                        ));
                    } else {
                        assert(self@ =~= pre);
                    }
                }
                r
            },
            Err(e) => Err(e),
        }
    }

    /// Writes word `w` through the routed device.
    pub fn set_word(&mut self, addr: u32, w: u32) -> (r: Result<(), Fault>)
        requires
            old(self).inv(),
        ensures
            final (self).inv(),
            match mapper_write_word::<D>(old(self)@, addr, w) {
                Ok(rs2) => r is Ok && final (self)@ == rs2,
                Err(e) => r == Err::<(), Fault>(e),
            },
    {
        match self.get_region_and_addr(addr) {
            Ok((i, a)) => {
                let ghost pre = self@;
                let region = &mut self.regions[i];
                let r = region.device.set_word(a, w);
                proof {
                    if r is Ok {
                        assert(self@ =~= pre.update(
                            i as int,
                            RegionModel {
                                device: self.regions@[i as int].device@,
                                start: pre[i as int].start,
                                end: pre[i as int].end,
                                remap: pre[i as int].remap,
                            },
                        ));
                    } else {
                        assert(self@ =~= pre);
                    }
                }
                r
            },
            Err(e) => Err(e),
        }
    }

    /// Maps `device` over `[start, end)`, in front of every earlier
    /// region: the newest mapping wins on a shared address.
    pub fn map(&mut self, device: D, start: u32, end: u32, remap: bool)
        requires
            old(self).inv(),
            device.inv(),
            start < end,
        ensures
            final (self).inv(),
            final (self)@ == old(self)@.insert(
                0,
                RegionModel { device: device@, start, end, remap },
            ),
    {
        let ghost pre = self@;
        let ghost dm = device@;
        let region = Region { device, start, end, remap };
        self.regions.insert(0, region);
        proof {
            assert(self@ =~= pre.insert(0, RegionModel { device: dm, start, end, remap }));
        }
    }
}

/// Two region lists with the same windows route every address alike.
proof fn lemma_first_match_same_windows<M>(
    rs1: Seq<RegionModel<M>>,
    rs2: Seq<RegionModel<M>>,
    addr: u32,
)
    requires
        rs1.len() == rs2.len(),
        forall|j: int|
            0 <= j < rs1.len() ==> (#[trigger] rs1[j]).start == rs2[j].start && rs1[j].end
                == rs2[j].end,
    ensures
        first_match(rs1, addr) == first_match(rs2, addr),
    decreases rs1.len(),
{
    if rs1.len() > 0 {
        assert(forall|j: int|
            0 <= j < rs1.skip(1).len() ==> #[trigger] rs1.skip(1)[j] == rs1[j + 1]);
        assert(forall|j: int|
            0 <= j < rs2.skip(1).len() ==> #[trigger] rs2.skip(1)[j] == rs2[j + 1]);
        lemma_first_match_same_windows(rs1.skip(1), rs2.skip(1), addr);
    }
}

/// Writing a word through the mapper into a RAM-backed region and reading
/// it back at the same address returns exactly that word.
pub proof fn lemma_mapper_word_round_trip(rs: Seq<RegionModel<Seq<u8>>>, addr: u32, w: u32)
    ensures
        match mapper_write_word::<crate::memory::Memory>(rs, addr, w) {
            Ok(rs2) => mapper_read_word::<crate::memory::Memory>(rs2, addr) == Ok::<u32, Fault>(w),
            Err(_e) => true,
        },
{
    match mapper_write_word::<crate::memory::Memory>(rs, addr, w) {
        Ok(rs2) => {
            let i = first_match(rs, addr)->Some_0;
            let a = region_local_addr(rs[i], addr);
            lemma_first_match_props(rs, addr);
            assert(forall|j: int|
                0 <= j < rs.len() ==> (#[trigger] rs2[j]).start == rs[j].start && rs2[j].end
                    == rs[j].end);
            lemma_first_match_same_windows(rs2, rs, addr);
            crate::memory::lemma_word_round_trip(rs[i].device, a as int, w);
        },
        Err(_e) => {},
    }
}

/// Writing a byte through the mapper into a RAM-backed region and reading
/// it back at the same address returns exactly that byte.
pub proof fn lemma_mapper_byte_round_trip(rs: Seq<RegionModel<Seq<u8>>>, addr: u32, b: u8)
    ensures
        match mapper_write_byte::<crate::memory::Memory>(rs, addr, b) {
            Ok(rs2) => mapper_read_byte::<crate::memory::Memory>(rs2, addr) == Ok::<u8, Fault>(b),
            Err(_e) => true,
        },
{
    match mapper_write_byte::<crate::memory::Memory>(rs, addr, b) {
        Ok(rs2) => {
            lemma_first_match_props(rs, addr);
            assert(forall|j: int|
                0 <= j < rs.len() ==> (#[trigger] rs2[j]).start == rs[j].start && rs2[j].end
                    == rs[j].end);
            lemma_first_match_same_windows(rs2, rs, addr);
        },
        Err(_e) => {},
    }
}

/// Mapper precedence: mapping `d1` and then `d2` over the same window
/// sends every read of an address inside the window to `d2`.
pub proof fn lemma_mapper_precedence<D: Device>(
    rs: Seq<RegionModel<D::V>>,
    d1: D::V,
    d2: D::V,
    start: u32,
    end: u32,
    remap1: bool,
    remap2: bool,
    addr: u32,
)
    requires
        start <= addr < end,
    ensures
        ({
            let r2 = RegionModel { device: d2, start, end, remap: remap2 };
            let mapped = rs.insert(0, RegionModel { device: d1, start, end, remap: remap1 }).insert(
                0,
                r2,
            );
            mapper_read_byte::<D>(mapped, addr) == D::read_byte_m(
                d2,
                region_local_addr(r2, addr),
            ) && mapper_read_word::<D>(mapped, addr) == D::read_word_m(
                d2,
                region_local_addr(r2, addr),
            )
        }),
{
    let r2 = RegionModel { device: d2, start, end, remap: remap2 };
    let mapped = rs.insert(0, RegionModel { device: d1, start, end, remap: remap1 }).insert(0, r2);
    assert(mapped[0] == r2);
    assert(region_matches(mapped[0], addr));
    assert(first_match(mapped, addr) == Some(0int));
}

} // verus!
