//! The allocators of physical frames that the kernel starts out with.

use vstd::prelude::*;
use super::addr::canonical_form;
use super::addr::page_floor;
use super::addr::Page;
use super::addr::PhysAddr;
use super::addr::PhysFrame;
use super::addr::VirtAddr;
use super::addr::PHYS_ADDR_LIMIT;

verus! {

/// What a range of physical memory is used for.
#[derive(Clone, Copy, Debug, PartialEq, Eq, Structural)]
pub enum MemoryRegionKind {
    /// Unused conventional memory, free for the kernel to use.
    Usable,
    /// Memory that the bootloader has put something into.
    Bootloader,
    /// An unknown memory region reported by the UEFI firmware.
    UnknownUefi(u32),
    /// An unknown memory region reported by the BIOS firmware.
    UnknownBios(u32),
}

/// An entry of the memory map that the bootloader hands over: the
/// physical addresses from `start` up to, not including, `end`.
#[derive(Clone, Copy, Debug, PartialEq, Eq, Structural)]
pub struct MemoryRegion {
    /// The physical start address of the region.
    pub start: u64,
    /// The physical end address (exclusive) of the region.
    pub end: u64,
    /// The memory type of the region.
    pub kind: MemoryRegionKind,
}

/// The number of frames that a region gives: none unless it is usable; one
/// for every 4096 bytes from its start, the last of them possibly short.
pub open spec fn region_frame_count(r: MemoryRegion) -> int {
    if r.kind == MemoryRegionKind::Usable && r.start < r.end {
        (r.end - r.start + 4095) / 4096
    } else {
        0
    }
}

/// Start of the `k`-th frame of a region.
pub open spec fn region_frame(r: MemoryRegion, k: int) -> u64 {
    page_floor((r.start + 4096 * k) as u64)
}

/// The number of frames that a memory map gives.
pub open spec fn usable_count(map: Seq<MemoryRegion>) -> int
    decreases map.len(),
{
    if map.len() == 0 {
        0
    } else {
        usable_count(map.drop_last()) + region_frame_count(map.last())
    }
}

/// Start of the `n`-th frame of a memory map, counting the frames of its
/// usable regions in the order of the map.
pub open spec fn nth_usable(map: Seq<MemoryRegion>, n: int) -> Option<u64>
    decreases map.len(),
{
    if map.len() == 0 {
        None
    } else {
        let before = usable_count(map.drop_last());
        if n < before {
            nth_usable(map.drop_last(), n)
        } else if n - before < region_frame_count(map.last()) {
            Some(region_frame(map.last(), n - before))
        } else {
            None
        }
    }
}

/// Whether every usable region of a map ends within physical memory.
pub open spec fn map_valid(map: Seq<MemoryRegion>) -> bool {
    forall|i: int|
        0 <= i < map.len() && region_frame_count(#[trigger] map[i]) > 0 ==> map[i].end
            <= PHYS_ADDR_LIMIT
}

/// The count of frames is never negative.
pub proof fn lemma_usable_count_nonnegative(map: Seq<MemoryRegion>)
    ensures
        usable_count(map) >= 0,
    decreases map.len(),
{
    if map.len() > 0 {
        lemma_usable_count_nonnegative(map.drop_last());
    }
}

/// A map has an `n`-th frame exactly for the `n` below its count.
pub proof fn lemma_nth_usable_defined(map: Seq<MemoryRegion>, n: int)
    requires
        0 <= n,
    ensures
        nth_usable(map, n).is_some() == (n < usable_count(map)),
    decreases map.len(),
{
    if map.len() > 0 {
        lemma_nth_usable_defined(map.drop_last(), n);
        lemma_usable_count_nonnegative(map.drop_last());
    }
}

/// The frames of the first `i` regions of a map are the first frames of
/// the map.
pub proof fn lemma_nth_usable_prefix(map: Seq<MemoryRegion>, i: int, n: int)
    requires
        0 <= i <= map.len(),
        0 <= n < usable_count(map.take(i)),
    ensures
        nth_usable(map, n) == nth_usable(map.take(i), n),
        usable_count(map.take(i)) <= usable_count(map),
    decreases map.len() - i,
{
    if i == map.len() {
        assert(map.take(i) =~= map);
    } else {
        assert(map.take(i + 1).drop_last() =~= map.take(i));
        lemma_usable_count_nonnegative(map.take(i));
        assert(usable_count(map.take(i + 1)) >= usable_count(map.take(i)));
        lemma_nth_usable_prefix(map, i + 1, n);
    }
}

/// A frame allocator that hands out the usable frames of the memory map
/// of the bootloader, one after the other. A frame that was handed out is
/// never taken back.
pub struct BootInfoFrameAllocator {
    memory_map: Vec<MemoryRegion>,
    next: usize,
}

impl BootInfoFrameAllocator {
    #[verifier::type_invariant]
    closed spec fn inv(&self) -> bool {
        map_valid(self.memory_map@)
    }

    /// The memory map.
    pub closed spec fn map(&self) -> Seq<MemoryRegion> {
        self.memory_map@
    }

    /// The number of frames handed out so far.
    pub closed spec fn handed_out(&self) -> int {
        self.next as int
    }

    /// Executable form of [`map_valid`].
    pub fn is_valid_map(memory_map: &Vec<MemoryRegion>) -> (r: bool)
        ensures
            r == map_valid(memory_map@),
    {
        let mut i: usize = 0;
        while i < memory_map.len()
            invariant
                i <= memory_map.len(),
                forall|k: int|
                    0 <= k < i && region_frame_count(#[trigger] memory_map@[k]) > 0
                        ==> memory_map@[k].end <= PHYS_ADDR_LIMIT,
            decreases memory_map.len() - i,
        {
            let r = memory_map[i];
            if Self::frames_in(&r) > 0 && r.end > PHYS_ADDR_LIMIT {
                return false;
            }
            i += 1;
        }
        true
    }

    /// Executable form of [`region_frame_count`].
    pub fn frames_in(r: &MemoryRegion) -> (n: u64)
        ensures
            n == region_frame_count(*r),
    {
        match r.kind {
            MemoryRegionKind::Usable => {
                if r.start < r.end {
                    let span: u64 = r.end - r.start;
                    (span - 1) / 4096 + 1
                } else {
                    0
                }
            },
            _ => 0,
        }
    }

    /// Creates a frame allocator from the passed memory map. Whoever calls
    /// this sees to it that the frames that the map marks as usable are
    /// really unused.
    pub fn init(memory_map: Vec<MemoryRegion>) -> (r: Self)
        requires
            map_valid(memory_map@),
        ensures
            r.map() == memory_map@,
            r.handed_out() == 0,
    {
        BootInfoFrameAllocator { memory_map, next: 0 }
    }

    /// The `n`-th usable frame of the memory map.
    pub fn usable_frame(&self, n: usize) -> (r: Option<PhysFrame>)
        ensures
            r.is_some() == nth_usable(self.map(), n as int).is_some(),
            r matches Some(f) ==> Some(f@) == nth_usable(self.map(), n as int),
    {
        proof {
            use_type_invariant(self);
        }
        let mut skipped: usize = 0;
        let mut i: usize = 0;
        while i < self.memory_map.len()
            invariant
                i <= self.memory_map.len(),
                map_valid(self.memory_map@),
                skipped == usable_count(self.memory_map@.take(i as int)),
                skipped <= n,
            decreases self.memory_map.len() - i,
        {
            let region = self.memory_map[i];
            let count: u64 = Self::frames_in(&region);
            let rest: usize = n - skipped;
            proof {
                assert(self.memory_map@.take(i + 1).drop_last() =~= self.memory_map@.take(
                    i as int,
                ));
                assert(self.memory_map@.take(i + 1).last() == region);
            }
            if (rest as u64) < count {
                let addr: u64 = region.start + 4096 * (rest as u64);
                proof {
                    lemma_nth_usable_prefix(self.memory_map@, i + 1, n as int);
                }
                return match PhysAddr::try_new(addr) {
                    Some(a) => Some(PhysFrame::containing_address(a)),
                    None => None,
                };
            }
            skipped = skipped + count as usize;
            i += 1;
        }
        proof {
            assert(self.memory_map@.take(i as int) =~= self.memory_map@);
            lemma_nth_usable_defined(self.memory_map@, n as int);
        }
        None
    }

    /// Returns the next unused frame of the memory map, or `None` when the
    /// map is exhausted.
    pub fn allocate_frame(&mut self) -> (r: Option<PhysFrame>)
        ensures
            r.is_some() == nth_usable(old(self).map(), old(self).handed_out()).is_some(),
            r matches Some(f) ==> Some(f@) == nth_usable(old(self).map(), old(self).handed_out()),
            final(self).map() == old(self).map(),
            final(self).handed_out() == if old(self).handed_out() < usize::MAX {
                old(self).handed_out() + 1
            } else {
                old(self).handed_out()
            },
    {
        proof {
            use_type_invariant(&*self);
        }
        let frame = self.usable_frame(self.next);
        if self.next < usize::MAX {
            self.next = self.next + 1;
        }
        frame
    }
}

/// Present, not executable: how [`VeryUnsafeFrameAllocator::advance`] maps.
pub const READ_ONLY_FLAGS: u64 = 0x8000_0000_0000_0001;

/// Index of the first entry of the top level table that is searched for a
/// free slot.
pub const FIRST_SEARCHED_ENTRY: usize = 255;

/// The address that the entry `e` of the top level table starts at.
pub open spec fn entry_base(e: int) -> Option<u64> {
    canonical_form((e * 0x80_0000_0000) as u64)
}

/// Whether `e` is the first unused entry from the first searched entry on.
pub open spec fn first_unused(unused: Seq<bool>, e: int) -> bool {
    &&& FIRST_SEARCHED_ENTRY <= e < unused.len()
    &&& unused[e]
    &&& forall|k: int| FIRST_SEARCHED_ENTRY <= k < e ==> !#[trigger] unused[k]
}

/// A mapping that [`VeryUnsafeFrameAllocator::advance`] asks for.
#[derive(Clone, Copy, Debug, PartialEq, Eq, Structural)]
pub struct MapRequest {
    /// The page to map.
    pub page: Page,
    /// The frame to map it to.
    pub frame: PhysFrame,
    /// The flags of the mapping.
    pub flags: u64,
}

/// Hands out the frames that follow a given physical address, one after
/// the other, without asking whether they are in use.
///
/// This is here to get at memory that the firmware has written before
/// there is a memory map to go by. Its use should be avoided unless
/// absolutely necessary.
pub struct VeryUnsafeFrameAllocator {
    addr: Option<PhysAddr>,
    advanced: usize,
}

impl VeryUnsafeFrameAllocator {
    /// The physical address that frames are counted from, if it is set.
    pub closed spec fn base(&self) -> Option<PhysAddr> {
        self.addr
    }

    /// The number of frames handed out since the address was set.
    pub closed spec fn advance_count(&self) -> usize {
        self.advanced
    }

    /// Whether a frame can be handed out: the address is set, and the
    /// next frame lies within physical memory.
    pub open spec fn can_allocate(&self) -> bool {
        &&& self.base().is_some()
        &&& self.base().unwrap()@ + 4096 * self.advance_count() < PHYS_ADDR_LIMIT
        &&& self.advance_count() < usize::MAX
    }

    /// Creates an allocator without an address.
    pub fn new() -> (r: Self)
        ensures
            r.base().is_none(),
            r.advance_count() == 0,
    {
        Self { addr: None, advanced: 0 }
    }

    /// Whether the address is set.
    pub fn has_geom(&self) -> (r: bool)
        ensures
            r == self.base().is_some(),
    {
        self.addr.is_some()
    }

    /// Sets the physical address and the count of frames handed out. The
    /// address must not be set already.
    pub fn set_geom(&mut self, addr: PhysAddr, advance: usize)
        requires
            old(self).base().is_none(),
        ensures
            final(self).base() == Some(addr),
            final(self).advance_count() == advance,
    {
        self.addr = Some(addr);
        self.advanced = advance;
    }

    /// The number of frames handed out since the address was set.
    pub fn get_advance(&self) -> (r: usize)
        ensures
            r == self.advance_count(),
    {
        self.advanced
    }

    /// Executable form of [`VeryUnsafeFrameAllocator::can_allocate`].
    pub fn is_ready(&self) -> (r: bool)
        ensures
            r == self.can_allocate(),
    {
        match self.addr {
            Some(a) => {
                let base: u64 = a.as_u64();
                let room: u64 = (PHYS_ADDR_LIMIT - 1 - base) / 4096;
                self.advanced < usize::MAX && self.advanced as u64 <= room
            },
            None => false,
        }
    }

    /// Hands out the frame that lies `advance_count` frames after the
    /// address.
    pub fn allocate_frame(&mut self) -> (r: Option<PhysFrame>)
        requires
            old(self).can_allocate(),
        ensures
            r matches Some(f) && f@ == page_floor(
                (old(self).base().unwrap()@ + 4096 * old(self).advance_count()) as u64,
            ),
            final(self).base() == old(self).base(),
            final(self).advance_count() == old(self).advance_count() + 1,
    {
        let base: u64 = match self.addr {
            Some(a) => a.as_u64(),
            None => 0,
        };
        let at: u64 = base + 4096 * (self.advanced as u64);
        self.advanced = self.advanced + 1;
        match PhysAddr::try_new(at) {
            Some(a) => Some(PhysFrame::containing_address(a)),
            None => None,
        }
    }

    /// Searches the higher entries of the top level table for one that is
    /// unused, given for each entry whether it is unused, and returns the
    /// page that the first such entry starts at.
    pub fn find_unused_high_half(unused: &[bool]) -> (r: Option<Page>)
        requires
            unused@.len() <= 512,
        ensures
            r.is_some() == exists|e: int| first_unused(unused@, e),
            r matches Some(p) ==> exists|e: int|
                first_unused(unused@, e) && Some(p@) == entry_base(e),
    {
        let mut e: usize = FIRST_SEARCHED_ENTRY;
        while e < unused.len()
            invariant
                FIRST_SEARCHED_ENTRY <= e,
                unused@.len() <= 512,
                forall|k: int| FIRST_SEARCHED_ENTRY <= k < e && k < unused@.len() ==> !unused@[k],
            decreases unused.len() - e,
        {
            if unused[e] {
                let raw: u64 = (e as u64) * 0x80_0000_0000;
                proof {
                    assert(first_unused(unused@, e as int));
                    assert(raw < 0x1_0000_0000_0000);
                    assert(raw % 4096 == 0);
                    assert(Some(raw) == entry_base(e as int) || Some(
                        (raw + 0xffff_0000_0000_0000) as u64,
                    ) == entry_base(e as int));
                    assert((raw + 0xffff_0000_0000_0000) % 4096 == 0);
                }
                return match VirtAddr::try_new(raw) {
                    Some(v) => Some(Page::containing_address(v)),
                    None => None,
                };
            }
            e += 1;
        }
        None
    }

    /// Decides how `phy_addr` is brought into virtual memory, given for
    /// each entry of the top level table whether it is unused: its frame
    /// is mapped, read only, at the first unused higher entry. Nothing is
    /// asked for where no entry is unused.
    pub fn advance(&self, phy_addr: PhysAddr, unused: &[bool]) -> (r: Option<MapRequest>)
        requires
            unused@.len() <= 512,
        ensures
            r.is_some() == exists|e: int| first_unused(unused@, e),
            r matches Some(m) ==> {
                &&& exists|e: int| first_unused(unused@, e) && Some(m.page@) == entry_base(e)
                &&& m.frame@ == page_floor(phy_addr@)
                &&& m.flags == READ_ONLY_FLAGS
            },
    {
        match Self::find_unused_high_half(unused) {
            Some(page) => Some(
                MapRequest {
                    page,
                    frame: PhysFrame::containing_address(phy_addr),
                    flags: READ_ONLY_FLAGS,
                },
            ),
            None => None,
        }
    }

    /// Sets the address to `phy_addr`, with no frame handed out, and
    /// decides how `phy_addr` is brought into virtual memory, as
    /// [`VeryUnsafeFrameAllocator::advance`] does. The address must not
    /// be set already.
    pub fn get_frame(&mut self, phy_addr: PhysAddr, unused: &[bool]) -> (r: Option<MapRequest>)
        requires
            old(self).base().is_none(),
            unused@.len() <= 512,
        ensures
            final(self).base() == Some(phy_addr),
            final(self).advance_count() == 0,
            r.is_some() == exists|e: int| first_unused(unused@, e),
            r matches Some(m) ==> {
                &&& exists|e: int| first_unused(unused@, e) && Some(m.page@) == entry_base(e)
                &&& m.frame@ == page_floor(phy_addr@)
                &&& m.flags == READ_ONLY_FLAGS
            },
    {
        self.set_geom(phy_addr, 0);
        self.advance(phy_addr, unused)
    }

    /// The mapping that was asked for has been made: the allocator
    /// forgets its address, and returns the address that the frame is
    /// mapped at.
    pub fn complete_advance(&mut self, request: &MapRequest) -> (r: VirtAddr)
        ensures
            r@ == request.page@,
            final(self).base().is_none(),
            final(self).advance_count() == old(self).advance_count(),
    {
        self.addr = None;
        request.page.start_address()
    }
}

} // verus!
