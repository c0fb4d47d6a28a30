//! Public interfaces for memory allocation.
//!
//! [`MmioAlloc`] decides how a region of physical memory is brought into
//! the virtual address space and taken out of it again. It takes the
//! virtual range from the allocator of virtual ranges and returns what is
//! to be mapped or unmapped; it does not touch the page tables itself.

use vstd::prelude::*;
use crate::mem::addr::is_canonical;
use crate::mem::addr::page_floor;
use crate::mem::addr::same_half;
use crate::mem::addr::Page;
use crate::mem::addr::PageRangeInclusive;
use crate::mem::addr::PhysAddr;
use crate::mem::addr::PhysFrame;
use crate::mem::addr::VirtAddr;
use crate::mem::addr::LOWER_HALF_END;
use crate::mem::addr::PHYS_ADDR_LIMIT;
use crate::mem::virt::allocated;
use crate::mem::virt::lemma_cycle_repeats;
use crate::mem::virt::pages_for;
use crate::mem::virt::regions_wf;
use crate::mem::virt::release;
use crate::mem::virt::Regions;
use crate::mem::virt::VirtualRegionAllocator;

verus! {

/// The entry is present.
pub const FLAG_PRESENT: u64 = 0x1;

/// Writes through the mapping are allowed.
pub const FLAG_WRITABLE: u64 = 0x2;

/// The mapping bypasses the cache.
pub const FLAG_NO_CACHE: u64 = 0x10;

/// Nothing is executed from the mapping.
pub const FLAG_NO_EXECUTE: u64 = 0x8000_0000_0000_0000;

/// The flags of every mapping of device memory: present, writable, not
/// cached, not executable.
pub const MMIO_FLAGS: u64 = 0x8000_0000_0000_0013;

/// No memory could be had.
#[derive(Clone, Copy, Debug, PartialEq, Eq, Structural)]
pub struct AllocError;

/// Whether the `size` bytes at `ptr` can be spoken of page by page: their
/// last byte has an address, which is canonical and lies in the same half
/// of the address space as the first. An empty range counts if the byte
/// before it does.
pub open spec fn range_addressable(ptr: u64, size: usize) -> bool {
    &&& 1 <= ptr + size <= u64::MAX + 1
    &&& is_canonical((ptr + size - 1) as u64)
    &&& same_half(ptr, (ptr + size - 1) as u64)
}

/// Rounding down to a page boundary, where `b` is one: `b + x` is rounded
/// to `b` and as many whole pages as `x` holds.
pub proof fn lemma_page_floor_offset(b: int, x: int)
    requires
        b % 4096 == 0,
        0 <= x,
    ensures
        (b + x) - (b + x) % 4096 == b + 4096 * (x / 4096),
        (b + x) % 4096 == x % 4096,
{
    vstd::arithmetic::div_mod::lemma_fundamental_div_mod(b, 4096);
    vstd::arithmetic::div_mod::lemma_fundamental_div_mod(x, 4096);
    vstd::arithmetic::div_mod::lemma_mod_multiples_vanish(b / 4096, x, 4096);
    assert(b + x == 4096 * (b / 4096) + x);
}

/// What an allocation asks to be done: each page of `pages` is to be
/// mapped, with `flags`, to a frame of its own; the first to `first_frame`,
/// each later one to the frame that follows that of the page before.
/// `ptr` is what the allocation hands out, a slice of `len` bytes.
pub struct MmioMapping {
    pages: PageRangeInclusive,
    first_frame: PhysFrame,
    flags: u64,
    ptr: u64,
    len: usize,
}

impl MmioMapping {
    #[verifier::type_invariant]
    closed spec fn inv(&self) -> bool {
        self.first_frame@ + 4096 * self.pages.count() <= PHYS_ADDR_LIMIT
    }

    /// The pages to map.
    pub closed spec fn pages(&self) -> PageRangeInclusive {
        self.pages
    }

    /// The frame behind the first page.
    pub closed spec fn first_frame(&self) -> PhysFrame {
        self.first_frame
    }

    /// The flags of each mapping.
    pub closed spec fn flags(&self) -> u64 {
        self.flags
    }

    /// The address that is handed out.
    pub closed spec fn ptr(&self) -> u64 {
        self.ptr
    }

    /// The length that is handed out.
    pub closed spec fn len(&self) -> usize {
        self.len
    }

    /// The pages to map.
    pub fn page_range(&self) -> (r: PageRangeInclusive)
        ensures
            r == self.pages(),
    {
        self.pages
    }

    /// The flags of each mapping.
    pub fn page_flags(&self) -> (r: u64)
        ensures
            r == self.flags(),
    {
        self.flags
    }

    /// The address that is handed out.
    pub fn address(&self) -> (r: u64)
        ensures
            r == self.ptr(),
    {
        self.ptr
    }

    /// The length that is handed out.
    pub fn size(&self) -> (r: usize)
        ensures
            r == self.len(),
    {
        self.len
    }

    /// The `i`-th page to map and the frame to map it to: the page is `i`
    /// pages after the first page and the frame `i` frames after the first
    /// frame.
    pub fn mapping(&self, i: u64) -> (r: Option<(Page, PhysFrame)>)
        ensures
            r.is_some() == (i < self.pages().count()),
            r matches Some(m) ==> {
                &&& m.0@ == self.pages().first()@ + 4096 * i
                &&& m.1@ == self.first_frame()@ + 4096 * i
            },
    {
        proof {
            use_type_invariant(self);
        }
        match self.pages.nth(i) {
            Some(page) => {
                let base: u64 = self.first_frame.as_u64();
                let at: u64 = base + 4096 * i;
                match PhysAddr::try_new(at) {
                    Some(a) => Some((page, PhysFrame::containing_address(a))),
                    None => None,
                }
            },
            None => None,
        }
    }
}

/// What a deallocation asks to be done: each page of `pages` is to be
/// unmapped, and the virtual range that starts at `base` is to be given
/// back.
#[derive(Clone, Copy, Debug, PartialEq, Eq, Structural)]
pub struct MmioUnmapping {
    /// The pages to unmap.
    pub pages: PageRangeInclusive,
    /// Start of the virtual range to give back.
    pub base: u64,
}

/// Used to allocate physical memory regions. Every allocation through this
/// type covers whole pages.
///
/// A value of this type stands for a physical address. Whoever makes one
/// sees to it that device memory lies there, and that nothing else maps it.
#[derive(Clone, Copy, Debug, PartialEq, Eq, Structural)]
pub struct MmioAlloc {
    addr: u64,
}

impl MmioAlloc {
    /// The physical address as a number.
    pub closed spec fn addr(&self) -> u64 {
        self.addr
    }

    /// Offset of the physical address within its frame.
    pub open spec fn offset(&self) -> int {
        (self.addr() % 4096) as int
    }

    /// Whether the address is a physical address at all.
    pub open spec fn is_physical(&self) -> bool {
        self.addr() < PHYS_ADDR_LIMIT
    }

    /// The pages touched by the `size` bytes at `ptr`.
    pub open spec fn spanned(ptr: u64, size: usize, range: PageRangeInclusive) -> bool {
        &&& range.first()@ == page_floor(ptr)
        &&& range.last()@ == page_floor((ptr + size - 1) as u64)
    }

    /// Whether `size` bytes of the device can be mapped at `ptr`: the
    /// virtual range is addressable, there is a frame for each of its
    /// pages, and the pointer that is handed out is neither null nor past
    /// the end of the address space.
    pub open spec fn mappable(&self, size: usize, ptr: u64) -> bool {
        &&& self.is_physical()
        &&& range_addressable(ptr, size)
        &&& 0 < ptr + self.offset() <= u64::MAX
        &&& page_floor(self.addr()) + 4096 * ((page_floor((ptr + size - 1) as u64) - page_floor(
            ptr,
        )) / 4096 + 1) <= PHYS_ADDR_LIMIT
    }

    /// Whether the `size` bytes at `ptr` can be unmapped: the range is
    /// addressable and does not start in the page at address 0.
    pub open spec fn unmappable(size: usize, ptr: u64) -> bool {
        &&& range_addressable(ptr, size)
        &&& ptr >= 4096
    }

    /// What an allocation of `size` bytes returns, given what the
    /// allocator of virtual ranges returned: its failure, or the mapping
    /// of the pages that the bytes touch to the frames of the device, with
    /// a pointer as far into the first page as the device lies into its
    /// frame.
    pub open spec fn allocation(
        &self,
        size: usize,
        virt: Result<VirtAddr, AllocError>,
        r: Result<MmioMapping, AllocError>,
    ) -> bool {
        match virt {
            Ok(ptr) => match r {
                Ok(m) => {
                    &&& Self::spanned(ptr@, size, m.pages())
                    &&& m.first_frame()@ == page_floor(self.addr())
                    &&& m.flags() == MMIO_FLAGS
                    &&& m.ptr() == ptr@ + self.offset()
                    &&& m.len() == size
                },
                Err(_) => false,
            },
            Err(_) => r is Err,
        }
    }

    /// An allocator for the device memory at `phys_addr`.
    pub fn new(phys_addr: usize) -> (r: Self)
        ensures
            r.addr() == phys_addr,
    {
        Self { addr: phys_addr as u64 }
    }

    /// An allocator for the device memory at `phys_addr`.
    pub fn new_from_phys_addr(phys_addr: PhysAddr) -> (r: Self)
        ensures
            r.addr() == phys_addr@,
            r.is_physical(),
    {
        Self { addr: phys_addr.as_u64() }
    }

    /// Executable form of [`MmioAlloc::is_physical`].
    pub fn has_phys_addr(&self) -> (r: bool)
        ensures
            r == self.is_physical(),
    {
        self.addr < PHYS_ADDR_LIMIT
    }

    /// The physical address that this allocator stands for.
    pub fn as_phys_addr(&self) -> (r: PhysAddr)
        requires
            self.is_physical(),
        ensures
            r@ == self.addr(),
    {
        PhysAddr::try_new(self.addr).unwrap()
    }

    /// Returns the address of the device within the pages mapped at `ptr`:
    /// as far into its page as the physical address is into its frame.
    pub fn offset_addr(&self, ptr: VirtAddr, len: usize) -> (r: (u64, usize))
        requires
            0 < ptr@ + self.offset() <= u64::MAX,
        ensures
            r.0 == ptr@ + self.offset(),
            r.1 == len,
    {
        let offset: u64 = self.addr % 4096;
        (ptr.as_u64() + offset, len)
    }

    /// The pages that the `size` bytes at `ptr` touch.
    pub fn get_page_range(size: usize, ptr: VirtAddr) -> (r: PageRangeInclusive)
        requires
            range_addressable(ptr@, size),
        ensures
            Self::spanned(ptr@, size, r),
    {
        let first: u64 = ptr.as_u64();
        let last: u64 = if size == 0 {
            first - 1
        } else {
            first + (size as u64 - 1)
        };
        let start = Page::containing_address(ptr);
        let end = Page::containing_address(VirtAddr::try_new(last).unwrap());
        proof {
            assert(same_half(page_floor(first), page_floor(last))) by {
                assert(LOWER_HALF_END % 4096 == 0);
            }
        }
        PageRangeInclusive::new(start, end).unwrap()
    }

    /// Executable form of [`MmioAlloc::mappable`].
    pub fn can_map(&self, size: usize, ptr: VirtAddr) -> (r: bool)
        ensures
            r == self.mappable(size, ptr@),
    {
        let first: u64 = ptr.as_u64();
        if !self.has_phys_addr() || !Self::range_is_addressable(size, ptr) {
            return false;
        }
        let offset: u64 = self.addr % 4096;
        if first == 0 && offset == 0 {
            return false;
        }
        if offset > u64::MAX - first {
            return false;
        }
        let pages = Self::get_page_range(size, ptr);
        let count: u64 = pages.len();
        let frame: u64 = self.addr - offset;
        count <= (PHYS_ADDR_LIMIT - frame) / 4096
    }

    /// Executable form of [`range_addressable`].
    pub fn range_is_addressable(size: usize, ptr: VirtAddr) -> (r: bool)
        ensures
            r == range_addressable(ptr@, size),
    {
        let first: u64 = ptr.as_u64();
        if size == 0 {
            if first == 0 {
                return false;
            }
            let last: u64 = first - 1;
            (last < LOWER_HALF_END || last >= 0xffff_8000_0000_0000) && (first < LOWER_HALF_END)
                == (last < LOWER_HALF_END)
        } else {
            let extra: u64 = size as u64 - 1;
            if extra > u64::MAX - first {
                return false;
            }
            let last: u64 = first + extra;
            (last < LOWER_HALF_END || last >= 0xffff_8000_0000_0000) && (first < LOWER_HALF_END)
                == (last < LOWER_HALF_END)
        }
    }

    /// Executable form of [`MmioAlloc::unmappable`].
    pub fn can_unmap(size: usize, ptr: VirtAddr) -> (r: bool)
        ensures
            r == Self::unmappable(size, ptr@),
    {
        Self::range_is_addressable(size, ptr) && ptr.as_u64() >= 4096
    }

    /// Plans the mapping of `size` bytes of the device, given what the
    /// allocator of virtual ranges returned for the request. Where it
    /// returned a range, every page of the range that the bytes touch is
    /// mapped to the frames of the device in order, and the pointer that
    /// is handed out lies as far into the first page as the device lies
    /// into its frame. Where it failed, the allocation fails.
    pub fn map_at(&self, size: usize, virt: Result<VirtAddr, AllocError>) -> (r: Result<
        MmioMapping,
        AllocError,
    >)
        requires
            virt matches Ok(ptr) ==> self.mappable(size, ptr@),
        ensures
            self.allocation(size, virt, r),
    {
        let ptr = match virt {
            Ok(p) => p,
            Err(e) => {
                return Err(e);
            },
        };
        let pages = Self::get_page_range(size, ptr);
        let first_frame = PhysFrame::containing_address(self.as_phys_addr());
        let out = self.offset_addr(ptr, size);
        Ok(MmioMapping { pages, first_frame, flags: MMIO_FLAGS, ptr: out.0, len: out.1 })
    }

    /// Plans the release of the `size` bytes at `ptr`: the pages that they
    /// touch are unmapped, and the virtual range that starts at the page
    /// boundary at or before `ptr` is given back.
    pub fn unmap_at(&self, ptr: VirtAddr, size: usize) -> (r: MmioUnmapping)
        requires
            Self::unmappable(size, ptr@),
        ensures
            Self::spanned(ptr@, size, r.pages),
            r.base == page_floor(ptr@),
            r.base != 0,
    {
        let pages = Self::get_page_range(size, ptr);
        let base: u64 = Page::containing_address(ptr).as_u64();
        MmioUnmapping { pages, base }
    }

    /// Whether the device has a frame for each page of `size` bytes.
    pub open spec fn device_fits(&self, size: usize) -> bool {
        &&& self.is_physical()
        &&& page_floor(self.addr()) + 4096 * pages_for(size as int) <= PHYS_ADDR_LIMIT
    }

    /// Executable form of [`MmioAlloc::device_fits`].
    pub fn fits(&self, size: usize) -> (r: bool)
        ensures
            r == self.device_fits(size),
    {
        if !self.has_phys_addr() {
            return false;
        }
        let frame: u64 = self.addr - self.addr % 4096;
        VirtualRegionAllocator::page_count(size) <= (PHYS_ADDR_LIMIT - frame) / 4096
    }

    /// Whether `size` bytes that were allocated from `ranges` can be
    /// given back at `ptr`: their range is handed out, and it starts at
    /// the page boundary at or before `ptr`.
    pub open spec fn releasable(ranges: Regions, size: usize, ptr: u64) -> bool {
        &&& Self::unmappable(size, ptr)
        &&& allocated(ranges, page_floor(ptr), pages_for(size as int))
    }

    /// Executable form of [`MmioAlloc::releasable`].
    pub fn can_release(ranges: &VirtualRegionAllocator, size: usize, ptr: VirtAddr) -> (r: bool)
        requires
            ranges.wf(),
        ensures
            r == Self::releasable(ranges@, size, ptr@),
    {
        Self::can_unmap(size, ptr) && ranges.is_allocated(
            Page::containing_address(ptr).start_address(),
            size,
        )
    }

    /// Allocates `size` bytes of the device: takes a virtual range for
    /// them from `ranges`, rounded up to whole pages, and plans the
    /// mapping of its pages to the frames of the device. Fails, and maps
    /// nothing, if no virtual range can be had.
    pub fn allocate(&self, ranges: &mut VirtualRegionAllocator, size: usize) -> (r: Result<
        MmioMapping,
        AllocError,
    >)
        requires
            old(ranges).wf(),
            self.device_fits(size),
        ensures
            final(ranges).wf(),
            final(ranges)@ == crate::mem::virt::allocation(old(ranges)@, pages_for(size as int)).1,
            match crate::mem::virt::allocation(old(ranges)@, pages_for(size as int)).0 {
                Some(base) => {
                    &&& r matches Ok(m)
                    &&& Self::spanned(base, size, m.pages())
                    &&& m.pages().count() == pages_for(size as int)
                    &&& m.first_frame()@ == page_floor(self.addr())
                    &&& m.flags() == MMIO_FLAGS
                    &&& m.ptr() == base + self.offset()
                    &&& m.len() == size
                    &&& page_floor(m.ptr()) == base
                    &&& allocated(final(ranges)@, base, pages_for(size as int))
                },
                None => r is Err,
            },
    {
        let virt = ranges.virt_allocate(size);
        proof {
            if let Ok(p) = virt {
                assert(regions_wf(ranges@));
                if size > 0 {
                    lemma_page_floor_offset(p@ as int, size - 1);
                }
                lemma_page_floor_offset(p@ as int, self.offset());
                assert(range_addressable(p@, size));
                assert(self.mappable(size, p@));
            }
        }
        self.map_at(size, virt)
    }

    /// Gives back the `size` bytes at `ptr`, which were allocated from
    /// `ranges`: plans the unmapping of the pages that they touch, and
    /// hands their virtual range back to `ranges`.
    pub fn deallocate(&self, ranges: &mut VirtualRegionAllocator, ptr: VirtAddr, size: usize) -> (r:
        MmioUnmapping)
        requires
            old(ranges).wf(),
            Self::releasable(old(ranges)@, size, ptr@),
        ensures
            final(ranges).wf(),
            final(ranges)@ == release(old(ranges)@, page_floor(ptr@), pages_for(size as int)),
            Self::spanned(ptr@, size, r.pages),
            r.base == page_floor(ptr@),
    {
        let plan = self.unmap_at(ptr, size);
        ranges.virt_deallocate(Page::containing_address(ptr).start_address(), size);
        plan
    }

    /// Grows an allocation. Device memory holds no data that could be
    /// kept, so the old bytes are given back and `new_size` bytes are
    /// allocated afresh.
    pub fn grow(
        &self,
        ranges: &mut VirtualRegionAllocator,
        ptr: VirtAddr,
        old_size: usize,
        new_size: usize,
    ) -> (r: (MmioUnmapping, Result<MmioMapping, AllocError>))
        requires
            old(ranges).wf(),
            Self::releasable(old(ranges)@, old_size, ptr@),
            self.device_fits(new_size),
        ensures
            final(ranges).wf(),
            Self::resized(old(ranges)@, ptr@, old_size, new_size, final(ranges)@),
            Self::spanned(ptr@, old_size, r.0.pages),
            r.0.base == page_floor(ptr@),
            self.resized_to(old(ranges)@, ptr@, old_size, new_size, r.1),
    {
        let released = self.deallocate(ranges, ptr, old_size);
        let mapped = self.allocate(ranges, new_size);
        (released, mapped)
    }

    /// Shrinks an allocation, which is done as growing is.
    pub fn shrink(
        &self,
        ranges: &mut VirtualRegionAllocator,
        ptr: VirtAddr,
        old_size: usize,
        new_size: usize,
    ) -> (r: (MmioUnmapping, Result<MmioMapping, AllocError>))
        requires
            old(ranges).wf(),
            Self::releasable(old(ranges)@, old_size, ptr@),
            self.device_fits(new_size),
        ensures
            final(ranges).wf(),
            Self::resized(old(ranges)@, ptr@, old_size, new_size, final(ranges)@),
            Self::spanned(ptr@, old_size, r.0.pages),
            r.0.base == page_floor(ptr@),
            self.resized_to(old(ranges)@, ptr@, old_size, new_size, r.1),
    {
        let released = self.deallocate(ranges, ptr, old_size);
        let mapped = self.allocate(ranges, new_size);
        (released, mapped)
    }

    /// What a change of size leaves of the allocator of virtual ranges:
    /// what an allocation of the new size leaves of what giving back the
    /// old range left.
    pub open spec fn resized(
        before: Regions,
        ptr: u64,
        old_size: usize,
        new_size: usize,
        after: Regions,
    ) -> bool {
        let given_back = release(before, page_floor(ptr), pages_for(old_size as int));
        after == crate::mem::virt::allocation(given_back, pages_for(new_size as int)).1
    }

    /// What a change of size returns for the new size: the mapping of the
    /// range that the allocation after the release returned, or failure
    /// if that returned none.
    pub open spec fn resized_to(
        &self,
        before: Regions,
        ptr: u64,
        old_size: usize,
        new_size: usize,
        r: Result<MmioMapping, AllocError>,
    ) -> bool {
        let given_back = release(before, page_floor(ptr), pages_for(old_size as int));
        match crate::mem::virt::allocation(given_back, pages_for(new_size as int)).0 {
            Some(base) => {
                &&& r matches Ok(m)
                &&& Self::spanned(base, new_size, m.pages())
                &&& m.first_frame()@ == page_floor(self.addr())
                &&& m.flags() == MMIO_FLAGS
                &&& m.ptr() == base + self.offset()
                &&& m.len() == new_size
            },
            None => r is Err,
        }
    }

    /// An allocation that is given back with the size it was made with
    /// can be made again, and again: what is given back is the range that
    /// the allocation took, the next allocation of that size takes the
    /// same range, and it leaves the allocator of virtual ranges as the
    /// first one left it. No number of such rounds uses up virtual
    /// address space.
    pub proof fn lemma_allocate_deallocate_cycle(&self, ranges: Regions, size: usize)
        requires
            regions_wf(ranges),
            crate::mem::virt::allocation(ranges, pages_for(size as int)).0.is_some(),
        ensures
            ({
                let n = pages_for(size as int);
                let base = crate::mem::virt::allocation(ranges, n).0.unwrap();
                let taken = crate::mem::virt::allocation(ranges, n).1;
                let ptr = (base + self.offset()) as u64;
                let given_back = release(taken, page_floor(ptr), n);
                &&& page_floor(ptr) == base
                &&& crate::mem::virt::allocation(given_back, n) == (Some(base), taken)
            }),
    {
        let n = pages_for(size as int);
        crate::mem::virt::lemma_allocation_wf(ranges, n);
        lemma_cycle_repeats(ranges, n);
    }

    /// A deallocation gives back the virtual range that the allocation
    /// was made in: where the range `base` was page aligned, `base` is
    /// what comes back.
    pub proof fn lemma_deallocate_returns_range(
        &self,
        size: usize,
        base: u64,
        mapped: MmioMapping,
        unmapped: MmioUnmapping,
    )
        requires
            base % 4096 == 0,
            range_addressable(base, size),
            range_addressable(mapped.ptr(), size),
            mapped.ptr() == base + self.offset(),
            unmapped.base == page_floor(mapped.ptr()),
            Self::spanned(base, size, mapped.pages()),
            Self::spanned(mapped.ptr(), size, unmapped.pages),
        ensures
            unmapped.base == base,
            unmapped.pages.first()@ == mapped.pages().first()@,
            unmapped.pages.last()@ >= mapped.pages().last()@,
    {
        lemma_page_floor_offset(base as int, self.offset());
        if size > 0 {
            lemma_page_floor_offset(base as int, size - 1);
            lemma_page_floor_offset(base as int, self.offset() + size - 1);
            assert((self.offset() + size - 1) / 4096 >= (size - 1) / 4096) by {
                vstd::arithmetic::div_mod::lemma_div_is_ordered(
                    size - 1,
                    self.offset() + size - 1,
                    4096,
                );
            }
        }
    }

    /// Where the device starts at a frame boundary, or its bytes end
    /// before the offset carries them into one page more, a deallocation
    /// unmaps the very pages that the allocation mapped.
    pub proof fn lemma_deallocate_unmaps_what_was_mapped(
        &self,
        size: usize,
        base: u64,
        mapped: MmioMapping,
        unmapped: MmioUnmapping,
    )
        requires
            base % 4096 == 0,
            range_addressable(base, size),
            range_addressable(mapped.ptr(), size),
            size > 0,
            self.offset() + (size - 1) % 4096 < 4096,
            mapped.ptr() == base + self.offset(),
            Self::spanned(base, size, mapped.pages()),
            Self::spanned(mapped.ptr(), size, unmapped.pages),
        ensures
            unmapped.pages.first()@ == mapped.pages().first()@,
            unmapped.pages.last()@ == mapped.pages().last()@,
    {
        lemma_page_floor_offset(base as int, size - 1);
        lemma_page_floor_offset(base as int, self.offset());
        lemma_page_floor_offset(base as int, self.offset() + size - 1);
        assert((self.offset() + size - 1) / 4096 == (size - 1) / 4096) by {
            vstd::arithmetic::div_mod::lemma_fundamental_div_mod(size - 1, 4096);
            vstd::arithmetic::div_mod::lemma_fundamental_div_mod_converse(
                self.offset() + size - 1,
                4096,
                (size - 1) / 4096,
                self.offset() + (size - 1) % 4096,
            );
        }
    }
}

} // verus!
