//! Addresses, pages and frames as plain numbers with their invariants.
//!
//! The arithmetic on them is that of the `x86_64` crate, which is called
//! for it; the types here hold the numbers, so that contracts can speak of
//! them.

use vstd::prelude::*;

verus! {

/// Physical addresses have 52 bits.
pub const PHYS_ADDR_LIMIT: u64 = 0x10_0000_0000_0000;

/// End of the lower half of the virtual address space.
pub const LOWER_HALF_END: u64 = 0x8000_0000_0000;

/// Start of the higher half of the virtual address space.
pub const HIGHER_HALF_START: u64 = 0xffff_8000_0000_0000;

/// What is added to an address with bit 47 set and nothing above it to
/// make it canonical.
pub const SIGN_EXTENSION: u64 = 0xffff_0000_0000_0000;

/// Whether `addr` is canonical: its bits 48 to 63 are copies of bit 47.
pub open spec fn is_canonical(addr: u64) -> bool {
    addr < LOWER_HALF_END || addr >= HIGHER_HALF_START
}

/// The canonical address that `addr` stands for: `addr` itself where it is
/// canonical; its sign extension where bit 47 is set and the bits above
/// are clear; none where the bits above bit 47 hold anything else.
pub open spec fn canonical_form(addr: u64) -> Option<u64> {
    if is_canonical(addr) {
        Some(addr)
    } else if addr < 2 * LOWER_HALF_END {
        Some((addr + SIGN_EXTENSION) as u64)
    } else {
        None
    }
}

/// `addr` rounded down to a multiple of the page size.
pub open spec fn page_floor(addr: u64) -> u64 {
    (addr - addr % 4096) as u64
}

/// Trusted: `x86_64::VirtAddr::try_new` returns the address unchanged when
/// bits 47 to 63 are all clear or all set, the sign extension of bit 47
/// when bit 47 alone is set of them, and an error otherwise.
#[verifier::external_body]
fn virt_addr_try_new(addr: u64) -> (r: Option<u64>)
    ensures
        r == canonical_form(addr),
{
    match x86_64::VirtAddr::try_new(addr) {
        Ok(a) => Some(a.as_u64()),
        Err(_) => None,
    }
}

/// Trusted: `x86_64::PhysAddr::try_new` returns the address unchanged when
/// bits 52 to 63 are clear, and an error otherwise.
#[verifier::external_body]
fn phys_addr_try_new(addr: u64) -> (r: Option<u64>)
    ensures
        r == (if addr < PHYS_ADDR_LIMIT {
            Some(addr)
        } else {
            None
        }),
{
    match x86_64::PhysAddr::try_new(addr) {
        Ok(a) => Some(a.as_u64()),
        Err(_) => None,
    }
}

/// Trusted: `x86_64::structures::paging::Page::containing_address`, for
/// pages of 4 KiB, clears the twelve lowest bits of a canonical address.
#[verifier::external_body]
fn page_containing(addr: u64) -> (r: u64)
    requires
        is_canonical(addr),
    ensures
        r == page_floor(addr),
{
    x86_64::structures::paging::Page::<x86_64::structures::paging::Size4KiB>::containing_address(
        x86_64::VirtAddr::new(addr),
    ).start_address().as_u64()
}

/// Trusted: `x86_64::structures::paging::PhysFrame::containing_address`,
/// for frames of 4 KiB, clears the twelve lowest bits of a physical
/// address.
#[verifier::external_body]
fn frame_containing(addr: u64) -> (r: u64)
    requires
        addr < PHYS_ADDR_LIMIT,
    ensures
        r == page_floor(addr),
{
    x86_64::structures::paging::PhysFrame::<
        x86_64::structures::paging::Size4KiB,
    >::containing_address(x86_64::PhysAddr::new(addr)).start_address().as_u64()
}

/// A physical address: a number below 2^52.
#[derive(Clone, Copy, Debug, PartialEq, Eq, Structural)]
pub struct PhysAddr {
    raw: u64,
}

impl View for PhysAddr {
    type V = u64;

    closed spec fn view(&self) -> u64 {
        self.raw
    }
}

impl PhysAddr {
    #[verifier::type_invariant]
    closed spec fn inv(&self) -> bool {
        self.raw < PHYS_ADDR_LIMIT
    }

    /// The address `addr`, unless it has a bit above bit 51 set.
    pub fn try_new(addr: u64) -> (r: Option<PhysAddr>)
        ensures
            r.is_some() == (addr < PHYS_ADDR_LIMIT),
            r matches Some(p) ==> p@ == addr,
    {
        match phys_addr_try_new(addr) {
            Some(raw) => Some(PhysAddr { raw }),
            None => None,
        }
    }

    /// The address as a number.
    pub fn as_u64(&self) -> (r: u64)
        ensures
            r == self@,
            r < PHYS_ADDR_LIMIT,
    {
        proof {
            use_type_invariant(self);
        }
        self.raw
    }
}

/// A canonical virtual address.
#[derive(Clone, Copy, Debug, PartialEq, Eq, Structural)]
pub struct VirtAddr {
    raw: u64,
}

impl View for VirtAddr {
    type V = u64;

    closed spec fn view(&self) -> u64 {
        self.raw
    }
}

impl VirtAddr {
    #[verifier::type_invariant]
    closed spec fn inv(&self) -> bool {
        is_canonical(self.raw)
    }

    /// The canonical address that `addr` stands for, if there is one.
    pub fn try_new(addr: u64) -> (r: Option<VirtAddr>)
        ensures
            r.is_some() == canonical_form(addr).is_some(),
            r matches Some(v) ==> Some(v@) == canonical_form(addr),
    {
        match virt_addr_try_new(addr) {
            Some(raw) => Some(VirtAddr { raw }),
            None => None,
        }
    }

    /// The address as a number.
    pub fn as_u64(&self) -> (r: u64)
        ensures
            r == self@,
            is_canonical(r),
    {
        proof {
            use_type_invariant(self);
        }
        self.raw
    }
}

/// A page of 4 KiB of virtual memory, known by its first address.
#[derive(Clone, Copy, Debug, PartialEq, Eq, Structural)]
pub struct Page {
    start: u64,
}

impl View for Page {
    type V = u64;

    closed spec fn view(&self) -> u64 {
        self.start
    }
}

impl Page {
    #[verifier::type_invariant]
    closed spec fn inv(&self) -> bool {
        is_canonical(self.start) && self.start % 4096 == 0
    }

    /// The page that `addr` lies in.
    pub fn containing_address(addr: VirtAddr) -> (r: Page)
        ensures
            r@ == page_floor(addr@),
    {
        let start = page_containing(addr.as_u64());
        Page { start }
    }

    /// The first address of the page.
    pub fn start_address(&self) -> (r: VirtAddr)
        ensures
            r@ == self@,
            r@ % 4096 == 0,
    {
        proof {
            use_type_invariant(self);
        }
        VirtAddr { raw: self.start }
    }

    /// The first address of the page as a number.
    pub fn as_u64(&self) -> (r: u64)
        ensures
            r == self@,
            r % 4096 == 0,
            is_canonical(r),
    {
        proof {
            use_type_invariant(self);
        }
        self.start
    }
}

/// Whether two canonical addresses lie in the same half of the address
/// space, so that every address between them is canonical too.
pub open spec fn same_half(a: u64, b: u64) -> bool {
    (a < LOWER_HALF_END) == (b < LOWER_HALF_END)
}

/// The pages from `start` to `end`, both included. There is none where
/// `end` lies before `start`. A range with pages in it lies in one half of
/// the address space.
#[derive(Clone, Copy, Debug, PartialEq, Eq, Structural)]
pub struct PageRangeInclusive {
    start: Page,
    end: Page,
}

impl PageRangeInclusive {
    #[verifier::type_invariant]
    closed spec fn inv(&self) -> bool {
        self.start@ > self.end@ || same_half(self.start@, self.end@)
    }

    /// The start of the range, inclusive.
    pub closed spec fn first(&self) -> Page {
        self.start
    }

    /// The end of the range, inclusive.
    pub closed spec fn last(&self) -> Page {
        self.end
    }

    /// The number of pages in the range.
    pub open spec fn count(&self) -> int {
        if self.first()@ <= self.last()@ {
            (self.last()@ - self.first()@) / 4096 + 1
        } else {
            0
        }
    }

    /// The range from `start` to `end`, unless it would reach from one
    /// half of the address space into the other.
    pub fn new(start: Page, end: Page) -> (r: Option<PageRangeInclusive>)
        ensures
            r.is_some() == (start@ > end@ || same_half(start@, end@)),
            r matches Some(p) ==> p.first() == start && p.last() == end,
    {
        let s: u64 = start.as_u64();
        let e: u64 = end.as_u64();
        if s > e || (s < LOWER_HALF_END) == (e < LOWER_HALF_END) {
            Some(PageRangeInclusive { start, end })
        } else {
            None
        }
    }

    /// The start of the range, inclusive.
    pub fn start(&self) -> (r: Page)
        ensures
            r == self.first(),
    {
        self.start
    }

    /// The end of the range, inclusive.
    pub fn end(&self) -> (r: Page)
        ensures
            r == self.last(),
    {
        self.end
    }

    /// Returns whether this range contains no pages.
    pub fn is_empty(&self) -> (r: bool)
        ensures
            r == (self.count() == 0),
    {
        self.start.as_u64() > self.end.as_u64()
    }

    /// The number of pages in the range.
    pub fn len(&self) -> (r: u64)
        ensures
            r == self.count(),
    {
        let s: u64 = self.start.as_u64();
        let e: u64 = self.end.as_u64();
        if s <= e {
            (e - s) / 4096 + 1
        } else {
            0
        }
    }

    /// The page `i` places after the first.
    pub fn nth(&self, i: u64) -> (r: Option<Page>)
        ensures
            r.is_some() == (i < self.count()),
            r matches Some(p) ==> p@ == self.first()@ + 4096 * i,
    {
        proof {
            use_type_invariant(self);
        }
        if i < self.len() {
            let s: u64 = self.start.as_u64();
            let e: u64 = self.end.as_u64();
            let at: u64 = s + 4096 * i;
            Some(Page { start: at })
        } else {
            None
        }
    }
}

/// A frame of 4 KiB of physical memory, known by its first address.
#[derive(Clone, Copy, Debug, PartialEq, Eq, Structural)]
pub struct PhysFrame {
    start: u64,
}

impl View for PhysFrame {
    type V = u64;

    closed spec fn view(&self) -> u64 {
        self.start
    }
}

impl PhysFrame {
    #[verifier::type_invariant]
    closed spec fn inv(&self) -> bool {
        self.start < PHYS_ADDR_LIMIT && self.start % 4096 == 0
    }

    /// The frame that `addr` lies in.
    pub fn containing_address(addr: PhysAddr) -> (r: PhysFrame)
        ensures
            r@ == page_floor(addr@),
    {
        let start = frame_containing(addr.as_u64());
        PhysFrame { start }
    }

    /// The first address of the frame.
    pub fn start_address(&self) -> (r: PhysAddr)
        ensures
            r@ == self@,
            r@ % 4096 == 0,
    {
        proof {
            use_type_invariant(self);
        }
        PhysAddr { raw: self.start }
    }

    /// The first address of the frame as a number.
    pub fn as_u64(&self) -> (r: u64)
        ensures
            r == self@,
            r % 4096 == 0,
            r < PHYS_ADDR_LIMIT,
    {
        proof {
            use_type_invariant(self);
        }
        self.start
    }
}

} // verus!
