//! Walking the virtual address space page by page and table by table.

use vstd::prelude::*;
use super::addr::canonical_form;
use super::addr::page_floor;
use super::addr::Page;
use super::addr::VirtAddr;

verus! {

/// Number of entries in a page table.
pub const PAGE_TABLE_ENTRIES: u32 = 512;

/// Bytes that one entry of a level 2 table maps.
pub const L2_SPAN: u64 = 0x20_0000;

/// Bytes that one entry of a level 3 table maps.
pub const L3_SPAN: u64 = 0x4000_0000;

/// Bytes that one entry of a level 4 table maps.
pub const L4_SPAN: u64 = 0x80_0000_0000;

/// Bytes that one entry of a level 1 table maps.
pub const L1_SPAN: u64 = 0x1000;

/// The level of the table whose entry maps a page: the higher the level,
/// the larger the page.
#[derive(Clone, Copy, Debug, PartialEq, Eq, Structural)]
pub enum PageSizeLevel {
    L3,
    L2,
    L1,
}

impl PageSizeLevel {
    /// The number of pages of 4 KiB that make up a page of this level.
    pub open spec fn pages(self) -> int {
        match self {
            PageSizeLevel::L3 => 262144,
            PageSizeLevel::L2 => 512,
            PageSizeLevel::L1 => 1,
        }
    }

    /// The number of pages of 4 KiB that make up a page of this level.
    pub fn num_4k_pages(&self) -> (r: u32)
        ensures
            r == self.pages(),
    {
        match self {
            PageSizeLevel::L3 => PAGE_TABLE_ENTRIES * PAGE_TABLE_ENTRIES,
            PageSizeLevel::L2 => PAGE_TABLE_ENTRIES,
            PageSizeLevel::L1 => 1,
        }
    }
}

/// The page that lies `delta` bytes after `start`, where those bytes lead
/// to an address: the sum does not overflow and is canonical, or becomes
/// so by sign extension.
pub open spec fn page_after(start: u64, delta: u64) -> Option<u64> {
    if start + delta <= u64::MAX {
        match canonical_form((start + delta) as u64) {
            Some(a) => Some(page_floor(a)),
            None => None,
        }
    } else {
        None
    }
}

/// The page that lies `delta` bytes before `start`, where there is one.
pub open spec fn page_before(start: u64, delta: u64) -> Option<u64> {
    if start >= delta {
        match canonical_form((start - delta) as u64) {
            Some(a) => Some(page_floor(a)),
            None => None,
        }
    } else {
        None
    }
}

/// Walks the pages from `start` up to `end`.
#[derive(Clone, Copy, Debug, PartialEq, Eq, Structural)]
pub struct PageIterator {
    pub start: Page,
    pub end: Page,
}

impl PageIterator {
    fn forward(&mut self, delta: u64)
        requires
            page_after(old(self).start@, delta).is_some(),
        ensures
            Some(final(self).start@) == page_after(old(self).start@, delta),
            final(self).end == old(self).end,
    {
        let at: u64 = self.start.as_u64() + delta;
        let n = Page::containing_address(VirtAddr::try_new(at).unwrap());
        self.start = n;
    }

    /// Whether [`PageIterator::skip_l2`] can be called.
    pub fn can_skip_l2(&self) -> (r: bool)
        ensures
            r == page_after(self.start@, L2_SPAN).is_some(),
    {
        Self::reachable(self.start, L2_SPAN)
    }

    /// Whether [`PageIterator::skip_l3`] can be called.
    pub fn can_skip_l3(&self) -> (r: bool)
        ensures
            r == page_after(self.start@, L3_SPAN).is_some(),
    {
        Self::reachable(self.start, L3_SPAN)
    }

    /// Whether [`PageIterator::skip_l4`] can be called.
    pub fn can_skip_l4(&self) -> (r: bool)
        ensures
            r == page_after(self.start@, L4_SPAN).is_some(),
    {
        Self::reachable(self.start, L4_SPAN)
    }

    /// Whether [`PageIterator::step_back`] can be called.
    pub fn can_step_back(&self) -> (r: bool)
        ensures
            r == page_before(self.start@, L1_SPAN).is_some(),
    {
        let s: u64 = self.start.as_u64();
        s >= L1_SPAN && VirtAddr::try_new(s - L1_SPAN).is_some()
    }

    fn reachable(start: Page, delta: u64) -> (r: bool)
        ensures
            r == page_after(start@, delta).is_some(),
    {
        let s: u64 = start.as_u64();
        if delta > u64::MAX - s {
            false
        } else {
            VirtAddr::try_new(s + delta).is_some()
        }
    }

    /// Skips to the page that the next entry of the level 2 table maps,
    /// as if `next` had not been called.
    pub fn skip_l2(&mut self)
        requires
            page_after(old(self).start@, L2_SPAN).is_some(),
        ensures
            Some(final(self).start@) == page_after(old(self).start@, L2_SPAN),
            final(self).end == old(self).end,
    {
        self.forward(L2_SPAN)
    }

    /// Skips to the page that the next entry of the level 3 table maps.
    pub fn skip_l3(&mut self)
        requires
            page_after(old(self).start@, L3_SPAN).is_some(),
        ensures
            Some(final(self).start@) == page_after(old(self).start@, L3_SPAN),
            final(self).end == old(self).end,
    {
        self.forward(L3_SPAN)
    }

    /// Skips to the page that the next entry of the level 4 table maps.
    pub fn skip_l4(&mut self)
        requires
            page_after(old(self).start@, L4_SPAN).is_some(),
        ensures
            Some(final(self).start@) == page_after(old(self).start@, L4_SPAN),
            final(self).end == old(self).end,
    {
        self.forward(L4_SPAN)
    }

    /// Goes back by one page.
    pub fn step_back(&mut self)
        requires
            page_before(old(self).start@, L1_SPAN).is_some(),
        ensures
            Some(final(self).start@) == page_before(old(self).start@, L1_SPAN),
            final(self).end == old(self).end,
    {
        let at: u64 = self.start.as_u64() - L1_SPAN;
        let n = Page::containing_address(VirtAddr::try_new(at).unwrap());
        self.start = n;
    }

    /// Hands out the current page and moves to the one after it, as long
    /// as there is one after it that is not past `end`.
    pub fn next(&mut self) -> (r: Option<Page>)
        ensures
            final(self).end == old(self).end,
            match page_after(old(self).start@, L1_SPAN) {
                Some(n) if n <= old(self).end@ => r == Some(old(self).start) && final(self).start@
                    == n,
                _ => r.is_none() && final(self).start == old(self).start,
            },
    {
        let old_start = self.start;
        let addr: u64 = old_start.as_u64();
        if addr > u64::MAX - L1_SPAN {
            return None;
        }
        let new = Page::containing_address(VirtAddr::try_new(addr + L1_SPAN).unwrap());
        if new.as_u64() > self.end.as_u64() {
            None
        } else {
            self.start = new;
            Some(old_start)
        }
    }
}

/// The address that the given indices into the four levels of page tables
/// lead to, before sign extension.
pub open spec fn indexed_addr(l4: int, l3: int, l2: int, l1: int) -> int {
    l1 * 0x1000 + l2 * 0x20_0000 + l3 * 0x4000_0000 + l4 * 0x80_0000_0000
}

/// The address that the given indices into the four levels of page tables
/// lead to, before sign extension.
pub fn addr_from_indices(l4: usize, l3: usize, l2: usize, l1: usize) -> (r: u64)
    requires
        l1 < 512,
        l2 < 512,
        l3 < 512,
        l4 < 512,
    ensures
        r == indexed_addr(l4 as int, l3 as int, l2 as int, l1 as int),
        r < 0x1_0000_0000_0000,
        r % 4096 == 0,
{
    (l1 as u64) * 0x1000 + (l2 as u64) * 0x20_0000 + (l3 as u64) * 0x4000_0000 + (l4 as u64)
        * 0x80_0000_0000
}

} // verus!
