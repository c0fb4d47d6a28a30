//! The allocator of virtual address ranges.
//!
//! It hands out ranges of whole pages from one span of the address space.
//! Ranges that are given back are kept on a list and handed out again
//! before new ground is broken.

use vstd::prelude::*;
use super::addr::is_canonical;
use super::addr::VirtAddr;
use super::addr::HIGHER_HALF_START;
use super::addr::LOWER_HALF_END;
use crate::alloc_interface::AllocError;

verus! {

/// A range of pages that is free to be handed out.
#[derive(Clone, Copy, Debug, PartialEq, Eq, Structural)]
pub struct FreeRange {
    /// Address of the first page.
    pub base: u64,
    /// Number of pages.
    pub pages: u64,
}

/// The state of the allocator as contracts speak of it.
pub struct Regions {
    /// Start of the span that is managed.
    pub start: u64,
    /// End of the span, exclusive.
    pub end: u64,
    /// Start of the part of the span that was never handed out.
    pub next: u64,
    /// The ranges that were given back, the one given back last first.
    pub free: Seq<FreeRange>,
}

/// The address after the last byte of a range.
pub open spec fn range_end(r: FreeRange) -> int {
    r.base + 4096 * r.pages
}

/// Whether two ranges have no byte in common.
pub open spec fn disjoint(a: FreeRange, b: FreeRange) -> bool {
    range_end(a) <= b.base || range_end(b) <= a.base
}

/// Number of pages that `size` bytes take up.
pub open spec fn pages_for(size: int) -> int {
    (size + 4095) / 4096
}

/// What holds of the allocator at all times: the span lies in one half of
/// the address space and not at its very start; the ranges on the list
/// lie in the part of the span that was handed out, and no two of them
/// overlap.
pub open spec fn regions_wf(v: Regions) -> bool {
    &&& v.start % 4096 == 0
    &&& v.next % 4096 == 0
    &&& v.end % 4096 == 0
    &&& 4096 <= v.start <= v.next <= v.end
    &&& ((v.start < LOWER_HALF_END && v.end <= LOWER_HALF_END) || v.start > HIGHER_HALF_START)
    &&& forall|i: int|
        0 <= i < v.free.len() ==> {
            let r = #[trigger] v.free[i];
            &&& r.pages > 0
            &&& r.base % 4096 == 0
            &&& v.start <= r.base
            &&& range_end(r) <= v.next
        }
    &&& forall|i: int, j: int|
        0 <= i < j < v.free.len() ==> disjoint(#[trigger] v.free[i], #[trigger] v.free[j])
}

/// Index of the first range from index `i` on that has `n` pages or more;
/// the length of the list if there is none.
pub open spec fn fit_from(free: Seq<FreeRange>, n: int, i: int) -> int
    decreases free.len() - i,
{
    if i < 0 || i >= free.len() {
        free.len() as int
    } else if free[i].pages >= n {
        i
    } else {
        fit_from(free, n, i + 1)
    }
}

/// What an allocation of `n` pages returns and leaves behind. Nothing is
/// taken for no pages, and the start of the span is returned. Else the
/// pages are taken off the front of the first range of the list that is
/// large enough; if there is none, off the part of the span that was
/// never handed out; and if that is too small, the allocation fails.
pub open spec fn allocation(v: Regions, n: int) -> (Option<u64>, Regions) {
    let i = fit_from(v.free, n, 0);
    if n == 0 {
        (Some(v.start), v)
    } else if i < v.free.len() {
        let r = v.free[i];
        let free = if r.pages == n {
            v.free.remove(i)
        } else {
            v.free.update(
                i,
                FreeRange { base: (r.base + 4096 * n) as u64, pages: (r.pages - n) as u64 },
            )
        };
        (Some(r.base), Regions { free, ..v })
    } else if v.next + 4096 * n <= v.end {
        (Some(v.next), Regions { next: (v.next + 4096 * n) as u64, ..v })
    } else {
        (None, v)
    }
}

/// What giving back `n` pages at `base` leaves behind: the range is put
/// at the front of the list.
pub open spec fn release(v: Regions, base: u64, n: int) -> Regions {
    if n == 0 {
        v
    } else {
        Regions { free: seq![FreeRange { base, pages: n as u64 }] + v.free, ..v }
    }
}

/// Whether the `n` pages at `base` are handed out: they lie in the part
/// of the span that was handed out, and none of them is on the list.
pub open spec fn allocated(v: Regions, base: u64, n: int) -> bool {
    n > 0 ==> {
        &&& n <= u64::MAX
        &&& base % 4096 == 0
        &&& v.start <= base
        &&& base + 4096 * n <= v.next
        &&& forall|i: int|
            0 <= i < v.free.len() ==> disjoint(
                #[trigger] v.free[i],
                FreeRange { base, pages: n as u64 },
            )
    }
}

/// Whether the page at `a` is free: it was never handed out, or it is in
/// a range of the list.
pub open spec fn is_free(v: Regions, a: int) -> bool {
    a % 4096 == 0 && (v.next <= a < v.end || exists|i: int|
        0 <= i < v.free.len() && (#[trigger] v.free[i]).base <= a < range_end(v.free[i]))
}

/// The search for a fit finds the first range that is large enough.
pub proof fn lemma_fit_from(free: Seq<FreeRange>, n: int, i: int)
    requires
        0 <= i <= free.len(),
    ensures
        i <= fit_from(free, n, i) <= free.len(),
        fit_from(free, n, i) < free.len() ==> free[fit_from(free, n, i)].pages >= n,
        forall|k: int| i <= k < fit_from(free, n, i) ==> (#[trigger] free[k]).pages < n,
    decreases free.len() - i,
{
    if i < free.len() && free[i].pages < n {
        lemma_fit_from(free, n, i + 1);
    }
}

/// An allocation leaves the allocator well formed, and what it returns is
/// handed out afterwards.
pub proof fn lemma_allocation_wf(v: Regions, n: int)
    requires
        regions_wf(v),
        0 <= n <= u64::MAX,
    ensures
        regions_wf(allocation(v, n).1),
        allocation(v, n).0 matches Some(base) ==> {
            &&& allocated(allocation(v, n).1, base, n)
            &&& base % 4096 == 0
            &&& v.start <= base
            &&& base + 4096 * n <= v.end
        },
{
    let i = fit_from(v.free, n, 0);
    lemma_fit_from(v.free, n, 0);
    let after = allocation(v, n).1;
    if n > 0 && i < v.free.len() {
        let r = v.free[i];
        if r.pages == n {
            assert forall|a: int, b: int| 0 <= a < b < after.free.len() implies disjoint(
                #[trigger] after.free[a],
                #[trigger] after.free[b],
            ) by {
                let a0 = if a < i {
                    a
                } else {
                    a + 1
                };
                let b0 = if b < i {
                    b
                } else {
                    b + 1
                };
                assert(disjoint(v.free[a0], v.free[b0]));
            }
            assert forall|k: int| 0 <= k < after.free.len() implies disjoint(
                #[trigger] after.free[k],
                FreeRange { base: r.base, pages: n as u64 },
            ) by {
                let k0 = if k < i {
                    k
                } else {
                    k + 1
                };
                assert(disjoint(v.free[k0], v.free[i]) || disjoint(v.free[i], v.free[k0]));
            }
            assert forall|k: int| 0 <= k < after.free.len() implies {
                let q = #[trigger] after.free[k];
                &&& q.pages > 0
                &&& q.base % 4096 == 0
                &&& v.start <= q.base
                &&& range_end(q) <= v.next
            } by {
                let k0 = if k < i {
                    k
                } else {
                    k + 1
                };
                assert(after.free[k] == v.free[k0]);
            }
        } else {
            let rest = FreeRange { base: (r.base + 4096 * n) as u64, pages: (r.pages - n) as u64 };
            assert(after.free[i] == rest);
            assert forall|a: int, b: int| 0 <= a < b < after.free.len() implies disjoint(
                #[trigger] after.free[a],
                #[trigger] after.free[b],
            ) by {
                assert(disjoint(v.free[a], v.free[b]));
            }
            assert forall|k: int| 0 <= k < after.free.len() implies disjoint(
                #[trigger] after.free[k],
                FreeRange { base: r.base, pages: n as u64 },
            ) by {
                if k != i {
                    assert(disjoint(v.free[k], v.free[i]) || disjoint(v.free[i], v.free[k]));
                }
            }
            assert forall|k: int| 0 <= k < after.free.len() implies {
                let q = #[trigger] after.free[k];
                &&& q.pages > 0
                &&& q.base % 4096 == 0
                &&& v.start <= q.base
                &&& range_end(q) <= v.next
            } by {
                if k != i {
                    assert(after.free[k] == v.free[k]);
                }
            }
        }
    } else if n > 0 && v.next + 4096 * n <= v.end {
        assert forall|k: int| 0 <= k < after.free.len() implies disjoint(
            #[trigger] after.free[k],
            FreeRange { base: v.next, pages: n as u64 },
        ) by {
            assert(range_end(v.free[k]) <= v.next);
        }
    }
}

/// Giving back a range that is handed out leaves the allocator well
/// formed.
pub proof fn lemma_release_wf(v: Regions, base: u64, n: int)
    requires
        regions_wf(v),
        0 <= n,
        allocated(v, base, n),
    ensures
        regions_wf(release(v, base, n)),
{
    if n > 0 {
        let after = release(v, base, n);
        assert forall|a: int, b: int| 0 <= a < b < after.free.len() implies disjoint(
            #[trigger] after.free[a],
            #[trigger] after.free[b],
        ) by {
            if a == 0 {
                assert(after.free[b] == v.free[b - 1]);
            } else {
                assert(after.free[a] == v.free[a - 1]);
                assert(after.free[b] == v.free[b - 1]);
            }
        }
        assert forall|k: int| 0 <= k < after.free.len() implies {
            let q = #[trigger] after.free[k];
            &&& q.pages > 0
            &&& q.base % 4096 == 0
            &&& v.start <= q.base
            &&& range_end(q) <= v.next
        } by {
            if k > 0 {
                assert(after.free[k] == v.free[k - 1]);
            }
        }
    }
}

/// A range that was just given back is what the next allocation of the
/// same size returns, and that allocation leaves the allocator as the
/// one before it did. So a range can be allocated and given back as
/// often as one likes: after the first round the allocator moves between
/// the same two states, and no round can fail.
pub proof fn lemma_cycle_repeats(v: Regions, n: int)
    requires
        regions_wf(v),
        0 <= n <= u64::MAX,
        allocation(v, n).0.is_some(),
    ensures
        ({
            let base = allocation(v, n).0.unwrap();
            let taken = allocation(v, n).1;
            let given_back = release(taken, base, n);
            allocation(given_back, n) == (Some(base), taken)
        }),
{
    let base = allocation(v, n).0.unwrap();
    let taken = allocation(v, n).1;
    let given_back = release(taken, base, n);
    if n > 0 {
        assert(given_back.free[0] == FreeRange { base, pages: n as u64 });
        assert(fit_from(given_back.free, n, 0) == 0);
        assert(given_back.free.remove(0) =~= taken.free);
    }
}

/// An allocation followed by giving back what it returned loses no page:
/// the pages that were free before are free afterwards, and no others.
pub proof fn lemma_cycle_keeps_free_pages(v: Regions, n: int, a: int)
    requires
        regions_wf(v),
        0 <= n <= u64::MAX,
        allocation(v, n).0.is_some(),
    ensures
        ({
            let base = allocation(v, n).0.unwrap();
            let given_back = release(allocation(v, n).1, base, n);
            is_free(given_back, a) == is_free(v, a)
        }),
{
    let i = fit_from(v.free, n, 0);
    lemma_fit_from(v.free, n, 0);
    let base = allocation(v, n).0.unwrap();
    let taken = allocation(v, n).1;
    let w = release(taken, base, n);
    if n > 0 && a % 4096 == 0 {
        let back = FreeRange { base, pages: n as u64 };
        assert(w.free[0] == back);
        if i < v.free.len() {
            let r = v.free[i];
            if is_free(v, a) && !(v.next <= a < v.end) {
                let k = choose|k: int|
                    0 <= k < v.free.len() && (#[trigger] v.free[k]).base <= a < range_end(
                        v.free[k],
                    );
                if k == i {
                    if a < base + 4096 * n {
                        assert(w.free[0].base <= a < range_end(w.free[0]));
                    } else {
                        assert(r.pages != n);
                        assert(w.free[i + 1] == taken.free[i]);
                        assert(w.free[i + 1].base <= a < range_end(w.free[i + 1]));
                    }
                } else if r.pages == n {
                    let k1 = if k < i {
                        k + 1
                    } else {
                        k
                    };
                    assert(w.free[k1] == v.free[k]);
                    assert(w.free[k1].base <= a < range_end(w.free[k1]));
                } else {
                    assert(w.free[k + 1] == v.free[k]);
                    assert(w.free[k + 1].base <= a < range_end(w.free[k + 1]));
                }
            }
            if is_free(w, a) && !(w.next <= a < w.end) {
                let k = choose|k: int|
                    0 <= k < w.free.len() && (#[trigger] w.free[k]).base <= a < range_end(
                        w.free[k],
                    );
                if k == 0 {
                    assert(v.free[i].base <= a < range_end(v.free[i]));
                } else if r.pages == n {
                    let k0 = if k - 1 < i {
                        k - 1
                    } else {
                        k
                    };
                    assert(w.free[k] == v.free[k0]);
                    assert(v.free[k0].base <= a < range_end(v.free[k0]));
                } else if k - 1 == i {
                    assert(v.free[i].base <= a < range_end(v.free[i]));
                } else {
                    assert(w.free[k] == v.free[k - 1]);
                    assert(v.free[k - 1].base <= a < range_end(v.free[k - 1]));
                }
            }
        } else {
            if is_free(v, a) && !(v.next <= a < v.end) {
                let k = choose|k: int|
                    0 <= k < v.free.len() && (#[trigger] v.free[k]).base <= a < range_end(
                        v.free[k],
                    );
                assert(w.free[k + 1] == v.free[k]);
                assert(w.free[k + 1].base <= a < range_end(w.free[k + 1]));
            }
            if is_free(v, a) && v.next <= a < v.end && a < w.next {
                assert(w.free[0].base <= a < range_end(w.free[0]));
            }
            if is_free(w, a) && !(w.next <= a < w.end) {
                let k = choose|k: int|
                    0 <= k < w.free.len() && (#[trigger] w.free[k]).base <= a < range_end(
                        w.free[k],
                    );
                if k > 0 {
                    assert(w.free[k] == v.free[k - 1]);
                    assert(v.free[k - 1].base <= a < range_end(v.free[k - 1]));
                }
            }
        }
    }
}

/// Hands out ranges of whole pages of virtual addresses.
pub struct VirtualRegionAllocator {
    start: u64,
    end: u64,
    next: u64,
    free: Vec<FreeRange>,
}

impl View for VirtualRegionAllocator {
    type V = Regions;

    closed spec fn view(&self) -> Regions {
        Regions { start: self.start, end: self.end, next: self.next, free: self.free@ }
    }
}

impl VirtualRegionAllocator {
    /// What holds of the allocator at all times.
    pub open spec fn wf(&self) -> bool {
        regions_wf(self@)
    }

    /// Whether `start` and `end` bound a span that can be managed: both
    /// are page aligned, the span lies in one half of the address space,
    /// and it starts neither in the first page nor at the very start of
    /// the higher half.
    pub open spec fn valid_span(start: u64, end: u64) -> bool {
        &&& start % 4096 == 0
        &&& end % 4096 == 0
        &&& 4096 <= start <= end
        &&& ((start < LOWER_HALF_END && end <= LOWER_HALF_END) || start > HIGHER_HALF_START)
    }

    /// An allocator for the span from `start` up to `end`, of which
    /// nothing is handed out. `None` if the span cannot be managed.
    pub fn new(start: u64, end: u64) -> (r: Option<Self>)
        ensures
            r.is_some() == Self::valid_span(start, end),
            r matches Some(a) ==> a.wf() && a@ == (Regions {
                start,
                end,
                next: start,
                free: Seq::empty(),
            }),
    {
        if start % 4096 == 0 && end % 4096 == 0 && 4096 <= start && start <= end && ((start
            < LOWER_HALF_END && end <= LOWER_HALF_END) || start > HIGHER_HALF_START) {
            Some(VirtualRegionAllocator { start, end, next: start, free: Vec::new() })
        } else {
            None
        }
    }

    /// Number of pages that `size` bytes take up.
    pub fn page_count(size: usize) -> (n: u64)
        ensures
            n == pages_for(size as int),
    {
        let whole: u64 = (size / 4096) as u64;
        if size % 4096 == 0 {
            whole
        } else {
            whole + 1
        }
    }

    /// Hands out a range for `size` bytes, rounded up to whole pages. The
    /// range starts at a page boundary. Fails if no range on the list is
    /// large enough and what is left of the span is not either.
    pub fn virt_allocate(&mut self, size: usize) -> (r: Result<VirtAddr, AllocError>)
        requires
            old(self).wf(),
        ensures
            final(self).wf(),
            final(self)@ == allocation(old(self)@, pages_for(size as int)).1,
            r is Ok == allocation(old(self)@, pages_for(size as int)).0.is_some(),
            r matches Ok(p) ==> {
                &&& Some(p@) == allocation(old(self)@, pages_for(size as int)).0
                &&& p@ % 4096 == 0
                &&& old(self)@.start <= p@
                &&& p@ + 4096 * pages_for(size as int) <= old(self)@.end
                &&& allocated(final(self)@, p@, pages_for(size as int))
            },
    {
        let n: u64 = Self::page_count(size);
        proof {
            lemma_allocation_wf(self@, n as int);
            lemma_fit_from(self.free@, n as int, 0);
        }
        if n == 0 {
            return Ok(Self::address(self.start));
        }
        let mut i: usize = 0;
        while i < self.free.len() && self.free[i].pages < n
            invariant
                i <= self.free.len(),
                fit_from(self.free@, n as int, 0) == fit_from(self.free@, n as int, i as int),
                self.free == old(self).free,
            decreases self.free.len() - i,
        {
            i += 1;
        }
        if i < self.free.len() {
            let r = self.free[i];
            proof {
                assert(r == self@.free[i as int]);
                assert(range_end(r) <= self@.next);
            }
            if r.pages == n {
                let taken = self.free.remove(i);
            } else {
                self.free.set(i, FreeRange { base: r.base + 4096 * n, pages: r.pages - n });
            }
            Ok(Self::address(r.base))
        } else if n <= (self.end - self.next) / 4096 {
            let base: u64 = self.next;
            self.next = self.next + 4096 * n;
            Ok(Self::address(base))
        } else {
            Err(AllocError)
        }
    }

    fn address(raw: u64) -> (r: VirtAddr)
        requires
            is_canonical(raw),
        ensures
            r@ == raw,
    {
        VirtAddr::try_new(raw).unwrap()
    }

    /// Whether the range for `size` bytes at `ptr` is handed out.
    pub open spec fn holds(&self, ptr: u64, size: usize) -> bool {
        allocated(self@, ptr, pages_for(size as int))
    }

    /// Executable form of [`VirtualRegionAllocator::holds`].
    pub fn is_allocated(&self, ptr: VirtAddr, size: usize) -> (r: bool)
        requires
            self.wf(),
        ensures
            r == self.holds(ptr@, size),
    {
        let n: u64 = Self::page_count(size);
        let base: u64 = ptr.as_u64();
        if n == 0 {
            return true;
        }
        if base % 4096 != 0 || base < self.start || base > self.next || n > (self.next - base)
            / 4096 {
            return false;
        }
        let end: u64 = base + 4096 * n;
        let mut i: usize = 0;
        while i < self.free.len()
            invariant
                i <= self.free.len(),
                self.wf(),
                n > 0,
                n == pages_for(size as int),
                base == ptr@,
                base % 4096 == 0,
                self@.start <= base,
                end <= self@.next,
                end == base + 4096 * n,
                forall|k: int|
                    0 <= k < i ==> disjoint(
                        #[trigger] self.free@[k],
                        FreeRange { base, pages: n },
                    ),
            decreases self.free.len() - i,
        {
            let r = self.free[i];
            proof {
                assert(r == self@.free[i as int]);
                assert(range_end(r) <= self@.next);
            }
            let r_end: u64 = r.base + 4096 * r.pages;
            if !(r_end <= base || end <= r.base) {
                proof {
                    assert(!disjoint(self@.free[i as int], FreeRange { base, pages: n }));
                }
                return false;
            }
            i += 1;
        }
        true
    }

    /// Takes back the range for `size` bytes at `ptr`, which must be
    /// handed out. It is the first to be handed out again.
    pub fn virt_deallocate(&mut self, ptr: VirtAddr, size: usize)
        requires
            old(self).wf(),
            old(self).holds(ptr@, size),
        ensures
            final(self).wf(),
            final(self)@ == release(old(self)@, ptr@, pages_for(size as int)),
    {
        let n: u64 = Self::page_count(size);
        proof {
            lemma_release_wf(self@, ptr@, n as int);
        }
        if n != 0 {
            self.free.insert(0, FreeRange { base: ptr.as_u64(), pages: n });
            proof {
                assert(self.free@ =~= seq![FreeRange { base: ptr@, pages: n }] + old(self).free@);
            }
        }
    }
}

} // verus!
