//! Buffers that are handed to hardware for direct memory access.
//!
//! A [`DmaRegion`] says where a buffer lies in physical memory. A
//! [`PhysicalRegionDescriber`] cuts it into the physically contiguous
//! chunks that a scatter-gather table is built from.

use vstd::prelude::*;
use super::addr::PHYS_ADDR_LIMIT;
use super::sealed::Sealed;
use super::PAGE_SIZE;

verus! {

/// Number of pages that a buffer touches which starts `offset` bytes into
/// a page and is `len` bytes long.
pub open spec fn pages_spanned(offset: int, len: int) -> int {
    if len == 0 {
        0
    } else {
        (offset + len - 1) / 4096 + 1
    }
}

/// Describes a contiguous region of physical memory.
///
/// This is used for building scatter-gather tables.
#[derive(Clone, Copy, Debug, PartialEq, Eq, Structural)]
pub struct PhysicalRegionDescription {
    /// Starting physical address of the region.
    pub addr: u64,
    /// Length in bytes.
    pub size: usize,
}

/// Where a buffer lies: the offset of its first byte within its first
/// page, its length, and the physical address of the frame behind each
/// page that it touches, in order.
pub struct DmaRegion {
    offset: usize,
    len: usize,
    frames: Vec<u64>,
}

impl DmaRegion {
    /// Offset of the first byte within its page.
    pub closed spec fn offset(&self) -> int {
        self.offset as int
    }

    /// Length of the buffer in bytes.
    pub closed spec fn len(&self) -> int {
        self.len as int
    }

    /// The frame behind each page of the buffer.
    pub closed spec fn frames(&self) -> Seq<u64> {
        self.frames@
    }

    /// What [`DmaRegion::new`] demands of its arguments.
    pub open spec fn valid_parts(vaddr: usize, len: usize, frames: Seq<u64>) -> bool {
        &&& vaddr + len <= usize::MAX
        &&& frames.len() == pages_spanned((vaddr % 4096) as int, len as int)
        &&& forall|k: int|
            0 <= k < frames.len() ==> #[trigger] frames[k] % 4096 == 0 && frames[k]
                < PHYS_ADDR_LIMIT
    }

    /// The invariant of a region.
    pub open spec fn wf(&self) -> bool {
        &&& 0 <= self.offset() < 4096
        &&& self.offset() + self.len() <= usize::MAX
        &&& self.frames().len() == pages_spanned(self.offset(), self.len())
        &&& forall|k: int|
            0 <= k < self.frames().len() ==> #[trigger] self.frames()[k] % 4096 == 0
                && self.frames()[k] < PHYS_ADDR_LIMIT
    }

    #[verifier::type_invariant]
    closed spec fn inv(&self) -> bool {
        self.wf()
    }

    /// The physical address of byte `i` of the buffer.
    pub open spec fn phys_of(&self, i: int) -> int {
        self.frames()[(self.offset() + i) / 4096] + (self.offset() + i) % 4096
    }

    /// Whether the bytes from `from` up to `to` lie one after the other in
    /// physical memory.
    pub open spec fn contiguous(&self, from: int, to: int) -> bool {
        forall|j: int| from <= j < to ==> #[trigger] self.phys_of(j) == self.phys_of(from) + (j - from)
    }

    /// Whether `size` bytes from `from` on are a chunk: a run of bytes
    /// that is physically contiguous, and that ends with the buffer or
    /// where the next byte lies elsewhere.
    pub open spec fn is_chunk(&self, from: int, size: int) -> bool {
        &&& 0 <= from
        &&& 0 < size
        &&& from + size <= self.len()
        &&& self.contiguous(from, from + size)
        &&& (from + size == self.len() || self.phys_of(from + size) != self.phys_of(from) + size)
    }

    /// Describes the buffer of `len` bytes at the virtual address `vaddr`,
    /// given the start address of the frame behind each of its pages.
    /// Returns `None` unless there is one frame for each page, each of
    /// them page aligned and below the limit of physical addresses.
    pub fn new(vaddr: usize, len: usize, frames: Vec<u64>) -> (r: Option<DmaRegion>)
        ensures
            r.is_some() == Self::valid_parts(vaddr, len, frames@),
            r.is_some() ==> {
                &&& r.unwrap().wf()
                &&& r.unwrap().offset() == vaddr % 4096
                &&& r.unwrap().len() == len
                &&& r.unwrap().frames() == frames@
            },
    {
        let offset: usize = vaddr % PAGE_SIZE;
        if len > usize::MAX - vaddr {
            return None;
        }
        let pages: usize = if len == 0 {
            0
        } else {
            (offset + len - 1) / PAGE_SIZE + 1
        };
        if frames.len() != pages {
            return None;
        }
        let mut k: usize = 0;
        while k < frames.len()
            invariant
                k <= frames.len(),
                forall|i: int|
                    0 <= i < k ==> #[trigger] frames@[i] % 4096 == 0 && frames@[i]
                        < PHYS_ADDR_LIMIT,
            decreases frames.len() - k,
        {
            if frames[k] % 4096 != 0 || frames[k] >= PHYS_ADDR_LIMIT {
                return None;
            }
            k += 1;
        }
        Some(DmaRegion { offset, len, frames })
    }

    /// Length of the buffer in bytes.
    pub fn size(&self) -> (r: usize)
        ensures
            r == self.len(),
    {
        self.len
    }

    /// Offset of the first byte within its page.
    pub fn page_offset(&self) -> (r: usize)
        ensures
            r == self.offset(),
    {
        self.offset
    }

    /// The physical address of byte `i`.
    pub fn translate(&self, i: usize) -> (r: Option<u64>)
        ensures
            self.wf(),
            r.is_some() == (i < self.len()),
            r.is_some() ==> r.unwrap() == self.phys_of(i as int),
    {
        proof {
            use_type_invariant(self);
        }
        if i < self.len {
            let at: usize = self.offset + i;
            Some(self.frames[at / PAGE_SIZE] + (at % PAGE_SIZE) as u64)
        } else {
            None
        }
    }

    /// Whether two regions describe the same place.
    pub open spec fn same_as(&self, other: &DmaRegion) -> bool {
        &&& self.offset() == other.offset()
        &&& self.len() == other.len()
        &&& self.frames() == other.frames()
    }

    /// Executable form of [`DmaRegion::same_as`].
    pub fn is_same(&self, other: &DmaRegion) -> (r: bool)
        ensures
            r == self.same_as(other),
    {
        if self.offset != other.offset || self.len != other.len || self.frames.len()
            != other.frames.len() {
            return false;
        }
        let mut k: usize = 0;
        while k < self.frames.len()
            invariant
                k <= self.frames.len(),
                self.frames.len() == other.frames.len(),
                forall|i: int| 0 <= i < k ==> self.frames@[i] == other.frames@[i],
            decreases self.frames.len() - k,
        {
            if self.frames[k] != other.frames[k] {
                return false;
            }
            k += 1;
        }
        assert(self.frames@ =~= other.frames@);
        true
    }

    /// A copy of the region.
    pub fn duplicate(&self) -> (r: DmaRegion)
        ensures
            r.wf(),
            r.same_as(self),
    {
        proof {
            use_type_invariant(self);
        }
        DmaRegion { offset: self.offset, len: self.len, frames: self.frames.clone() }
    }

    /// A chunk cannot end in the middle of a page: where it ends before
    /// the buffer does, the next byte is the first of a page.
    pub proof fn lemma_chunk_ends_at_page(&self, from: int, size: int)
        requires
            self.wf(),
            self.is_chunk(from, size),
            from + size < self.len(),
        ensures
            (self.offset() + from + size) % 4096 == 0,
    {
        // the last byte of the chunk and the byte after it lie in one page
        // unless the latter starts a page, and bytes of one page are contiguous
        let e = from + size;
        assert(self.phys_of(e - 1) == self.phys_of(from) + (e - 1 - from));
        assert((self.offset() + e) % 4096 != 0 ==> (self.offset() + e - 1) / 4096 == (self.offset()
            + e) / 4096 && (self.offset() + e - 1) % 4096 + 1 == (self.offset() + e) % 4096);
    }

    /// From a given byte on there is only one chunk.
    pub proof fn lemma_chunk_unique(&self, from: int, a: int, b: int)
        requires
            self.is_chunk(from, a),
            self.is_chunk(from, b),
        ensures
            a == b,
    {
        if a < b {
            assert(self.phys_of(from + a) == self.phys_of(from) + (from + a - from));
        } else if b < a {
            assert(self.phys_of(from + b) == self.phys_of(from) + (from + b - from));
        }
    }
}

/// The chunks `chunks`, laid end to end, are exactly the chunks of
/// `region` from byte `from` up to byte `to`.
pub open spec fn covers(
    region: &DmaRegion,
    chunks: Seq<PhysicalRegionDescription>,
    from: int,
    to: int,
) -> bool
    decreases chunks.len(),
{
    if chunks.len() == 0 {
        from == to
    } else {
        let last = chunks.last();
        &&& last.addr == region.phys_of(to - last.size)
        &&& region.is_chunk(to - last.size, last.size as int)
        &&& covers(region, chunks.drop_last(), from, to - last.size)
    }
}

/// The sizes of `chunks` added up.
pub open spec fn total_size(chunks: Seq<PhysicalRegionDescription>) -> int
    decreases chunks.len(),
{
    if chunks.len() == 0 {
        0
    } else {
        total_size(chunks.drop_last()) + chunks.last().size
    }
}

/// Chunks that cover a range of the buffer are as long, taken together, as
/// the range.
pub proof fn lemma_covers_total_size(
    region: &DmaRegion,
    chunks: Seq<PhysicalRegionDescription>,
    from: int,
    to: int,
)
    requires
        covers(region, chunks, from, to),
    ensures
        total_size(chunks) == to - from,
    decreases chunks.len(),
{
    if chunks.len() > 0 {
        lemma_covers_total_size(region, chunks.drop_last(), from, to - chunks.last().size);
    }
}

/// The chunks of a whole buffer: their sizes add up to the length of the
/// buffer, each starts where the one before it ended, each is physically
/// contiguous, and between two of them physical contiguity breaks at a
/// page boundary.
pub proof fn lemma_description_of_buffer(
    region: &DmaRegion,
    chunks: Seq<PhysicalRegionDescription>,
    k: int,
)
    requires
        region.wf(),
        covers(region, chunks, 0, region.len()),
        0 <= k < chunks.len(),
    ensures
        total_size(chunks) == region.len(),
        total_size(chunks.take(k)) + chunks[k].size <= region.len(),
        chunks[k].addr == region.phys_of(total_size(chunks.take(k))),
        region.is_chunk(total_size(chunks.take(k)), chunks[k].size as int),
        k + 1 < chunks.len() ==> (region.offset() + total_size(chunks.take(k + 1))) % 4096 == 0,
        k + 1 < chunks.len() ==> chunks[k + 1].addr != chunks[k].addr + chunks[k].size,
{
    lemma_covers_total_size(region, chunks, 0, region.len());
    lemma_covers_prefix(region, chunks, 0, region.len(), k + 1);
    let head = chunks.take(k + 1);
    let end = total_size(head);
    assert(head.drop_last() =~= chunks.take(k));
    assert(head.last() == chunks[k]);
    lemma_covers_total_size(region, chunks.take(k), 0, end - chunks[k].size);
    if k + 1 < chunks.len() {
        lemma_covers_prefix(region, chunks, 0, region.len(), k + 2);
        let head2 = chunks.take(k + 2);
        assert(head2.drop_last() =~= head);
        assert(head2.last() == chunks[k + 1]);
        lemma_covers_total_size(region, head, 0, total_size(head2) - chunks[k + 1].size);
        region.lemma_chunk_ends_at_page(end - chunks[k].size, chunks[k].size as int);
    }
}

/// A prefix of chunks that cover a range covers the range up to where the
/// prefix ends.
pub proof fn lemma_covers_prefix(
    region: &DmaRegion,
    chunks: Seq<PhysicalRegionDescription>,
    from: int,
    to: int,
    n: int,
)
    requires
        covers(region, chunks, from, to),
        0 <= n <= chunks.len(),
    ensures
        covers(region, chunks.take(n), from, from + total_size(chunks.take(n))),
        from + total_size(chunks.take(n)) <= to,
        n == chunks.len() ==> from + total_size(chunks.take(n)) == to,
    decreases chunks.len(),
{
    if n == chunks.len() {
        assert(chunks.take(n) =~= chunks);
        lemma_covers_total_size(region, chunks, from, to);
    } else {
        let rest = chunks.drop_last();
        lemma_covers_prefix(region, rest, from, to - chunks.last().size, n);
        assert(rest.take(n) =~= chunks.take(n));
    }
}

/// Walks a buffer and hands out its chunks one by one, from the first byte
/// to the last.
pub struct PhysicalRegionDescriber<'a> {
    data: &'a DmaRegion,
    next: usize,
}

impl<'a> PhysicalRegionDescriber<'a> {
    /// The buffer that is described.
    pub closed spec fn region(&self) -> &DmaRegion {
        self.data
    }

    /// The byte at which the next chunk starts.
    pub closed spec fn position(&self) -> int {
        self.next as int
    }

    /// The invariant of a describer.
    pub open spec fn wf(&self) -> bool {
        &&& self.region().wf()
        &&& 0 <= self.position() <= self.region().len()
    }

    #[verifier::type_invariant]
    closed spec fn inv(&self) -> bool {
        self.wf()
    }

    /// A describer at the first byte of `data`.
    pub fn new(data: &'a DmaRegion) -> (r: Self)
        ensures
            r.wf(),
            r.region() == data,
            r.position() == 0,
    {
        proof {
            use_type_invariant(data);
        }
        PhysicalRegionDescriber { data, next: 0 }
    }

    /// The physical address of the byte at `index`, `None` past the end of
    /// the buffer.
    fn next_chunk(&self, index: usize) -> (r: Option<u64>)
        ensures
            self.wf(),
            r.is_some() == (index < self.region().len()),
            r.is_some() ==> r.unwrap() == self.region().phys_of(index as int),
    {
        proof {
            use_type_invariant(self);
        }
        self.data.translate(index)
    }

    /// The next chunk of the buffer, `None` when the whole buffer has been
    /// described.
    pub fn next(&mut self) -> (r: Option<PhysicalRegionDescription>)
        ensures
            old(self).wf(),
            final(self).wf(),
            final(self).region() == old(self).region(),
            r.is_none() == (old(self).position() == old(self).region().len()),
            r.is_none() ==> final(self).position() == old(self).position(),
            r.is_some() ==> {
                &&& r.unwrap().addr == old(self).region().phys_of(old(self).position())
                &&& old(self).region().is_chunk(old(self).position(), r.unwrap().size as int)
                &&& final(self).position() == old(self).position() + r.unwrap().size
            },
    {
        let start: usize = self.next;
        let base: u64 = match self.next_chunk(start) {
            Some(b) => b,
            None => {
                return None;
            },
        };
        let data = self.data;
        let left: usize = data.size() - start;
        let in_page: usize = PAGE_SIZE - (data.page_offset() + start) % PAGE_SIZE;
        let mut diff: usize = if in_page < left {
            in_page
        } else {
            left
        };
        proof {
            assert forall|j: int| start <= j < start + diff implies #[trigger] data.phys_of(j)
                == data.phys_of(start as int) + (j - start) by {
                assert((data.offset() + j) / 4096 == (data.offset() + start) / 4096);
            }
        }
        while diff < left
            invariant_except_break
                diff < left ==> (data.offset() + start + diff) % 4096 == 0,
            invariant
                data.wf(),
                data == self.data,
                start == self.next,
                start < data.len(),
                left == data.len() - start,
                0 < diff <= left,
                base == data.phys_of(start as int),
                data.contiguous(start as int, start + diff),
            ensures
                diff == left || data.phys_of(start + diff) != base + diff,
            decreases left - diff,
        {
            let at: usize = start + diff;
            let addr: u64 = match self.next_chunk(at) {
                Some(a) => a,
                None => {
                    break ;
                },
            };
            if addr < base || addr - base != diff as u64 {
                break ;
            }
            let room: usize = left - diff;
            let step: usize = if PAGE_SIZE < room {
                PAGE_SIZE
            } else {
                room
            };
            proof {
                assert forall|j: int| start <= j < at + step implies #[trigger] data.phys_of(j)
                    == data.phys_of(start as int) + (j - start) by {
                    if j >= at {
                        assert((data.offset() + j) / 4096 == (data.offset() + at) / 4096);
                        assert((data.offset() + j) % 4096 == j - at);
                    }
                }
            }
            diff = diff + step;
        }
        self.next = start + diff;
        Some(PhysicalRegionDescription { addr: base, size: diff })
    }

    /// All chunks that are left, in order. The describer is at the end of
    /// the buffer afterwards.
    pub fn remaining(&mut self) -> (r: Vec<PhysicalRegionDescription>)
        ensures
            old(self).wf(),
            final(self).wf(),
            final(self).region() == old(self).region(),
            final(self).position() == old(self).region().len(),
            covers(old(self).region(), r@, old(self).position(), old(self).region().len()),
            total_size(r@) == old(self).region().len() - old(self).position(),
    {
        proof {
            use_type_invariant(&*self);
        }
        let mut out: Vec<PhysicalRegionDescription> = Vec::new();
        let ghost begin = self.position();
        let ghost region = self.region();
        loop
            invariant_except_break
                covers(region, out@, begin, self.position()),
            invariant
                self.wf(),
                self.region() == region,
            ensures
                covers(region, out@, begin, region.len()),
                self.position() == region.len(),
            decreases region.len() - self.position(),
        {
            match self.next() {
                Some(chunk) => {
                    let ghost before = out@;
                    out.push(chunk);
                    proof {
                        assert(out@.drop_last() =~= before);
                        assert(out@.last() == chunk);
                    }
                },
                None => {
                    break ;
                },
            }
        }
        proof {
            lemma_covers_total_size(region, out@, begin, region.len());
        }
        out
    }
}

/// Gives a value up without running its destructor.
///
/// Trusted: `core::mem::forget` takes ownership of the value and returns;
/// it does not panic.
#[verifier::external_body]
fn leak<C>(value: C)
    opens_invariants none
    no_unwind
{
    core::mem::forget(value)
}

/// A type that implements `DmaTarget` can be used for DMA operations.
///
/// An operation takes its target by value and hands it back when it
/// completes.
pub trait DmaTarget: Sized {
    /// Where the target buffer lies.
    spec fn target(&self) -> &DmaRegion;

    /// The target buffer. This takes `self` as `&mut`, although it does
    /// not change it, to keep everything else away from `self` while the
    /// buffer is looked at.
    fn as_mut(&mut self) -> (r: &DmaRegion)
        ensures
            r == old(self).target(),
            r.wf(),
            *final(self) == *old(self),
    ;

    /// Returns a describer for the target buffer, at its first byte.
    ///
    /// This takes `self` as `&mut` for the same reason as
    /// [`DmaTarget::as_mut`]: nothing else gets at `self` while the
    /// describer is alive.
    fn prd(&mut self) -> (r: PhysicalRegionDescriber<'_>)
        ensures
            r.wf(),
            r.region() == old(self).target(),
            r.position() == 0,
            *final(self) == *old(self),
    {
        PhysicalRegionDescriber::new(self.as_mut())
    }
}

/// What a claim does: it is granted exactly when the buffer is not lent
/// out; the buffer is lent out afterwards either way; and what is granted
/// stands for the buffer of the target.
pub open spec fn claim_spec(
    lent_before: bool,
    lent_after: bool,
    target: &DmaRegion,
    r: Option<BorrowedDmaGuard>,
) -> bool {
    &&& r.is_some() == !lent_before
    &&& lent_after
    &&& r matches Some(c) ==> c.target().same_as(target)
}

/// Of two claims in a row on one target, with nothing released in between,
/// the second is refused; so at most one of them is granted, and exactly
/// one if the buffer was not lent out before.
pub proof fn lemma_second_claim_refused<G: DmaClaimable>(
    g0: G,
    g1: G,
    g2: G,
    first: Option<BorrowedDmaGuard>,
    second: Option<BorrowedDmaGuard>,
)
    requires
        claim_spec(g0.claimed(), g1.claimed(), g0.target(), first),
        claim_spec(g1.claimed(), g2.claimed(), g1.target(), second),
    ensures
        second.is_none(),
        !g0.claimed() ==> first.is_some(),
        g2.claimed(),
{
}

/// A target whose buffer can be lent out, once at a time, without giving
/// up the value that owns it. While the buffer is lent, the owner neither
/// hands it out again nor frees it.
pub trait DmaClaimable: DmaTarget {
    /// Whether the buffer is lent out.
    spec fn claimed(&self) -> bool;

    /// Lends the buffer: returns a target for the same buffer, unless it
    /// is lent already.
    fn claim(&mut self) -> (r: Option<BorrowedDmaGuard>)
        ensures
            claim_spec(old(self).claimed(), final(self).claimed(), old(self).target(), r),
            final(self).target() == old(self).target(),
    ;

    /// Returns `true` while the buffer is lent out.
    fn query_owned(&self) -> (r: bool)
        ensures
            r == self.claimed(),
    ;
}

/// The buffer of a [`DmaGuard`] while it is lent out.
pub struct BorrowedDmaGuard {
    data: DmaRegion,
}

impl DmaTarget for BorrowedDmaGuard {
    closed spec fn target(&self) -> &DmaRegion {
        &self.data
    }

    fn as_mut(&mut self) -> (r: &DmaRegion) {
        proof {
            use_type_invariant(&self.data);
        }
        &self.data
    }
}

/// The owning pointers that a [`DmaGuard`] is made from: each owns one
/// buffer, of a length that it knows.
pub trait DmaPointer<T>: Sealed + Sized {
    /// Length of the buffer in bytes.
    spec fn byte_len(&self) -> nat;

    /// Length of the buffer in bytes, unless it is beyond `usize`.
    fn buffer_len(&self) -> (r: Option<usize>)
        ensures
            r.is_some() == (self.byte_len() <= usize::MAX),
            r matches Some(n) ==> n == self.byte_len(),
    ;
}

impl<T> DmaPointer<T> for Vec<T> {
    /// A vector owns as many values as it holds.
    open spec fn byte_len(&self) -> nat {
        vstd::layout::size_of::<T>() * self@.len()
    }

    fn buffer_len(&self) -> (r: Option<usize>) {
        let elem_size: usize = core::mem::size_of::<T>();
        elem_size.checked_mul(self.len())
    }
}

impl<T> DmaPointer<T> for Box<T> {
    /// A box owns one value.
    open spec fn byte_len(&self) -> nat {
        vstd::layout::size_of::<T>()
    }

    fn buffer_len(&self) -> (r: Option<usize>) {
        Some(core::mem::size_of::<T>())
    }
}

/// Wraps the owner of a buffer that hardware is to read or write.
///
/// The guard is in one of two states. While it is owned, the buffer can
/// be claimed or taken back out. While it is claimed, the one claim that
/// was handed out stands for the buffer, and the guard gives nothing out
/// until the claim has been released; a guard that is dropped in this
/// state leaks the buffer instead of freeing it.
pub struct DmaGuard<T, C> {
    inner: Option<C>,
    region: DmaRegion,
    lock: Option<bool>,
    _phantom: core::marker::PhantomData<T>,
}

impl<T, C> DmaGuard<T, C> {
    /// The wrapped value, as long as the guard has it.
    pub closed spec fn buffer(&self) -> Option<C> {
        self.inner
    }

    /// Whether the claim flag was ever made. It is made by the first claim.
    pub closed spec fn flag_made(&self) -> bool {
        self.lock.is_some()
    }

    /// Wraps `inner`, whose buffer lies at `region`. The guard starts out
    /// owned. Where the region is not as long as the buffer of `inner`,
    /// there is no guard and `inner` is handed back.
    pub fn new(inner: C, region: DmaRegion) -> (r: Result<Self, C>) where C: DmaPointer<T>
        ensures
            r is Ok == (region.len() == inner.byte_len()),
            r matches Ok(g) ==> {
                &&& !g.claimed()
                &&& !g.flag_made()
                &&& g.buffer() == Some(inner)
                &&& g.target() == region
            },
            r matches Err(c) ==> c == inner,
    {
        let fits: bool = match inner.buffer_len() {
            Some(n) => n == region.size(),
            None => false,
        };
        if fits {
            Ok(
                DmaGuard {
                    inner: Some(inner),
                    region,
                    lock: None,
                    _phantom: core::marker::PhantomData,
                },
            )
        } else {
            Err(inner)
        }
    }

    /// Whether the wrapped value may be taken out: the guard has it, and
    /// the buffer is not lent out.
    pub open spec fn may_unwrap(&self) -> bool {
        !self.claimed() && self.buffer().is_some()
    }

    /// What `try_unwrap` returns: the wrapped value of a guard that is
    /// owned, and a guard whose buffer is lent out as it was.
    pub open spec fn unwrapped(g: Self, r: Result<C, Self>) -> bool {
        &&& r is Ok == !g.claimed()
        &&& r matches Ok(c) ==> Some(c) == g.buffer()
        &&& r matches Err(h) ==> h == g
    }

    /// While the buffer is lent out, nothing takes the wrapped value out
    /// of the guard. After a claim, whether it was granted or refused,
    /// `unwrap` may not be called, and `try_unwrap` hands the guard back
    /// as it was.
    pub proof fn lemma_claimed_guard_keeps_buffer(
        g0: Self,
        g1: Self,
        claim: Option<BorrowedDmaGuard>,
        r: Result<C, Self>,
    )
        requires
            claim_spec(g0.claimed(), g1.claimed(), g0.target(), claim),
            Self::unwrapped(g1, r),
        ensures
            !g1.may_unwrap(),
            r matches Err(h) && h == g1,
    {
    }

    /// Takes the wrapped value back out. The buffer must not be lent out.
    pub fn unwrap(self) -> (r: C)
        requires
            self.may_unwrap(),
        ensures
            Some(r) == self.buffer(),
    {
        let mut this = self;
        let mut slot: Option<C> = None;
        core::mem::swap(&mut this.inner, &mut slot);
        slot.unwrap()
    }

    /// Takes the wrapped value back out unless the buffer is lent out, in
    /// which case the guard is handed back.
    pub fn try_unwrap(self) -> (r: Result<C, Self>)
        requires
            self.buffer().is_some(),
        ensures
            Self::unwrapped(self, r),
    {
        if self.query_owned() {
            Err(self)
        } else {
            Ok(self.unwrap())
        }
    }

    /// What a release does: it succeeds if the buffer is lent out and
    /// `claim` is for it, and the guard is owned again then; otherwise
    /// nothing changes and `claim` is handed back.
    pub open spec fn release_spec(
        before: Self,
        after: Self,
        claim: BorrowedDmaGuard,
        r: Result<(), BorrowedDmaGuard>,
    ) -> bool {
        &&& r is Ok == (before.claimed() && claim.target().same_as(before.target()))
        &&& r is Ok ==> !after.claimed()
        &&& r matches Err(c) ==> after == before && c == claim
        &&& after.buffer() == before.buffer()
        &&& after.target() == before.target()
    }

    /// A claim that was granted can be released, and the next claim after
    /// that is granted again.
    pub proof fn lemma_release_frees_claim(
        g0: Self,
        g1: Self,
        g2: Self,
        g3: Self,
        first: Option<BorrowedDmaGuard>,
        released: Result<(), BorrowedDmaGuard>,
        again: Option<BorrowedDmaGuard>,
    )
        requires
            claim_spec(g0.claimed(), g1.claimed(), g0.target(), first),
            g1.target() == g0.target(),
            first.is_some(),
            Self::release_spec(g1, g2, first.unwrap(), released),
            claim_spec(g2.claimed(), g3.claimed(), g2.target(), again),
        ensures
            released is Ok,
            again.is_some(),
    {
    }

    /// Whether dropping the guard now would leak the wrapped value instead
    /// of freeing it: it would while the buffer is lent out.
    pub fn leaks_on_drop(&self) -> (r: bool)
        ensures
            r == self.claimed(),
        opens_invariants none
        no_unwind
    {
        match self.lock {
            Some(b) => b,
            None => false,
        }
    }

    /// Takes back the buffer that `claim` stands for.
    pub fn release(&mut self, claim: BorrowedDmaGuard) -> (r: Result<(), BorrowedDmaGuard>)
        ensures
            Self::release_spec(*old(self), *final(self), claim, r),
    {
        if self.query_owned() && claim.data.is_same(&self.region) {
            self.lock = Some(false);
            Ok(())
        } else {
            Err(claim)
        }
    }
}

impl<'a, T> DmaGuard<T, &'a mut T> {
    /// Wraps a borrowed value, so that buffers on the stack can be used.
    /// Whoever calls this sees to it that hardware is done with the buffer
    /// before the owner of `data` is used again.
    /// Where the region is not as long as the value, there is no guard
    /// and the borrow is handed back.
    pub fn from_raw(data: &'a mut T, region: DmaRegion) -> (r: Result<
        DmaGuard<T, &'a mut T>,
        &'a mut T,
    >)
        ensures
            r is Ok == (region.len() == vstd::layout::size_of::<T>()),
            r matches Ok(g) ==> {
                &&& !g.claimed()
                &&& !g.flag_made()
                &&& g.buffer() matches Some(b) && *b == *old(data) && *final(b) == *final(data)
                &&& g.target() == region
            },
            r matches Err(d) ==> *d == *old(data) && *final(d) == *final(data),
    {
        if region.size() == core::mem::size_of::<T>() {
            Ok(
                DmaGuard {
                    inner: Some(data),
                    region,
                    lock: None,
                    _phantom: core::marker::PhantomData,
                },
            )
        } else {
            Err(data)
        }
    }
}

impl<T, C> DmaTarget for DmaGuard<T, C> {
    closed spec fn target(&self) -> &DmaRegion {
        &self.region
    }

    fn as_mut(&mut self) -> (r: &DmaRegion) {
        proof {
            use_type_invariant(&self.region);
        }
        &self.region
    }
}

impl<T, C> DmaClaimable for DmaGuard<T, C> {
    closed spec fn claimed(&self) -> bool {
        self.lock == Some(true)
    }

    fn claim(&mut self) -> (r: Option<BorrowedDmaGuard>)
        ensures
            final(self).buffer() == old(self).buffer(),
            r.is_none() ==> *final(self) == *old(self),
            final(self).flag_made(),
    {
        match self.lock {
            Some(true) => None,
            _ => {
                self.lock = Some(true);
                Some(BorrowedDmaGuard { data: self.region.duplicate() })
            },
        }
    }

    fn query_owned(&self) -> (r: bool) {
        match self.lock {
            Some(b) => b,
            None => false,
        }
    }
}

impl<T, C> Drop for DmaGuard<T, C> {
    /// Frees the wrapped value unless the buffer is lent out. A buffer
    /// that is lent out may be in use by hardware, so it is leaked: the
    /// guard gives the value up without running its destructor, and has
    /// none left for the compiler to free. A guard that is owned keeps its
    /// value, which is freed with the guard, once.
    fn drop(&mut self)
        ensures
            old(self).claimed() ==> final(self).buffer().is_none(),
            !old(self).claimed() ==> final(self).buffer() == old(self).buffer(),
            final(self).claimed() == old(self).claimed(),
            final(self).target() == old(self).target(),
        opens_invariants none
        no_unwind
    {
        if self.leaks_on_drop() {
            let mut slot: Option<C> = None;
            core::mem::swap(&mut self.inner, &mut slot);
            match slot {
                Some(c) => leak(c),
                None => {},
            }
        }
    }
}

} // verus!
