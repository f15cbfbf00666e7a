//! JPU DMA physical memory allocator: a first-fit bitmap of 16 KiB pages over
//! one page-aligned region.
use super::regs::VMEM_PAGE_SIZE;
use crate::mmio::{fit_len, BusOp, Mmio, RegisterBus};
use vstd::prelude::*;

verus! {

/// Number of 64-bit words in the page bitmap.
pub const BITMAP_WORDS: usize = 32;

/// Number of pages the bitmap can describe.
pub const BITMAP_PAGES: usize = 2048;

/// A physical address range handed out by the JPU memory pool.
#[derive(Clone, Copy, Debug, PartialEq, Eq, Structural)]
pub struct PhysBuffer {
    pub addr: usize,
    pub size: usize,
}

impl PhysBuffer {
    /// The buffer that holds nothing.
    pub fn empty() -> (b: PhysBuffer)
        ensures
            b.addr == 0 && b.size == 0,
    {
        PhysBuffer { addr: 0, size: 0 }
    }

    pub open spec fn empty_spec(&self) -> bool {
        self.addr == 0 || self.size == 0
    }

    pub fn is_empty(&self) -> (b: bool)
        ensures
            b == self.empty_spec(),
    {
        self.addr == 0 || self.size == 0
    }
}

/// Whether bit `b` of `w` is set.
pub open spec fn bit_set(w: u64, b: int) -> bool {
    w & (1u64 << (b as u64)) != 0
}

/// Whether page `p` is free in `bitmap`.
pub open spec fn page_free(bitmap: Seq<u64>, p: int) -> bool {
    bit_set(bitmap[p / 64], p % 64)
}

/// Pages `s .. s + n` all lie in `v` and are all free.
pub open spec fn run_free(v: Seq<bool>, s: int, n: int) -> bool {
    &&& 0 <= s
    &&& s + n <= v.len()
    &&& forall|k: int| s <= k < s + n ==> #[trigger] v[k]
}

/// `s` is the first page of the first free run of `n` pages.
pub open spec fn first_fit(v: Seq<bool>, s: int, n: int) -> bool {
    &&& run_free(v, s, n)
    &&& forall|t: int| 0 <= t < s ==> !run_free(v, t, n)
}

/// The first page of the first free run of `n` pages in `v`.
pub open spec fn first_fit_start(v: Seq<bool>, n: int) -> int {
    choose|s: int| first_fit(v, s, n)
}

/// Whether two non-empty allocations of `first_size` and then `second_size`
/// bytes both fit, first fit after first fit, in pages `v`.
pub open spec fn pair_fits(v: Seq<bool>, first_size: int, second_size: int) -> bool {
    let na = pages_for(first_size);
    let nb = pages_for(second_size);
    &&& first_size > 0
    &&& second_size > 0
    &&& exists|s: int| run_free(v, s, na)
    &&& exists|t: int| run_free(mark_run(v, first_fit_start(v, na), na, false), t, nb)
}

/// There is only one first fit: it is the one [`first_fit_start`] names.
pub proof fn lemma_first_fit_unique(v: Seq<bool>, s: int, n: int)
    requires
        first_fit(v, s, n),
    ensures
        first_fit_start(v, n) == s,
{
    let c = first_fit_start(v, n);
    assert(first_fit(v, c, n));
    if c < s {
        assert(!run_free(v, c, n));
    } else if s < c {
        assert(!run_free(v, s, n));
    }
}

/// `v` with pages `s .. s + n` marked `free`.
pub open spec fn mark_run(v: Seq<bool>, s: int, n: int, free: bool) -> Seq<bool> {
    Seq::new(v.len(), |k: int| if s <= k < s + n { free } else { v[k] })
}

/// Number of pages needed for `size` bytes.
pub open spec fn pages_for(size: int) -> int {
    size / (VMEM_PAGE_SIZE as int) + if size % (VMEM_PAGE_SIZE as int) == 0 {
        0int
    } else {
        1int
    }
}

/// Pages a pool over `[base, base + size)` manages: those of its
/// page-aligned part, at most [`BITMAP_PAGES`]; none when aligning `base`
/// overflows.
pub open spec fn pool_pages(base: usize, size: usize) -> int {
    if base + VMEM_PAGE_SIZE - 1 > usize::MAX {
        0
    } else {
        let aligned = (base + VMEM_PAGE_SIZE - 1) / (VMEM_PAGE_SIZE as int) * (VMEM_PAGE_SIZE as int);
        let usable = if size >= aligned - base {
            size - (aligned - base)
        } else {
            0
        };
        if usable / (VMEM_PAGE_SIZE as int) <= BITMAP_PAGES {
            usable / (VMEM_PAGE_SIZE as int)
        } else {
            BITMAP_PAGES as int
        }
    }
}

/// The bitmap allocator.
pub struct JpuMemoryPool {
    base_addr: usize,
    size: usize,
    num_pages: usize,
    bitmap: [u64; 32],
}

proof fn lemma_bits(w: u64, b: u64, c: u64)
    requires
        b < 64,
        c < 64,
    ensures
        ((w & !(1u64 << b)) & (1u64 << c) != 0) == (b != c && (w & (1u64 << c) != 0)),
        ((w | (1u64 << b)) & (1u64 << c) != 0) == (b == c || (w & (1u64 << c) != 0)),
        (0xFFFF_FFFF_FFFF_FFFFu64 & (1u64 << c)) != 0,
        (0u64 & (1u64 << c)) == 0,
{
    assert(((w & !(1u64 << b)) & (1u64 << c) != 0) == (b != c && (w & (1u64 << c) != 0)))
        by (bit_vector)
        requires
            b < 64,
            c < 64,
    ;
    assert(((w | (1u64 << b)) & (1u64 << c) != 0) == (b == c || (w & (1u64 << c) != 0)))
        by (bit_vector)
        requires
            b < 64,
            c < 64,
    ;
    assert((0xFFFF_FFFF_FFFF_FFFFu64 & (1u64 << c)) != 0) by (bit_vector)
        requires
            c < 64,
    ;
    assert((0u64 & (1u64 << c)) == 0) by (bit_vector);
}

proof fn lemma_page_update(before: Seq<u64>, after: Seq<u64>, p: int, q: int, set: bool)
    requires
        before.len() == 32,
        0 <= p < 2048,
        0 <= q < 2048,
        after == before.update(
            p / 64,
            if set {
                before[p / 64] | (1u64 << ((p % 64) as u64))
            } else {
                before[p / 64] & !(1u64 << ((p % 64) as u64))
            },
        ),
    ensures
        page_free(after, q) == if q == p {
            set
        } else {
            page_free(before, q)
        },
{
    lemma_bits(before[p / 64], (p % 64) as u64, (q % 64) as u64);
    if q / 64 == p / 64 && q % 64 == p % 64 {
        assert(q == p) by (nonlinear_arith)
            requires
                q / 64 == p / 64,
                q % 64 == p % 64,
                q >= 0,
                p >= 0,
        ;
    }
    if q != p && q / 64 == p / 64 {
        assert(q % 64 != p % 64) by (nonlinear_arith)
            requires
                q / 64 == p / 64,
                q != p,
                q >= 0,
                p >= 0,
        ;
    }
}

impl JpuMemoryPool {
    /// Base of the usable, page-aligned range.
    pub closed spec fn base_spec(&self) -> usize {
        self.base_addr
    }

    /// Number of pages managed.
    pub closed spec fn pages(&self) -> nat {
        self.num_pages as nat
    }

    /// Free (`true`) or allocated (`false`), page by page.
    pub closed spec fn view(&self) -> Seq<bool> {
        Seq::new(self.num_pages as nat, |p: int| page_free(self.bitmap@, p))
    }

    /// The pool's invariant.
    pub closed spec fn wf(&self) -> bool {
        &&& self.num_pages <= BITMAP_PAGES
        &&& self.size == self.num_pages * VMEM_PAGE_SIZE
        &&& self.base_addr + self.size <= usize::MAX
        &&& self.base_addr % VMEM_PAGE_SIZE == 0
    }

    /// The page view has one entry for each page managed.
    pub proof fn lemma_view_len(&self)
        ensures
            self.view().len() == self.pages(),
    {
    }

    /// An empty pool that manages no page.
    pub fn new() -> (p: Self)
        ensures
            p.wf(),
            p.pages() == 0,
            p.base_spec() == 0,
    {
        JpuMemoryPool { base_addr: 0, size: 0, num_pages: 0, bitmap: [0; 32] }
    }

    /// Base of the usable, page-aligned range.
    pub fn base_addr(&self) -> (b: usize)
        ensures
            b == self.base_spec(),
    {
        self.base_addr
    }

    /// Bytes managed: `num_pages * VMEM_PAGE_SIZE`.
    pub fn size(&self) -> (s: usize)
        requires
            self.wf(),
        ensures
            s == self.pages() * VMEM_PAGE_SIZE,
    {
        self.size
    }

    /// Number of pages managed.
    pub fn num_pages(&self) -> (n: usize)
        ensures
            n == self.pages(),
    {
        self.num_pages
    }

    /// Number of pages the bitmap can hold.
    pub fn bitmap_pages(&self) -> (n: usize)
        ensures
            n == BITMAP_PAGES,
    {
        BITMAP_WORDS * 64
    }

    /// Manage `[base, base + size)`: its page-aligned part, capped at the
    /// bitmap's capacity, every page free.  A `base` whose alignment overflows
    /// leaves an empty pool.
    pub fn init(&mut self, base: usize, size: usize)
        requires
            base + size <= usize::MAX,
        ensures
            final(self).wf(),
            base + VMEM_PAGE_SIZE - 1 > usize::MAX ==> final(self).pages() == 0
                && final(self).base_spec() == 0,
            base + VMEM_PAGE_SIZE - 1 <= usize::MAX ==> {
                let aligned = (base + VMEM_PAGE_SIZE - 1) / (VMEM_PAGE_SIZE as int) * (
                VMEM_PAGE_SIZE as int);
                let usable = if size >= aligned - base {
                    size - (aligned - base)
                } else {
                    0
                };
                &&& final(self).base_spec() == aligned
                &&& final(self).pages() == if usable / (VMEM_PAGE_SIZE as int)
                    <= BITMAP_PAGES {
                    usable / (VMEM_PAGE_SIZE as int)
                } else {
                    BITMAP_PAGES as int
                }
            },
            forall|p: int| 0 <= p < final(self).pages() ==> #[trigger] final(self).view()[p],
            final(self).view().len() == final(self).pages(),
            final(self).pages() == pool_pages(base, size),
    {
        let aligned_base = match base.checked_add(VMEM_PAGE_SIZE - 1) {
            Some(v) => v / VMEM_PAGE_SIZE * VMEM_PAGE_SIZE,
            None => {
                self.base_addr = 0;
                self.size = 0;
                self.num_pages = 0;
                self.bitmap = [0; 32];
                return;
            },
        };
        assert(aligned_base >= base && aligned_base - base < VMEM_PAGE_SIZE) by (nonlinear_arith)
            requires
                aligned_base == (base + VMEM_PAGE_SIZE - 1) / (VMEM_PAGE_SIZE as int) * (
                VMEM_PAGE_SIZE as int),
                base + VMEM_PAGE_SIZE - 1 <= usize::MAX,
                VMEM_PAGE_SIZE == 16384,
        ;
        let alignment_prefix = aligned_base - base;
        let usable_size = size.saturating_sub(alignment_prefix);
        let available_pages = usable_size / VMEM_PAGE_SIZE;
        let bitmap_pages = BITMAP_WORDS * 64;
        self.base_addr = aligned_base;
        self.num_pages = if available_pages < bitmap_pages {
            available_pages
        } else {
            bitmap_pages
        };
        assert(self.num_pages * VMEM_PAGE_SIZE <= usable_size) by (nonlinear_arith)
            requires
                self.num_pages <= available_pages,
                available_pages == (usable_size as int) / (VMEM_PAGE_SIZE as int),
                VMEM_PAGE_SIZE == 16384,
        ;
        assert(aligned_base % VMEM_PAGE_SIZE == 0) by (nonlinear_arith)
            requires
                aligned_base == (base + VMEM_PAGE_SIZE - 1) / (VMEM_PAGE_SIZE as int) * (
                VMEM_PAGE_SIZE as int),
                VMEM_PAGE_SIZE == 16384,
        ;
        self.size = self.num_pages * VMEM_PAGE_SIZE;
        let mut i: usize = 0;
        while i < BITMAP_WORDS
            invariant
                0 <= i <= BITMAP_WORDS,
                forall|k: int| 0 <= k < i ==> self.bitmap@[k] == 0xFFFF_FFFF_FFFF_FFFFu64,
                self.num_pages <= BITMAP_PAGES,
                self.num_pages * VMEM_PAGE_SIZE <= usable_size,
                self.size == self.num_pages * VMEM_PAGE_SIZE,
                self.base_addr == aligned_base,
                aligned_base % VMEM_PAGE_SIZE == 0,
                aligned_base + usable_size <= usize::MAX,
                available_pages == (usable_size as int) / (VMEM_PAGE_SIZE as int),
                usable_size == if size >= alignment_prefix {
                    size - alignment_prefix
                } else {
                    0
                },
                alignment_prefix == aligned_base - base,
                self.num_pages == if available_pages < 2048 {
                    available_pages
                } else {
                    2048
                },
            decreases BITMAP_WORDS - i,
        {
            self.bitmap[i] = 0xFFFF_FFFF_FFFF_FFFFu64;
            i = i + 1;
        }
        assert forall|p: int| 0 <= p < self.num_pages implies #[trigger] self.view()[p] by {
            assert(p / 64 < 32);
            assert(self.bitmap@[p / 64] == 0xFFFF_FFFF_FFFF_FFFFu64);
            lemma_bits(0, 0, (p % 64) as u64);
            assert(page_free(self.bitmap@, p));
        }
    }

    /// First-fit allocation of whole pages for `size` bytes.
    #[verifier::rlimit(50)]
    pub fn allocate(&mut self, size: usize) -> (r: Option<PhysBuffer>)
        requires
            old(self).wf(),
        ensures
            final(self).wf(),
            final(self).pages() == old(self).pages(),
            final(self).base_spec() == old(self).base_spec(),
            forall|b: PhysBuffer| #[trigger] final(self).frees(b) == old(self).frees(b),
            size == 0 ==> r is None,
            final(self).view().len() == final(self).pages(),
            r is None ==> final(self).view() == old(self).view(),
            r matches Some(b) ==> (final(self).frees(b) <==> b.addr != 0),
            r is None && size > 0 ==> forall|s: int| !run_free(old(self).view(), s, pages_for(size as int)),
            r matches Some(b) ==> {
                let n = pages_for(size as int);
                let s = (b.addr - old(self).base_spec()) / (VMEM_PAGE_SIZE as int);
                &&& size > 0
                &&& first_fit(old(self).view(), s, n)
                &&& b.addr == old(self).base_spec() + s * VMEM_PAGE_SIZE
                &&& b.size == n * VMEM_PAGE_SIZE
                &&& final(self).view() == mark_run(old(self).view(), s, n, false)
            },
    {
        if size == 0 {
            return None;
        }
        let npages = size / VMEM_PAGE_SIZE + if size % VMEM_PAGE_SIZE == 0 {
            0
        } else {
            1
        };
        assert(npages >= 1);
        let ghost v = self.view();
        let mut consecutive: usize = 0;
        let mut start_page: usize = 0;
        let mut page_idx: usize = 0;
        while page_idx < self.num_pages
            invariant
                self.wf(),
                self.view() == v,
                *self == *old(self),
                npages == pages_for(size as int),
                npages >= 1,
                size > 0,
                0 <= page_idx <= self.num_pages,
                consecutive < npages,
                consecutive <= page_idx,
                consecutive > 0 ==> start_page == page_idx - consecutive,
                forall|k: int| page_idx - consecutive <= k < page_idx ==> #[trigger] v[k],
                page_idx - consecutive > 0 ==> !v[page_idx - consecutive - 1],
                forall|t: int| 0 <= t && t + npages <= page_idx ==> !run_free(v, t, npages as int),
            decreases self.num_pages - page_idx,
        {
            let word_idx = page_idx / 64;
            let bit_idx = page_idx % 64;
            let is_free = self.bitmap[word_idx] & (1u64 << (bit_idx as u64)) != 0;
            assert(is_free == v[page_idx as int]);
            if is_free {
                if consecutive == 0 {
                    start_page = page_idx;
                }
                consecutive = consecutive + 1;
                if consecutive >= npages {
                    assert(run_free(v, start_page as int, npages as int));
                    assert(first_fit(v, start_page as int, npages as int)) by {
                        assert forall|t: int| 0 <= t < start_page implies !run_free(
                            v,
                            t,
                            npages as int,
                        ) by {
                            if t + npages > page_idx {
                                assert(!v[start_page - 1]);
                                assert(t <= start_page - 1 < t + npages);
                            }
                        }
                    }
                    let ghost s = start_page as int;
                    let mut i: usize = 0;
                    while i < npages
                        invariant
                            0 <= i <= npages,
                            self.wf(),
                            self.num_pages == old(self).num_pages,
                            self.base_addr == old(self).base_addr,
                            self.size == old(self).size,
                            start_page + npages <= self.num_pages,
                            s == start_page,
                            self.view() == mark_run(v, s, i as int, false),
                            v.len() == self.num_pages,
                        decreases npages - i,
                    {
                        let p = start_page + i;
                        let ghost before = self.bitmap@;
                        let ghost vb = self.view();
                        self.bitmap[p / 64] = self.bitmap[p / 64] & !(1u64 << ((p % 64) as u64));
                        assert forall|q: int| 0 <= q < self.num_pages implies #[trigger] self.view()[q]
                            == mark_run(v, s, i + 1, false)[q] by {
                            assert(vb[q] == mark_run(v, s, i as int, false)[q]);
                            assert(vb[q] == page_free(before, q));
                            assert(self.view()[q] == page_free(self.bitmap@, q));
                            assert(self.bitmap@ == before.update((p as int) / 64, before[(p as int) / 64] & !(1u64 << ((p % 64) as u64))));
                            lemma_page_update(before, self.bitmap@, p as int, q, false);
                            assert(mark_run(v, s, i + 1, false).len() == v.len());
                            assert(mark_run(v, s, i as int, false).len() == v.len());
                            if q == p {
                                assert(mark_run(v, s, i + 1, false)[q] == false);
                            } else {
                                assert(mark_run(v, s, i + 1, false)[q] == mark_run(v, s, i as int, false)[q]);
                            }
                        }
                        assert(self.view() =~= mark_run(v, s, i + 1, false));
                        i = i + 1;
                    }
                    assert(start_page * VMEM_PAGE_SIZE + npages * VMEM_PAGE_SIZE <= self.size)
                        by (nonlinear_arith)
                        requires
                            start_page + npages <= self.num_pages,
                            self.size == self.num_pages * VMEM_PAGE_SIZE,
                    ;
                    let addr = self.base_addr + start_page * VMEM_PAGE_SIZE;
                    assert((addr - self.base_addr) / (VMEM_PAGE_SIZE as int) == start_page
                        && (addr - self.base_addr) % (VMEM_PAGE_SIZE as int) == 0)
                        by (nonlinear_arith)
                        requires
                            addr - self.base_addr == start_page * VMEM_PAGE_SIZE,
                            VMEM_PAGE_SIZE == 16384,
                    ;
                    assert((npages * VMEM_PAGE_SIZE) % (VMEM_PAGE_SIZE as int) == 0 && npages * VMEM_PAGE_SIZE > 0)
                        by (nonlinear_arith)
                        requires
                            npages >= 1,
                            VMEM_PAGE_SIZE == 16384,
                    ;
                    return Some(PhysBuffer { addr, size: npages * VMEM_PAGE_SIZE });
                }
            } else {
                consecutive = 0;
            }
            page_idx = page_idx + 1;
        }
        assert forall|s: int| !run_free(v, s, npages as int) by {
            if run_free(v, s, npages as int) {
                assert(s + npages <= page_idx);
            }
        }
        None
    }

    /// Allocates two buffers; when the second does not fit, the first is
    /// released again and the pool is left as it was.
    pub fn alloc_pair(&mut self, first_size: usize, second_size: usize) -> (r: Option<
        (PhysBuffer, PhysBuffer),
    >)
        requires
            old(self).wf(),
        ensures
            final(self).wf(),
            final(self).pages() == old(self).pages(),
            final(self).base_spec() == old(self).base_spec(),
            forall|b: PhysBuffer| #[trigger] final(self).frees(b) == old(self).frees(b),
            r is None ==> final(self).view() == old(self).view() || (old(self).base_spec() == 0
                && first_fit(old(self).view(), 0, pages_for(first_size as int)) && final(self).view()
                == mark_run(old(self).view(), 0, pages_for(first_size as int), false)),
            r is None && old(self).base_spec() != 0 ==> final(self).view() == old(self).view(),
            r is Some <==> pair_fits(old(self).view(), first_size as int, second_size as int),
            final(self).view().len() == final(self).pages(),
            r matches Some((a, b)) ==> (final(self).frees(a) <==> a.addr != 0) && (final(self).frees(b)
                <==> b.addr != 0),
            r matches Some((a, b)) ==> {
                let na = pages_for(first_size as int);
                let nb = pages_for(second_size as int);
                let sa = (a.addr - old(self).base_spec()) / (VMEM_PAGE_SIZE as int);
                let sb = (b.addr - old(self).base_spec()) / (VMEM_PAGE_SIZE as int);
                let mid = mark_run(old(self).view(), sa, na, false);
                &&& first_size > 0 && second_size > 0
                &&& first_fit(old(self).view(), sa, na)
                &&& first_fit(mid, sb, nb)
                &&& a.addr == old(self).base_spec() + sa * VMEM_PAGE_SIZE
                &&& a.size == na * VMEM_PAGE_SIZE
                &&& b.addr == old(self).base_spec() + sb * VMEM_PAGE_SIZE
                &&& b.size == nb * VMEM_PAGE_SIZE
                &&& final(self).view() == mark_run(mid, sb, nb, false)
            },
    {
        let ghost v0 = self.view();
        let ghost na = pages_for(first_size as int);
        let ghost nb = pages_for(second_size as int);
        let first = match self.allocate(first_size) {
            Some(b) => b,
            None => {
                proof {
                    if first_size > 0 {
                        assert(!(exists|s: int| run_free(v0, s, na)));
                    }
                }
                return None;
            },
        };
        let ghost sa = (first.addr - self.base_addr) / (VMEM_PAGE_SIZE as int);
        proof {
            lemma_first_fit_unique(v0, sa, na);
            assert(run_free(v0, sa, na));
        }
        let ghost mid = self.view();
        match self.allocate(second_size) {
            Some(second) => {
                proof {
                    let sb = (second.addr - self.base_addr) / (VMEM_PAGE_SIZE as int);
                    assert(run_free(mid, sb, nb));
                }
                Some((first, second))
            },
            None => {
                proof {
                    if second_size > 0 {
                        assert(!(exists|t: int| run_free(mid, t, nb)));
                    }
                }
                self.free(first);
                proof {
                    if sa != 0 || self.base_addr != 0 {
                        assert(first.addr != 0);
                        assert(sa * VMEM_PAGE_SIZE + na * VMEM_PAGE_SIZE <= self.size)
                            by (nonlinear_arith)
                            requires
                                sa + na <= self.num_pages,
                                self.size == self.num_pages * VMEM_PAGE_SIZE,
                        ;
                        assert((first.addr - self.base_addr) % (VMEM_PAGE_SIZE as int) == 0)
                            by (nonlinear_arith)
                            requires
                                first.addr - self.base_addr == sa * VMEM_PAGE_SIZE,
                                VMEM_PAGE_SIZE == 16384,
                        ;
                        assert((first.size as int) % (VMEM_PAGE_SIZE as int) == 0 && (
                        first.size as int) / (VMEM_PAGE_SIZE as int) == na) by (nonlinear_arith)
                            requires
                                first.size == na * VMEM_PAGE_SIZE,
                                VMEM_PAGE_SIZE == 16384,
                        ;
                        lemma_unmark_run(v0, sa, na);
                    }
                }
                None
            },
        }
    }

    /// Whether `buf` is a whole-page range inside the pool.
    pub closed spec fn frees(&self, buf: PhysBuffer) -> bool {
        &&& !buf.empty_spec()
        &&& self.base_addr <= buf.addr
        &&& buf.addr + buf.size <= self.base_addr + self.size
        &&& (buf.addr - self.base_addr) % (VMEM_PAGE_SIZE as int) == 0
        &&& buf.size % VMEM_PAGE_SIZE == 0
    }

    /// Returns the pages of `buf` to the pool.  A buffer that is empty, not
    /// page aligned or not inside the pool is ignored.
    pub fn free(&mut self, buf: PhysBuffer)
        requires
            old(self).wf(),
        ensures
            final(self).wf(),
            final(self).pages() == old(self).pages(),
            final(self).base_spec() == old(self).base_spec(),
            forall|b: PhysBuffer| #[trigger] final(self).frees(b) == old(self).frees(b),
            final(self).view().len() == final(self).pages(),
            !old(self).frees(buf) ==> final(self).view() == old(self).view(),
            old(self).frees(buf) ==> final(self).view() == mark_run(
                old(self).view(),
                (buf.addr - old(self).base_spec()) / (VMEM_PAGE_SIZE as int),
                (buf.size as int) / (VMEM_PAGE_SIZE as int),
                true,
            ),
    {
        let pool_end = match self.base_addr.checked_add(self.size) {
            Some(v) => v,
            None => return,
        };
        let buffer_end = match buf.addr.checked_add(buf.size) {
            Some(v) => v,
            None => return,
        };
        if buf.is_empty() || buf.addr < self.base_addr || buffer_end > pool_end || (buf.addr
            - self.base_addr) % VMEM_PAGE_SIZE != 0 || buf.size % VMEM_PAGE_SIZE != 0 {
            return;
        }
        let start_page = (buf.addr - self.base_addr) / VMEM_PAGE_SIZE;
        let npages = buf.size / VMEM_PAGE_SIZE;
        assert(start_page + npages <= self.num_pages) by (nonlinear_arith)
            requires
                start_page == (buf.addr - self.base_addr) / (VMEM_PAGE_SIZE as int),
                npages == (buf.size as int) / (VMEM_PAGE_SIZE as int),
                (buf.addr - self.base_addr) % (VMEM_PAGE_SIZE as int) == 0,
                (buf.size as int) % (VMEM_PAGE_SIZE as int) == 0,
                buf.addr + buf.size <= self.base_addr + self.size,
                self.base_addr <= buf.addr,
                self.size == self.num_pages * VMEM_PAGE_SIZE,
                VMEM_PAGE_SIZE == 16384,
        ;
        let ghost v = self.view();
        let ghost s = start_page as int;
        let mut i: usize = 0;
        while i < npages
            invariant
                0 <= i <= npages,
                self.wf(),
                self.num_pages == old(self).num_pages,
                self.base_addr == old(self).base_addr,
                self.size == old(self).size,
                start_page + npages <= self.num_pages,
                s == start_page,
                self.view() == mark_run(v, s, i as int, true),
                v.len() == self.num_pages,
            decreases npages - i,
        {
            let p = start_page + i;
            let ghost before = self.bitmap@;
            let ghost vb = self.view();
            self.bitmap[p / 64] = self.bitmap[p / 64] | (1u64 << ((p % 64) as u64));
            assert forall|q: int| 0 <= q < self.num_pages implies #[trigger] self.view()[q]
                == mark_run(v, s, i + 1, true)[q] by {
                assert(vb[q] == mark_run(v, s, i as int, true)[q]);
                lemma_page_update(before, self.bitmap@, p as int, q, true);
                assert(mark_run(v, s, i + 1, true).len() == v.len());
                assert(mark_run(v, s, i as int, true).len() == v.len());
                if q == p {
                    assert(mark_run(v, s, i + 1, true)[q] == true);
                } else {
                    assert(mark_run(v, s, i + 1, true)[q] == mark_run(v, s, i as int, true)[q]);
                }
            }
            assert(self.view() =~= mark_run(v, s, i + 1, true));
            i = i + 1;
        }
    }
}

/// Freeing a run that was just taken from free pages gives the pages back as
/// they were.
pub proof fn lemma_unmark_run(v: Seq<bool>, s: int, n: int)
    requires
        run_free(v, s, n),
    ensures
        mark_run(mark_run(v, s, n, false), s, n, true) == v,
{
    assert(mark_run(mark_run(v, s, n, false), s, n, true) =~= v);
}

/// Allocating the first free run and then freeing what was allocated leaves the
/// pool's pages exactly as they were before the allocation.
pub proof fn lemma_free_undoes_alloc(v: Seq<bool>, s: int, n: int)
    requires
        first_fit(v, s, n),
    ensures
        mark_run(mark_run(v, s, n, false), s, n, true) == v,
{
    lemma_unmark_run(v, s, n);
}

/// After an allocation, none of its pages can be handed out again until they
/// are freed: a later first fit lies wholly outside the allocated run.
pub proof fn lemma_allocations_disjoint(v: Seq<bool>, s: int, n: int, s2: int, n2: int)
    requires
        first_fit(v, s, n),
        n >= 1,
        n2 >= 1,
        run_free(mark_run(v, s, n, false), s2, n2),
    ensures
        s2 + n2 <= s || s + n <= s2,
{
    let w = mark_run(v, s, n, false);
    if !(s2 + n2 <= s || s + n <= s2) {
        let k = if s2 <= s {
            s
        } else {
            s2
        };
        assert(s <= k < s + n);
        assert(s2 <= k < s2 + n2);
        assert(!w[k]);
    }
}

/// The pool together with its initialisation flag.
pub struct JpuMemState {
    pool: JpuMemoryPool,
    initialized: bool,
}

impl JpuMemState {
    pub closed spec fn wf(&self) -> bool {
        self.pool.wf()
    }

    pub closed spec fn is_initialized(&self) -> bool {
        self.initialized
    }

    pub closed spec fn pool_view(&self) -> Seq<bool> {
        self.pool.view()
    }

    pub closed spec fn pool_spec(&self) -> JpuMemoryPool {
        self.pool
    }

    /// An uninitialised state.
    pub fn new() -> (s: Self)
        ensures
            s.wf(),
            !s.is_initialized(),
    {
        JpuMemState { pool: JpuMemoryPool::new(), initialized: false }
    }
}

/// Initialises the pool over `[buf_addr, buf_addr + buf_size)` once; later
/// calls leave it untouched.
pub fn init_jpu_memory(state: &mut JpuMemState, buf_addr: usize, buf_size: usize)
    requires
        old(state).wf(),
        buf_addr + buf_size <= usize::MAX,
    ensures
        final(state).wf(),
        final(state).is_initialized(),
        old(state).is_initialized() ==> *final(state) == *old(state),
        !old(state).is_initialized() ==> forall|p: int|
            0 <= p < final(state).pool_spec().pages() ==> #[trigger] final(state).pool_view()[p],
        !old(state).is_initialized() ==> final(state).pool_spec().pages() == pool_pages(buf_addr, buf_size),
        final(state).pool_view().len() == final(state).pool_spec().pages(),
{
    if state.initialized {
        return;
    }
    state.pool.init(buf_addr, buf_size);
    state.initialized = true;
}

/// One allocation from the pool; `None` before initialisation.
pub fn jpu_alloc(state: &mut JpuMemState, size: usize) -> (r: Option<PhysBuffer>)
    requires
        old(state).wf(),
    ensures
        size == 0 ==> r is None,
        final(state).wf(),
        final(state).is_initialized() == old(state).is_initialized(),
        final(state).pool_view().len() == final(state).pool_spec().pages(),
        final(state).pool_spec().pages() == old(state).pool_spec().pages(),
        final(state).pool_spec().base_spec() == old(state).pool_spec().base_spec(),
        forall|b: PhysBuffer| #[trigger] final(state).pool_spec().frees(b) == old(state).pool_spec().frees(b),
        !old(state).is_initialized() ==> r is None && *final(state) == *old(state),
        r is None ==> final(state).pool_view() == old(state).pool_view(),
        r matches Some(b) ==> (final(state).pool_spec().frees(b) <==> b.addr != 0),
        old(state).is_initialized() && r is None && size > 0 ==> forall|s: int|
            !run_free(old(state).pool_view(), s, pages_for(size as int)),
        r matches Some(b) ==> {
            let n = pages_for(size as int);
            let s = (b.addr - old(state).pool_spec().base_spec()) / (VMEM_PAGE_SIZE as int);
            &&& first_fit(old(state).pool_view(), s, n)
            &&& b.size == n * VMEM_PAGE_SIZE
            &&& b.addr == old(state).pool_spec().base_spec() + s * VMEM_PAGE_SIZE
            &&& final(state).pool_view() == mark_run(old(state).pool_view(), s, n, false)
        },
{
    if !state.initialized {
        None
    } else {
        state.pool.allocate(size)
    }
}

/// Two allocations from the pool, all or nothing; `None` before initialisation.
pub fn jpu_alloc_pair(state: &mut JpuMemState, first_size: usize, second_size: usize) -> (r:
    Option<(PhysBuffer, PhysBuffer)>)
    requires
        old(state).wf(),
    ensures
        final(state).wf(),
        final(state).is_initialized() == old(state).is_initialized(),
        final(state).pool_view().len() == final(state).pool_spec().pages(),
        final(state).pool_spec().pages() == old(state).pool_spec().pages(),
        final(state).pool_spec().base_spec() == old(state).pool_spec().base_spec(),
        forall|b: PhysBuffer| #[trigger] final(state).pool_spec().frees(b) == old(state).pool_spec().frees(b),
        !old(state).is_initialized() ==> r is None && *final(state) == *old(state),
        r is None && old(state).pool_spec().base_spec() != 0 ==> final(state).pool_view() == old(state).pool_view(),
        r is None ==> final(state).pool_view() == old(state).pool_view() || (
        old(state).pool_spec().base_spec() == 0 && first_fit(
            old(state).pool_view(),
            0,
            pages_for(first_size as int),
        ) && final(state).pool_view() == mark_run(
            old(state).pool_view(),
            0,
            pages_for(first_size as int),
            false,
        )),
        r matches Some((a, b)) ==> (final(state).pool_spec().frees(a) <==> a.addr != 0) && (final(state).pool_spec().frees(b)
            <==> b.addr != 0),
        r is Some <==> old(state).is_initialized() && pair_fits(
            old(state).pool_view(),
            first_size as int,
            second_size as int,
        ),
        r matches Some((a, b)) ==> {
            let na = pages_for(first_size as int);
            let nb = pages_for(second_size as int);
            let base = old(state).pool_spec().base_spec();
            let sa = (a.addr - base) / (VMEM_PAGE_SIZE as int);
            let sb = (b.addr - base) / (VMEM_PAGE_SIZE as int);
            let mid = mark_run(old(state).pool_view(), sa, na, false);
            &&& first_fit(old(state).pool_view(), sa, na)
            &&& first_fit(mid, sb, nb)
            &&& a.size == na * VMEM_PAGE_SIZE
            &&& b.size == nb * VMEM_PAGE_SIZE
            &&& final(state).pool_view() == mark_run(mid, sb, nb, false)
        },
{
    if !state.initialized {
        None
    } else {
        state.pool.alloc_pair(first_size, second_size)
    }
}

/// Returns `buf` to the pool; empty buffers and calls before initialisation
/// change nothing.
pub fn jpu_free(state: &mut JpuMemState, buf: PhysBuffer)
    requires
        old(state).wf(),
    ensures
        final(state).wf(),
        final(state).is_initialized() == old(state).is_initialized(),
        final(state).pool_view().len() == final(state).pool_spec().pages(),
        final(state).pool_spec().pages() == old(state).pool_spec().pages(),
        final(state).pool_spec().base_spec() == old(state).pool_spec().base_spec(),
        forall|b: PhysBuffer| #[trigger] final(state).pool_spec().frees(b) == old(state).pool_spec().frees(b),
        (buf.empty_spec() || !old(state).is_initialized()) ==> *final(state) == *old(state),
        old(state).is_initialized() && old(state).pool_spec().frees(buf) ==> final(state).pool_view() == mark_run(
            old(state).pool_view(),
            (buf.addr - old(state).pool_spec().base_spec()) / (VMEM_PAGE_SIZE as int),
            (buf.size as int) / (VMEM_PAGE_SIZE as int),
            true,
        ),
        !old(state).pool_spec().frees(buf) ==> final(state).pool_view() == old(state).pool_view(),
{
    if buf.is_empty() {
        return;
    }
    if state.initialized {
        state.pool.free(buf);
    }
}

/// Copies the bitstream `src` to the start of `buf`; refused, with nothing
/// written, when it does not fit. An empty `src` writes nothing.
pub fn copy_to_phys<B: RegisterBus>(mmio: &mut Mmio<B>, buf: &PhysBuffer, src: &[u8]) -> (r: Result<(), &'static str>)
    ensures
        src@.len() > buf.size ==> (r matches Err(m) && m@ == "JPU stream buffer is too small"@)
            && final(mmio).trace() == old(mmio).trace(),
        src@.len() <= buf.size ==> r is Ok && final(mmio).trace() == if src@.len() == 0 {
            old(mmio).trace()
        } else {
            old(mmio).trace().push(BusOp::CopyToPhys { addr: buf.addr, len: src@.len() as usize, data: src@ })
        },
{
    if src.len() > buf.size {
        return Err("JPU stream buffer is too small");
    }
    if src.len() == 0 {
        return Ok(());
    }
    mmio.copy_to_phys(buf.addr, src, src.len());
    assert(src@.take(src@.len() as int) =~= src@);
    Ok(())
}

/// Zeroes `len` bytes at `offset` in `buf` (a range the JPU may prefetch past
/// the end of the bitstream); refused, with nothing written, when the range
/// overflows or runs past the buffer. An empty range writes nothing.
pub fn zero_phys_range<B: RegisterBus>(mmio: &mut Mmio<B>, buf: &PhysBuffer, offset: usize, len: usize) -> (r: Result<
    (),
    &'static str,
>)
    requires
        offset + len <= buf.size && len > 0 ==> buf.addr + offset <= usize::MAX,
    ensures
        offset + len > usize::MAX ==> (r matches Err(m) && m@ == "JPU stream zero range overflow"@)
            && final(mmio).trace() == old(mmio).trace(),
        offset + len <= usize::MAX && offset + len > buf.size ==> (r matches Err(m)
            && m@ == "JPU stream zero range exceeds its allocation"@) && final(mmio).trace() == old(mmio).trace(),
        offset + len <= buf.size ==> r is Ok && final(mmio).trace() == if len == 0 {
            old(mmio).trace()
        } else {
            old(mmio).trace().push(
                BusOp::CopyToPhys { addr: (buf.addr + offset) as usize, len, data: Seq::new(len as nat, |i: int| 0u8) },
            )
        },
{
    let end = match offset.checked_add(len) {
        Some(e) => e,
        None => return Err("JPU stream zero range overflow"),
    };
    if end > buf.size {
        return Err("JPU stream zero range exceeds its allocation");
    }
    if len == 0 {
        return Ok(());
    }
    let mut zeros: Vec<u8> = Vec::new();
    let mut i: usize = 0;
    while i < len
        invariant
            i <= len,
            zeros@.len() == i,
            forall|k: int| 0 <= k < i ==> zeros@[k] == 0u8,
        decreases len - i,
    {
        zeros.push(0);
        i = i + 1;
    }
    mmio.copy_to_phys(buf.addr + offset, &zeros, len);
    assert(zeros@.take(len as int) =~= Seq::new(len as nat, |i: int| 0u8));
    Ok(())
}

/// The first `len` bytes of `buf`, read from memory; refused, with nothing
/// read, when `len` runs past the buffer.
pub fn phys_slice<B: RegisterBus>(mmio: &mut Mmio<B>, buf: &PhysBuffer, len: usize) -> (r: Result<Vec<u8>, &'static str>)
    ensures
        len > buf.size ==> (r matches Err(m) && m@ == "JPU frame view exceeds its allocation"@)
            && final(mmio).trace() == old(mmio).trace(),
        len <= buf.size ==> (r matches Ok(v) && v@.len() == len),
        len <= buf.size ==> r is Ok && exists|data: Seq<u8>|
            #![trigger fit_len(data, len as int)]
            final(mmio).trace() == old(mmio).trace().push(BusOp::CopyFromPhys { addr: buf.addr, len, data })
            && (r matches Ok(v) && v@ == fit_len(data, len as int)),
{
    if len > buf.size {
        return Err("JPU frame view exceeds its allocation");
    }
    Ok(mmio.copy_from_phys(buf.addr, len))
}

} // verus!
