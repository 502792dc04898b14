//! Page-granular physical memory allocator.
//!
//! The managed heap `[heap_start, heap_end)` is divided into pages of
//! `PAGE_SIZE` bytes.  The first byte of each page is a descriptor that
//! records whether the page is taken, whether it is the final page of the
//! heap, and — on the head page of an allocation — how many contiguous
//! pages the allocation spans.  The allocator itself holds the descriptor
//! bytes; the pages' payloads never carry metadata anywhere else.

use vstd::prelude::*;

verus! {

/// Size of one managed page in bytes.
pub const PAGE_SIZE: usize = 4096;

/// Descriptor byte that prefixes each page of the managed heap.
///
/// Bit 0: `taken` — the page belongs to a live allocation.
/// Bit 1: `last` — the page is the final page of the heap (sentinel).
/// Bits 2..8: `num_reserved` — on an allocation's head page, the length
/// of the allocation in pages; zero everywhere else.
#[derive(Clone, Copy, PartialEq, Eq, Structural, Debug)]
pub struct Page {
    bits: u8,
}

impl Page {
    /// Whether the page is part of a live allocation.
    pub closed spec fn taken_spec(self) -> bool {
        self.bits & 0x01 != 0
    }

    /// Whether the page is the final page of the heap.
    pub closed spec fn last_spec(self) -> bool {
        self.bits & 0x02 != 0
    }

    /// Length in pages of the allocation headed here (0 off heads).
    pub closed spec fn reserved_spec(self) -> nat {
        (self.bits >> 2) as nat
    }

    /// The descriptor with the given field values.
    pub closed spec fn make(taken: bool, last: bool, reserved: nat) -> Page {
        Page {
            bits: ((if taken { 1u8 } else { 0u8 }) | (if last { 2u8 } else { 0u8 })
                | ((reserved as u8) << 2)) as u8,
        }
    }

    pub fn empty() -> (r: Page)
        ensures
            !r.taken_spec(),
            !r.last_spec(),
            r.reserved_spec() == 0,
            r == Page::make(false, false, 0),
    {
        proof {
            assert(0u8 & 0x01 == 0 && 0u8 & 0x02 == 0 && 0u8 >> 2 == 0 && (0u8 | 0u8 | (0u8 << 2))
                == 0u8) by (bit_vector);
        }
        Page { bits: 0 }
    }

    pub fn taken(&self) -> (r: bool)
        ensures
            r == self.taken_spec(),
    {
        self.bits & 0x01 != 0
    }

    pub fn last(&self) -> (r: bool)
        ensures
            r == self.last_spec(),
    {
        self.bits & 0x02 != 0
    }

    pub fn num_reserved(&self) -> (r: usize)
        ensures
            r == self.reserved_spec(),
            r < 64,
    {
        proof {
            let b = self.bits;
            assert(b >> 2 < 64) by (bit_vector);
        }
        (self.bits >> 2) as usize
    }

    pub fn set_taken(&mut self, v: bool)
        ensures
            final(self).taken_spec() == v,
            final(self).last_spec() == old(self).last_spec(),
            final(self).reserved_spec() == old(self).reserved_spec(),
    {
        let ghost b = self.bits;
        if v {
            self.bits = self.bits | 0x01;
            proof {
                assert((b | 0x01) & 0x01 != 0 && ((b | 0x01) & 0x02) == (b & 0x02)
                    && ((b | 0x01) >> 2) == (b >> 2)) by (bit_vector);
            }
        } else {
            self.bits = self.bits & 0xFE;
            proof {
                assert((b & 0xFE) & 0x01 == 0 && ((b & 0xFE) & 0x02) == (b & 0x02)
                    && ((b & 0xFE) >> 2) == (b >> 2)) by (bit_vector);
            }
        }
    }

    pub fn set_last(&mut self, v: bool)
        ensures
            final(self).last_spec() == v,
            final(self).taken_spec() == old(self).taken_spec(),
            final(self).reserved_spec() == old(self).reserved_spec(),
    {
        let ghost b = self.bits;
        if v {
            self.bits = self.bits | 0x02;
            proof {
                assert((b | 0x02) & 0x02 != 0 && ((b | 0x02) & 0x01) == (b & 0x01)
                    && ((b | 0x02) >> 2) == (b >> 2)) by (bit_vector);
            }
        } else {
            self.bits = self.bits & 0xFD;
            proof {
                assert((b & 0xFD) & 0x02 == 0 && ((b & 0xFD) & 0x01) == (b & 0x01)
                    && ((b & 0xFD) >> 2) == (b >> 2)) by (bit_vector);
            }
        }
    }

    pub fn set_num_reserved(&mut self, v: usize)
        requires
            v < 64,
        ensures
            final(self).reserved_spec() == v,
            final(self).taken_spec() == old(self).taken_spec(),
            final(self).last_spec() == old(self).last_spec(),
    {
        let ghost b = self.bits;
        self.bits = (self.bits & 0x03) | ((v as u8) << 2);
        proof {
            let w = v as u8;
            assert((((b & 0x03) | (w << 2)) >> 2) == w && (((b & 0x03) | (w << 2)) & 0x01)
                == (b & 0x01) && (((b & 0x03) | (w << 2)) & 0x02) == (b & 0x02)) by (bit_vector)
                requires
                    w < 64,
            ;
        }
    }
}

/// Two descriptors with the same field values are the same byte.
pub proof fn lemma_page_ext(a: Page, b: Page)
    requires
        a.taken_spec() == b.taken_spec(),
        a.last_spec() == b.last_spec(),
        a.reserved_spec() == b.reserved_spec(),
    ensures
        a == b,
{
    let x = a.bits;
    let y = b.bits;
    assert(x == y) by (bit_vector)
        requires
            (x & 0x01 != 0) == (y & 0x01 != 0),
            (x & 0x02 != 0) == (y & 0x02 != 0),
            (x >> 2) == (y >> 2),
    ;
}

/// `Page::make` yields the fields it was given, as long as the length
/// fits the six-bit field.
pub proof fn lemma_page_make(taken: bool, last: bool, reserved: nat)
    requires
        reserved < 64,
    ensures
        Page::make(taken, last, reserved).taken_spec() == taken,
        Page::make(taken, last, reserved).last_spec() == last,
        Page::make(taken, last, reserved).reserved_spec() == reserved,
{
    let t: u8 = if taken { 1u8 } else { 0u8 };
    let l: u8 = if last { 2u8 } else { 0u8 };
    let r: u8 = reserved as u8;
    assert(((t | l | (r << 2)) & 0x01 != 0) == (t == 1) && ((t | l | (r << 2)) & 0x02 != 0) == (l
        == 2) && ((t | l | (r << 2)) >> 2) == r) by (bit_vector)
        requires
            r < 64,
            t == 1 || t == 0,
            l == 2 || l == 0,
    ;
}

/// Pages `[i, i + n)` are all unallocated.
pub open spec fn window_free(s: Seq<Page>, i: int, n: int) -> bool {
    forall|j: int| i <= j < i + n ==> !(#[trigger] s[j]).taken_spec()
}

/// A run of `n` free pages fits at index `i`.
pub open spec fn fits_at(s: Seq<Page>, i: int, n: int) -> bool {
    0 <= i && i + n <= s.len() && window_free(s, i, n)
}

pub open spec fn has_fit(s: Seq<Page>, n: int) -> bool {
    exists|i: int| fits_at(s, i, n)
}

/// `i` is the lowest index where a run of `n` free pages fits.
pub open spec fn is_first_fit(s: Seq<Page>, i: int, n: int) -> bool {
    fits_at(s, i, n) && forall|j: int| 0 <= j < i ==> !fits_at(s, j, n)
}

pub open spec fn first_fit_index(s: Seq<Page>, n: int) -> int {
    choose|i: int| is_first_fit(s, i, n)
}

/// The descriptors from `i` on parse as a sequence of free pages and
/// well-formed allocated runs: a free page carries no length, and a run
/// head's length covers taken tail pages that carry no length of their
/// own.
pub open spec fn wf_from(s: Seq<Page>, i: int) -> bool
    decreases s.len() - i,
{
    if i >= s.len() {
        true
    } else if !s[i].taken_spec() {
        s[i].reserved_spec() == 0 && wf_from(s, i + 1)
    } else {
        let r = s[i].reserved_spec() as int;
        &&& 1 <= r
        &&& i + r <= s.len()
        &&& forall|j: int| i < j < i + r ==> (#[trigger] s[j]).taken_spec() && s[j].reserved_spec()
            == 0
        &&& wf_from(s, i + r)
    }
}

/// The `last` sentinel sits on the final descriptor and nowhere else.
pub open spec fn last_marks_end(s: Seq<Page>) -> bool {
    forall|i: int| 0 <= i < s.len() ==> ((#[trigger] s[i]).last_spec() <==> i == s.len() - 1)
}

/// The descriptors after reserving the run `[i, i + n)`.
pub open spec fn mark_run(s: Seq<Page>, i: int, n: int) -> Seq<Page> {
    Seq::new(
        s.len(),
        |j: int|
            if j == i {
                Page::make(true, s[j].last_spec(), n as nat)
            } else if i < j < i + n {
                Page::make(true, s[j].last_spec(), 0)
            } else {
                s[j]
            },
    )
}

/// The descriptors after releasing the run headed at `i`.
pub open spec fn clear_run(s: Seq<Page>, i: int) -> Seq<Page> {
    let n = s[i].reserved_spec() as int;
    Seq::new(
        s.len(),
        |j: int|
            if i <= j < i + n {
                Page::make(false, s[j].last_spec(), 0)
            } else {
                s[j]
            },
    )
}

/// Number of taken pages in `s[i..]`.
pub open spec fn taken_count(s: Seq<Page>, i: int) -> int
    decreases s.len() - i,
{
    if i < 0 || i >= s.len() {
        0
    } else {
        (if s[i].taken_spec() {
            1int
        } else {
            0int
        }) + taken_count(s, i + 1)
    }
}

/// Sum of the `num_reserved` fields of `s[i..]`.
pub open spec fn reserved_sum(s: Seq<Page>, i: int) -> int
    decreases s.len() - i,
{
    if i < 0 || i >= s.len() {
        0
    } else {
        s[i].reserved_spec() + reserved_sum(s, i + 1)
    }
}

/// Well-formedness of a suffix depends only on that suffix.
proof fn lemma_wf_agree(s1: Seq<Page>, s2: Seq<Page>, i: int)
    requires
        s1.len() == s2.len(),
        0 <= i <= s1.len(),
        forall|j: int| i <= j < s1.len() ==> s1[j] == s2[j],
        wf_from(s1, i),
    ensures
        wf_from(s2, i),
    decreases s1.len() - i,
{
    if i < s1.len() {
        if !s1[i].taken_spec() {
            lemma_wf_agree(s1, s2, i + 1);
        } else {
            lemma_wf_agree(s1, s2, i + s1[i].reserved_spec() as int);
        }
    }
}

/// Parsing may start after any stretch of free pages.
proof fn lemma_wf_skip_free(s: Seq<Page>, k: int, m: int)
    requires
        0 <= k <= m <= s.len(),
        wf_from(s, k),
        forall|j: int| k <= j < m ==> !(#[trigger] s[j]).taken_spec(),
    ensures
        wf_from(s, m),
    decreases m - k,
{
    if k < m {
        lemma_wf_skip_free(s, k + 1, m);
    }
}

/// A stretch of cleared pages may be prepended to a well-formed suffix.
proof fn lemma_wf_prepend_free(s: Seq<Page>, k: int, m: int)
    requires
        0 <= k <= m <= s.len(),
        wf_from(s, m),
        forall|j: int|
            k <= j < m ==> !(#[trigger] s[j]).taken_spec() && s[j].reserved_spec() == 0,
    ensures
        wf_from(s, k),
    decreases m - k,
{
    if k < m {
        lemma_wf_prepend_free(s, k + 1, m);
    }
}

/// In a well-formed heap, a free page carries no run length.
proof fn lemma_wf_free_zero(s: Seq<Page>, i: int)
    requires
        0 <= i <= s.len(),
        wf_from(s, i),
    ensures
        forall|j: int|
            i <= j < s.len() && !(#[trigger] s[j]).taken_spec() ==> s[j].reserved_spec() == 0,
    decreases s.len() - i,
{
    if i < s.len() {
        if !s[i].taken_spec() {
            lemma_wf_free_zero(s, i + 1);
        } else {
            lemma_wf_free_zero(s, i + s[i].reserved_spec() as int);
        }
    }
}

/// In a well-formed heap, any page carrying a run length heads a whole
/// run: its tail pages are taken and lengthless, and parsing resumes
/// both at the head and just past the run.
proof fn lemma_wf_reserved_head(s: Seq<Page>, i: int, t: int)
    requires
        0 <= i <= t < s.len(),
        wf_from(s, i),
        s[t].reserved_spec() >= 1,
    ensures
        s[t].taken_spec(),
        t + s[t].reserved_spec() <= s.len(),
        forall|j: int|
            t < j < t + s[t].reserved_spec() ==> (#[trigger] s[j]).taken_spec()
                && s[j].reserved_spec() == 0,
        wf_from(s, t),
        wf_from(s, t + s[t].reserved_spec() as int),
    decreases t - i,
{
    if !s[i].taken_spec() {
        if i == t {
            assert(false);
        } else {
            lemma_wf_reserved_head(s, i + 1, t);
        }
    } else {
        let r = s[i].reserved_spec() as int;
        if i == t {
        } else if t < i + r {
            assert(s[t].reserved_spec() == 0);
        } else {
            lemma_wf_reserved_head(s, i + r, t);
        }
    }
}

/// Reserving a free window keeps the heap well-formed.
proof fn lemma_mark_wf_from(s: Seq<Page>, i: int, n: int, k: int)
    requires
        1 <= n < 64,
        fits_at(s, i, n),
        0 <= k <= i,
        wf_from(s, k),
    ensures
        wf_from(mark_run(s, i, n), k),
    decreases i - k,
{
    let m = mark_run(s, i, n);
    lemma_page_make(true, s[i].last_spec(), n as nat);
    if k == i {
        lemma_wf_skip_free(s, i, i + n);
        lemma_wf_agree(s, m, i + n);
        assert forall|j: int| i < j < i + n implies (#[trigger] m[j]).taken_spec()
            && m[j].reserved_spec() == 0 by {
            lemma_page_make(true, s[j].last_spec(), 0);
        }
        assert(wf_from(m, i));
    } else {
        if !s[k].taken_spec() {
            lemma_mark_wf_from(s, i, n, k + 1);
            assert(wf_from(m, k));
        } else {
            let r = s[k].reserved_spec() as int;
            assert(!s[i].taken_spec());
            assert(k + r <= i);
            lemma_mark_wf_from(s, i, n, k + r);
            assert(wf_from(m, k));
        }
    }
}

/// Releasing a run keeps the heap well-formed.
proof fn lemma_clear_wf_from(s: Seq<Page>, t: int, k: int)
    requires
        0 <= k <= t < s.len(),
        s[t].reserved_spec() >= 1,
        wf_from(s, k),
    ensures
        wf_from(clear_run(s, t), k),
    decreases t - k,
{
    let c = clear_run(s, t);
    let r = s[t].reserved_spec() as int;
    if k == t {
        lemma_wf_reserved_head(s, k, t);
        lemma_wf_agree(s, c, t + r);
        assert forall|j: int| t <= j < t + r implies !(#[trigger] c[j]).taken_spec()
            && c[j].reserved_spec() == 0 by {
            lemma_page_make(false, s[j].last_spec(), 0);
        }
        lemma_wf_prepend_free(c, t, t + r);
    } else {
        if !s[k].taken_spec() {
            lemma_clear_wf_from(s, t, k + 1);
            assert(wf_from(c, k));
        } else {
            let rk = s[k].reserved_spec() as int;
            lemma_wf_reserved_head(s, k, t);
            assert(k + rk <= t) by {
                if t < k + rk {
                    assert(s[t].reserved_spec() == 0);
                }
            }
            lemma_clear_wf_from(s, t, k + rk);
            assert(wf_from(c, k));
        }
    }
}

/// Reserving a run touches no `last` bit.
proof fn lemma_mark_last(s: Seq<Page>, i: int, n: int)
    requires
        0 <= n < 64,
    ensures
        forall|j: int|
            0 <= j < s.len() ==> (#[trigger] mark_run(s, i, n)[j]).last_spec() == s[j].last_spec(),
{
    assert forall|j: int| 0 <= j < s.len() implies (#[trigger] mark_run(s, i, n)[j]).last_spec()
        == s[j].last_spec() by {
        if j == i {
            lemma_page_make(true, s[j].last_spec(), n as nat);
        } else if i < j < i + n {
            lemma_page_make(true, s[j].last_spec(), 0);
        }
    }
}

/// Releasing a run touches no `last` bit.
proof fn lemma_clear_last(s: Seq<Page>, i: int)
    ensures
        forall|j: int|
            0 <= j < s.len() ==> (#[trigger] clear_run(s, i)[j]).last_spec() == s[j].last_spec(),
{
    let r = s[i].reserved_spec() as int;
    assert forall|j: int| 0 <= j < s.len() implies (#[trigger] clear_run(s, i)[j]).last_spec()
        == s[j].last_spec() by {
        if i <= j < i + r {
            lemma_page_make(false, s[j].last_spec(), 0);
        }
    }
}

/// Releasing a run that was just reserved restores the heap exactly:
/// `free` after `get` is a no-op on the descriptors.
pub proof fn lemma_free_undoes_get(s: Seq<Page>, i: int, n: int)
    requires
        wf_from(s, 0),
        1 <= n < 64,
        fits_at(s, i, n),
    ensures
        clear_run(mark_run(s, i, n), i) == s,
{
    let m = mark_run(s, i, n);
    lemma_page_make(true, s[i].last_spec(), n as nat);
    assert(m[i].reserved_spec() == n);
    let c = clear_run(m, i);
    lemma_wf_free_zero(s, 0);
    assert forall|j: int| 0 <= j < s.len() implies c[j] == s[j] by {
        if i <= j < i + n {
            lemma_page_make(true, m[j].last_spec(), if j == i {
                n as nat
            } else {
                0
            });
            lemma_page_make(false, m[j].last_spec(), 0);
            lemma_page_make(true, s[j].last_spec(), if j == i {
                n as nat
            } else {
                0
            });
            assert(!s[j].taken_spec());
            assert(s[j].reserved_spec() == 0);
            lemma_page_ext(c[j], s[j]);
        }
    }
    assert(c =~= s);
}

/// Distinct allocations never overlap: a window that is still free
/// after a run has been reserved lies entirely outside that run.
pub proof fn lemma_runs_disjoint(s: Seq<Page>, i1: int, n1: int, i2: int, n2: int)
    requires
        0 <= i1,
        i1 + n1 <= s.len(),
        1 <= n1 < 64,
        1 <= n2,
        fits_at(mark_run(s, i1, n1), i2, n2),
    ensures
        i1 + n1 <= i2 || i2 + n2 <= i1,
{
    let m = mark_run(s, i1, n1);
    if !(i1 + n1 <= i2 || i2 + n2 <= i1) {
        let j = if i2 <= i1 {
            i1
        } else {
            i2
        };
        assert(i1 <= j < i1 + n1 && i2 <= j < i2 + n2);
        lemma_page_make(true, s[j].last_spec(), if j == i1 {
            n1 as nat
        } else {
            0
        });
        assert(m[j].taken_spec());
        assert(!m[j].taken_spec());
    }
}

/// Over a stretch of lengthless taken pages, both tallies advance in
/// lock step.
proof fn lemma_counts_over_tail(s: Seq<Page>, j: int, e: int)
    requires
        0 <= j <= e <= s.len(),
        forall|k: int| j <= k < e ==> (#[trigger] s[k]).taken_spec() && s[k].reserved_spec() == 0,
    ensures
        taken_count(s, j) == (e - j) + taken_count(s, e),
        reserved_sum(s, j) == reserved_sum(s, e),
    decreases e - j,
{
    if j < e {
        lemma_counts_over_tail(s, j + 1, e);
    }
}

proof fn lemma_conservation_from(s: Seq<Page>, i: int)
    requires
        0 <= i <= s.len(),
        wf_from(s, i),
    ensures
        taken_count(s, i) == reserved_sum(s, i),
    decreases s.len() - i,
{
    if i < s.len() {
        if !s[i].taken_spec() {
            lemma_conservation_from(s, i + 1);
        } else {
            let r = s[i].reserved_spec() as int;
            lemma_counts_over_tail(s, i + 1, i + r);
            lemma_conservation_from(s, i + r);
        }
    }
}

/// In a well-formed heap the number of taken pages equals the sum of
/// the run lengths recorded on allocation heads: no page is leaked and
/// none is double-counted, whatever sequence of `get`/`free` calls
/// produced the state.
pub proof fn lemma_taken_count_eq_reserved_sum(s: Seq<Page>)
    requires
        wf_from(s, 0),
    ensures
        taken_count(s, 0) == reserved_sum(s, 0),
{
    lemma_conservation_from(s, 0);
}

/// First-fit multi-page allocator over a heap of `PAGE_SIZE`-byte
/// pages, one descriptor byte per page.
pub struct Alloc {
    descs: Vec<Page>,
    heap_start: usize,
}

impl Alloc {
    /// The descriptor of each page of the heap, in page order.
    pub closed spec fn pages(self) -> Seq<Page> {
        self.descs@
    }

    /// First byte address of the managed heap.
    pub closed spec fn base(self) -> int {
        self.heap_start as int
    }

    pub open spec fn wf(self) -> bool {
        &&& self.pages().len() >= 1
        &&& wf_from(self.pages(), 0)
        &&& last_marks_end(self.pages())
        &&& self.base() % (PAGE_SIZE as int) == 0
        &&& self.base() + self.pages().len() * (PAGE_SIZE as int) <= usize::MAX
    }

    /// Set up the allocator over `[heap_start, heap_end)`: every page
    /// starts free, and the final descriptor carries the `last`
    /// sentinel.  An empty or misaligned heap region is a boot-time
    /// bug, so such regions are excluded outright.
    pub fn init(heap_start: usize, heap_end: usize) -> (r: Alloc)
        requires
            heap_start % PAGE_SIZE == 0,
            heap_end % PAGE_SIZE == 0,
            heap_start + PAGE_SIZE <= heap_end,
        ensures
            r.wf(),
            r.base() == heap_start,
            r.pages().len() == ((heap_end - heap_start) as int) / (PAGE_SIZE as int),
            forall|i: int|
                0 <= i < r.pages().len() ==> !(#[trigger] r.pages()[i]).taken_spec()
                    && r.pages()[i].reserved_spec() == 0,
            forall|i: int|
                0 <= i < r.pages().len() ==> ((#[trigger] r.pages()[i]).last_spec() <==> i
                    == r.pages().len() - 1),
    {
        let heap_size = heap_end - heap_start;
        let num_pages = heap_size / PAGE_SIZE;
        proof {
            assert(heap_size as int / (PAGE_SIZE as int) >= 1) by (nonlinear_arith)
                requires
                    heap_size >= PAGE_SIZE,
                    PAGE_SIZE == 4096,
            ;
            assert(num_pages * (PAGE_SIZE as int) <= heap_size as int) by (nonlinear_arith)
                requires
                    num_pages == heap_size as int / (PAGE_SIZE as int),
                    heap_size >= 0,
                    PAGE_SIZE == 4096,
            ;
        }
        let mut descs: Vec<Page> = Vec::new();
        let mut i: usize = 0;
        while i < num_pages
            invariant
                i <= num_pages,
                descs.len() == i,
                forall|j: int|
                    0 <= j < i ==> !(#[trigger] descs@[j]).taken_spec() && !descs@[j].last_spec()
                        && descs@[j].reserved_spec() == 0,
            decreases num_pages - i,
        {
            descs.push(Page::empty());
            i = i + 1;
        }
        let mut p = descs[num_pages - 1];
        p.set_last(true);
        descs.set(num_pages - 1, p);
        proof {
            lemma_wf_prepend_free(descs@, 0, descs@.len() as int);
        }
        Alloc { descs, heap_start }
    }

    /// Reserve the first (lowest-addressed) run of `num_requested`
    /// consecutive free pages and return the address of the page that
    /// follows the run's head, or `None` when no such run exists.
    /// At least one page must be asked for, and no more than the
    /// descriptor's six-bit run-length field can record.
    pub fn get(&mut self, num_requested: usize) -> (r: Option<usize>)
        requires
            old(self).wf(),
            1 <= num_requested < 64,
        ensures
            final(self).wf(),
            final(self).base() == old(self).base(),
            final(self).pages().len() == old(self).pages().len(),
            r is None ==> final(self).pages() == old(self).pages() && !has_fit(
                old(self).pages(),
                num_requested as int,
            ),
            r matches Some(addr) ==> ({
                let i = first_fit_index(old(self).pages(), num_requested as int);
                &&& is_first_fit(old(self).pages(), i, num_requested as int)
                &&& addr == old(self).base() + (i + 1) * (PAGE_SIZE as int)
                &&& final(self).pages() == mark_run(old(self).pages(), i, num_requested as int)
            }),
    {
        let ghost s = self.descs@;
        let n = num_requested;
        let len = self.descs.len();
        let mut head: usize = 0;
        let mut count: usize = 0;
        loop
            invariant
                self.descs@ == s,
                s == old(self).pages(),
                self.heap_start == old(self).heap_start,
                old(self).base() == self.heap_start as int,
                wf_from(s, 0),
                last_marks_end(s),
                self.heap_start + len * (PAGE_SIZE as int) <= usize::MAX,
                self.heap_start % PAGE_SIZE == 0,
                1 <= n < 64,
                n == num_requested,
                len == s.len(),
                1 <= len,
                head + count <= len,
                count < n,
                wf_from(s, head as int),
                forall|h: int| 0 <= h < head ==> !fits_at(s, h, n as int),
                forall|j: int| head <= j < head + count ==> !(#[trigger] s[j]).taken_spec(),
            decreases len - head - count,
        {
            let tail = head + count;
            if tail >= len {
                proof {
                    assert forall|h: int| true implies !fits_at(s, h, n as int) by {
                        if h >= head {
                            assert(h + n > len);
                        }
                    }
                }
                return None;
            }
            proof {
                lemma_wf_skip_free(s, head as int, tail as int);
            }
            if self.descs[tail].taken() {
                let jump = self.descs[tail].num_reserved();
                proof {
                    assert(jump >= 1);
                    assert(tail + jump <= len);
                    assert forall|h: int| 0 <= h < tail + jump implies !fits_at(s, h, n as int) by {
                        if head <= h <= tail {
                            assert(h <= tail < h + n);
                            assert(s[tail as int].taken_spec());
                        } else if tail < h {
                            assert(s[h].taken_spec());
                        }
                    }
                }
                head = tail + jump;
                count = 0;
            } else {
                count = count + 1;
                if count == n {
                    proof {
                        assert(fits_at(s, head as int, n as int));
                        assert(is_first_fit(s, head as int, n as int));
                        lemma_first_fit_unique(s, head as int, n as int);
                    }
                    let ghost hi = head as int;
                    let mut p = self.descs[head];
                    p.set_taken(true);
                    p.set_num_reserved(n);
                    self.descs.set(head, p);
                    let mut k = head + 1;
                    while k < head + n
                        invariant
                            head + n <= len,
                            head < k <= head + n,
                            len == self.descs.len(),
                            1 <= n < 64,
                            n == num_requested,
                            s.len() == len,
                            s == old(self).pages(),
                            self.heap_start == old(self).heap_start,
                            old(self).base() == self.heap_start as int,
                            wf_from(s, 0),
                            last_marks_end(s),
                            self.heap_start + len * (PAGE_SIZE as int) <= usize::MAX,
                            self.heap_start % PAGE_SIZE == 0,
                            hi == head as int,
                            fits_at(s, hi, n as int),
                            is_first_fit(s, hi, n as int),
                            (#[trigger] self.descs@[head as int]).taken_spec(),
                            self.descs@[head as int].reserved_spec() == n,
                            self.descs@[head as int].last_spec() == s[head as int].last_spec(),
                            forall|j: int|
                                head < j < k ==> (#[trigger] self.descs@[j]).taken_spec()
                                    && self.descs@[j].reserved_spec() == 0
                                    && self.descs@[j].last_spec() == s[j].last_spec(),
                            forall|j: int|
                                0 <= j < len && !(head <= j < k) ==> #[trigger] self.descs@[j]
                                    == s[j],
                        decreases head + n - k,
                    {
                        let mut q = self.descs[k];
                        q.set_taken(true);
                        q.set_num_reserved(0);
                        self.descs.set(k, q);
                        k = k + 1;
                    }
                    proof {
                        let m = mark_run(s, hi, n as int);
                        assert forall|j: int| 0 <= j < len implies self.descs@[j] == m[j] by {
                            if j == hi {
                                lemma_page_make(true, s[j].last_spec(), n as nat);
                                lemma_page_ext(self.descs@[j], m[j]);
                            } else if hi < j < hi + n {
                                lemma_page_make(true, s[j].last_spec(), 0);
                                lemma_page_ext(self.descs@[j], m[j]);
                            }
                        }
                        assert(self.descs@ =~= m);
                        lemma_mark_wf_from(s, hi, n as int, 0);
                        lemma_mark_last(s, hi, n as int);
                        assert((head + 1) * (PAGE_SIZE as int) <= len * (PAGE_SIZE as int))
                            by (nonlinear_arith)
                            requires
                                head + 1 <= len,
                                PAGE_SIZE == 4096,
                        ;
                    }
                    return Some(self.heap_start + (head + 1) * PAGE_SIZE);
                }
            }
        }
    }

    /// Release the allocation whose payload begins at `ptr`, which must
    /// be an address previously returned by `get` and still live: the
    /// whole run is marked free again.
    pub fn free(&mut self, ptr: usize)
        requires
            old(self).wf(),
            old(self).base() + PAGE_SIZE <= ptr,
            (ptr - old(self).base()) % (PAGE_SIZE as int) == 0,
            (ptr - old(self).base()) / (PAGE_SIZE as int) - 1 < old(self).pages().len(),
            old(self).pages()[(ptr - old(self).base()) / (PAGE_SIZE as int)
                - 1].reserved_spec() >= 1,
        ensures
            final(self).wf(),
            final(self).base() == old(self).base(),
            final(self).pages() == clear_run(
                old(self).pages(),
                (ptr - old(self).base()) / (PAGE_SIZE as int) - 1,
            ),
    {
        let ghost s = self.descs@;
        proof {
            assert((ptr - self.heap_start) as int / (PAGE_SIZE as int) >= 1) by (nonlinear_arith)
                requires
                    ptr - self.heap_start >= PAGE_SIZE,
                    PAGE_SIZE == 4096,
            ;
        }
        let idx = (ptr - self.heap_start) / PAGE_SIZE - 1;
        let ghost t = idx as int;
        let run = self.descs[idx].num_reserved();
        proof {
            lemma_wf_reserved_head(s, 0, t);
        }
        let mut k = idx;
        while k < idx + run
            invariant
                idx + run <= self.descs.len(),
                idx <= k <= idx + run,
                s.len() == self.descs.len(),
                s[t].reserved_spec() == run,
                t == idx,
                0 <= t < s.len(),
                s == old(self).pages(),
                self.heap_start == old(self).heap_start,
                old(self).base() == self.heap_start as int,
                wf_from(s, 0),
                last_marks_end(s),
                self.heap_start + s.len() * (PAGE_SIZE as int) <= usize::MAX,
                self.heap_start % PAGE_SIZE == 0,
                1 <= s.len(),
                forall|j: int|
                    idx <= j < k ==> !(#[trigger] self.descs@[j]).taken_spec()
                        && self.descs@[j].reserved_spec() == 0 && self.descs@[j].last_spec()
                        == s[j].last_spec(),
                forall|j: int|
                    0 <= j < s.len() && !(idx <= j < k) ==> #[trigger] self.descs@[j] == s[j],
            decreases idx + run - k,
        {
            let mut q = self.descs[k];
            q.set_taken(false);
            q.set_num_reserved(0);
            self.descs.set(k, q);
            k = k + 1;
        }
        proof {
            let c = clear_run(s, t);
            assert forall|j: int| 0 <= j < s.len() implies self.descs@[j] == c[j] by {
                if t <= j < t + run {
                    lemma_page_make(false, s[j].last_spec(), 0);
                    lemma_page_ext(self.descs@[j], c[j]);
                }
            }
            assert(self.descs@ =~= c);
            lemma_clear_wf_from(s, t, 0);
            lemma_clear_last(s, t);
        }
    }
}

impl Alloc {
    /// Number of pages in the managed heap.
    pub fn num_pages(&self) -> (r: usize)
        ensures
            r == self.pages().len(),
    {
        self.descs.len()
    }

    /// The descriptor of page `i`.
    pub fn page(&self, i: usize) -> (r: Page)
        requires
            i < self.pages().len(),
        ensures
            r == self.pages()[i as int],
    {
        self.descs[i]
    }
}

/// Two runs at disjoint page indexes occupy disjoint address ranges:
/// what `get` hands out for one allocation never overlaps another.
pub proof fn lemma_disjoint_addresses(base: int, i1: int, n1: int, i2: int, n2: int)
    requires
        0 <= base,
        0 <= i1,
        0 <= i2,
        1 <= n1,
        1 <= n2,
        i1 + n1 <= i2 || i2 + n2 <= i1,
    ensures
        base + (i1 + 1) * (PAGE_SIZE as int) + n1 * (PAGE_SIZE as int) <= base + (i2 + 1) * (
        PAGE_SIZE as int) || base + (i2 + 1) * (PAGE_SIZE as int) + n2 * (PAGE_SIZE as int)
            <= base + (i1 + 1) * (PAGE_SIZE as int),
{
    if i1 + n1 <= i2 {
        assert((i1 + 1) * (PAGE_SIZE as int) + n1 * (PAGE_SIZE as int) <= (i2 + 1) * (
        PAGE_SIZE as int)) by (nonlinear_arith)
            requires
                i1 + n1 <= i2,
        ;
    } else {
        assert((i2 + 1) * (PAGE_SIZE as int) + n2 * (PAGE_SIZE as int) <= (i1 + 1) * (
        PAGE_SIZE as int)) by (nonlinear_arith)
            requires
                i2 + n2 <= i1,
        ;
    }
}

/// The address `get` hands out for a run headed at page `i` leads
/// `free` back to exactly that head page.
pub proof fn lemma_address_round_trip(base: int, i: int)
    requires
        0 <= base,
        0 <= i,
        base % (PAGE_SIZE as int) == 0,
    ensures
        ((base + (i + 1) * (PAGE_SIZE as int)) - base) / (PAGE_SIZE as int) - 1 == i,
{
    assert(((i + 1) * (PAGE_SIZE as int)) / (PAGE_SIZE as int) == i + 1) by (nonlinear_arith)
        requires
            0 <= i,
    ;
}

/// The first-fit index is unique.
pub proof fn lemma_first_fit_unique(s: Seq<Page>, i: int, n: int)
    requires
        is_first_fit(s, i, n),
    ensures
        first_fit_index(s, n) == i,
{
    let j = first_fit_index(s, n);
    assert(is_first_fit(s, j, n));
    if j < i {
        assert(!fits_at(s, j, n));
    } else if i < j {
        assert(!fits_at(s, i, n));
    }
}

} // verus!
