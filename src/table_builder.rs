//! Building a paged property table from the property of every code point.
//!
//! The raw data holds one byte per code point. It is cut into pages of 256. A page
//! whose values all agree, leaving aside those equal to an optional gap value, becomes
//! a single top-level code. Any other page is stored once in the page array, and every
//! page of the same content refers to it.
use vstd::prelude::*;

verus! {

/// The values of page `q` of `raw`.
pub open spec fn page_of(raw: Seq<u8>, q: int) -> Seq<u8> {
    raw.subrange(q * 256, q * 256 + 256)
}

/// Every value of `page` is `v` or the gap value.
pub open spec fn uniform_as(page: Seq<u8>, v: u8, gap: Option<u8>) -> bool {
    forall|j: int| 0 <= j < page.len() ==> #[trigger] page[j] == v || gap == Some(page[j])
}

/// Some value `v` makes the page uniform.
pub open spec fn is_uniform(page: Seq<u8>, gap: Option<u8>) -> bool {
    exists|v: u8| uniform_as(page, v, gap)
}

/// A paged table: one top-level entry per page (below 0x100 the code of the whole page,
/// else 0x100 plus a page index) and the distinct pages, one after another.
pub struct PropertyTable {
    pub top: Vec<u16>,
    pub pages: Vec<u8>,
}

/// `table` describes `raw`: each uniform page has a code that every value of the page
/// holds, but for gap values; each other page refers to a stored page of the same
/// content; the stored pages are distinct and each is referred to.
pub open spec fn describes(
    top: Seq<u16>,
    pages: Seq<u8>,
    raw: Seq<u8>,
    gap: Option<u8>,
    n: int,
) -> bool {
    &&& top.len() == n
    &&& pages.len() % 256 == 0
    &&& forall|q: int|
        0 <= q < n ==> {
            &&& (#[trigger] top[q] < 0x100 <==> is_uniform(page_of(raw, q), gap))
            &&& top[q] < 0x100 ==> uniform_as(page_of(raw, q), top[q] as u8, gap)
            &&& top[q] >= 0x100 ==> {
                &&& (top[q] - 0x100) * 256 < pages.len()
                &&& page_of(pages, top[q] - 0x100) == page_of(raw, q)
            }
        }
    &&& forall|a: int, b: int|
        0 <= a < b < pages.len() / 256 ==> #[trigger] page_of(pages, a) != #[trigger] page_of(
            pages,
            b,
        )
    &&& forall|i: int| 0 <= i < pages.len() / 256 ==> #[trigger] referenced(top, n, i)
}

/// One of the first `n` top-level entries refers to page `i`.
pub open spec fn referenced(top: Seq<u16>, n: int, i: int) -> bool {
    exists|q: int| 0 <= q < n && #[trigger] top[q] == 0x100 + i
}

/// What the first `q` entries said still holds after one more entry and, possibly, one
/// more page.
proof fn lemma_extend_top(
    old_top: Seq<u16>,
    top: Seq<u16>,
    old_pages: Seq<u8>,
    pages: Seq<u8>,
    raw: Seq<u8>,
    gap: Option<u8>,
    q: int,
)
    requires
        describes(old_top, old_pages, raw, gap, q),
        top.len() == q + 1,
        top.subrange(0, q) == old_top,
        old_pages.len() <= pages.len(),
        forall|k: int|
            0 <= k < old_pages.len() / 256 ==> page_of(pages, k) == #[trigger] page_of(
                old_pages,
                k,
            ),
    ensures
        forall|p: int|
            0 <= p < q ==> {
                &&& (#[trigger] top[p] < 0x100 <==> is_uniform(page_of(raw, p), gap))
                &&& top[p] < 0x100 ==> uniform_as(page_of(raw, p), top[p] as u8, gap)
                &&& top[p] >= 0x100 ==> {
                    &&& (top[p] - 0x100) * 256 < pages.len()
                    &&& page_of(pages, top[p] - 0x100) == page_of(raw, p)
                }
            },
{
    assert forall|p: int| 0 <= p < q implies #[trigger] top[p] == old_top[p] by {
        assert(top.subrange(0, q)[p] == top[p]);
    }
}

/// Whether page `q` of `raw` equals page `i` of `pages`.
fn same_page(raw: &Vec<u8>, q: usize, pages: &Vec<u8>, i: usize) -> (r: bool)
    requires
        (q + 1) * 256 <= raw@.len(),
        (i + 1) * 256 <= pages@.len(),
    ensures
        r == (page_of(raw@, q as int) == page_of(pages@, i as int)),
{
    let ghost a = page_of(raw@, q as int);
    let ghost b = page_of(pages@, i as int);
    let raw_len = raw.len();
    let pages_len = pages.len();
    let mut j: usize = 0;
    while j < 256
        invariant
            raw_len == raw@.len(),
            pages_len == pages@.len(),
            (q + 1) * 256 <= raw@.len(),
            (i + 1) * 256 <= pages@.len(),
            a == page_of(raw@, q as int),
            b == page_of(pages@, i as int),
            j <= 256,
            forall|k: int| 0 <= k < j ==> a[k] == b[k],
        decreases 256 - j,
    {
        if raw[q * 256 + j] != pages[i * 256 + j] {
            assert(a[j as int] != b[j as int]);
            return false;
        }
        j = j + 1;
    }
    assert(a =~= b);
    true
}

/// The code that page `q` of `raw` is uniform as, if it is uniform: its first value that
/// is not the gap value, or its first value where all are gap values.
fn uniform_code(raw: &Vec<u8>, q: usize, gap: Option<u8>) -> (r: Option<u8>)
    requires
        (q + 1) * 256 <= raw@.len(),
    ensures
        r is Some <==> is_uniform(page_of(raw@, q as int), gap),
        r matches Some(v) ==> uniform_as(page_of(raw@, q as int), v, gap),
{
    let ghost page = page_of(raw@, q as int);
    let raw_len = raw.len();
    assert(q * 256 < raw_len);
    let base = q * 256;
    let mut j: usize = 0;
    while j < 256 && gap == Some(raw[base + j])
        invariant
            (q + 1) * 256 <= raw@.len(),
            base == q * 256,
            page == page_of(raw@, q as int),
            j <= 256,
            forall|k: int| 0 <= k < j ==> gap == Some(#[trigger] page[k]),
        decreases 256 - j,
    {
        j = j + 1;
    }
    if j == 256 {
        let v = raw[base];
        assert(uniform_as(page, v, gap));
        return Some(v);
    }
    let v = raw[base + j];
    assert(gap != Some(page[j as int]) && v == page[j as int]);
    let first = j;
    while j < 256
        invariant
            (q + 1) * 256 <= raw@.len(),
            base == q * 256,
            page == page_of(raw@, q as int),
            first <= j <= 256,
            first < 256,
            gap != Some(page[first as int]),
            v == page[first as int],
            forall|k: int| 0 <= k < first ==> gap == Some(#[trigger] page[k]),
            forall|k: int| first <= k < j ==> #[trigger] page[k] == v || gap == Some(page[k]),
        decreases 256 - j,
    {
        let x = raw[base + j];
        if x != v && gap != Some(x) {
            assert(!is_uniform(page, gap)) by {
                if exists|w: u8| uniform_as(page, w, gap) {
                    let w = choose|w: u8| uniform_as(page, w, gap);
                    assert(page[first as int] == w);
                    assert(page[j as int] == w);
                }
            }
            return None;
        }
        j = j + 1;
    }
    assert(uniform_as(page, v, gap));
    Some(v)
}

/// Builds the paged table of `raw`, whose pages of 256 values are `raw.len() / 256` in
/// number; values equal to `gap` do not keep a page from being uniform.
pub fn build_table(raw: &Vec<u8>, gap: Option<u8>) -> (r: PropertyTable)
    requires
        raw@.len() % 256 == 0,
        raw@.len() <= 0x110000,
    ensures
        describes(r.top@, r.pages@, raw@, gap, (raw@.len() / 256) as int),
{
    let n = raw.len() / 256;
    let mut top: Vec<u16> = Vec::new();
    let mut pages: Vec<u8> = Vec::new();
    let mut count: usize = 0;
    let mut q: usize = 0;
    while q < n
        invariant
            n == raw@.len() / 256,
            n * 256 == raw@.len(),
            n <= 0x1100,
            q <= n,
            count <= q,
            pages@.len() == count * 256,
            describes(top@, pages@, raw@, gap, q as int),
        decreases n - q,
    {
        let ghost old_top = top@;
        let ghost old_pages = pages@;
        match uniform_code(raw, q, gap) {
            Some(v) => {
                top.push(v as u16);
                assert(top@[q as int] as u8 == v);
                proof {
                    assert(top@.subrange(0, q as int) =~= old_top);
                    lemma_extend_top(old_top, top@, pages@, pages@, raw@, gap, q as int);
                }
                assert forall|i: int| 0 <= i < pages@.len() / 256 implies #[trigger] referenced(
                    top@,
                    q + 1,
                    i,
                ) by {
                    assert(referenced(old_top, q as int, i));
                    let q2 = choose|q2: int| 0 <= q2 < q && #[trigger] old_top[q2] == 0x100 + i;
                    assert(top@[q2] == 0x100 + i);
                }
            },
            None => {
                let mut i: usize = 0;
                let mut found = false;
                while i < count
                    invariant_except_break
                        !found,
                    invariant
                        pages@.len() == count * 256,
                        (q + 1) * 256 <= raw@.len(),
                        i <= count,
                        forall|k: int| 0 <= k < i ==> page_of(pages@, k) != page_of(raw@, q as int),
                    ensures
                        found ==> i < count && page_of(pages@, i as int) == page_of(raw@, q as int),
                        !found ==> i == count,
                    decreases count - i,
                {
                    if same_page(raw, q, &pages, i) {
                        found = true;
                        break;
                    }
                    i = i + 1;
                }
                if found {
                    top.push((i + 0x100) as u16);
                    proof {
                        assert(top@.subrange(0, q as int) =~= old_top);
                        lemma_extend_top(old_top, top@, pages@, pages@, raw@, gap, q as int);
                    }
                    assert forall|k: int| 0 <= k < pages@.len() / 256 implies #[trigger] referenced(
                    top@,
                    q + 1,
                    k,
                ) by {
                        assert(referenced(old_top, q as int, k));
                        let q2 = choose|q2: int|
                            0 <= q2 < q && #[trigger] old_top[q2] == 0x100 + k;
                        assert(top@[q2] == 0x100 + k);
                    }
                } else {
                    let mut j: usize = 0;
                    while j < 256
                        invariant
                            (q + 1) * 256 <= raw@.len(),
                            raw@.len() <= 0x110000,
                            old_pages.len() == count * 256,
                            j <= 256,
                            pages@.len() == count * 256 + j,
                            pages@.subrange(0, count * 256) == old_pages,
                            pages@.subrange(count * 256, count * 256 + j) == raw@.subrange(
                                q * 256,
                                q * 256 + j,
                            ),
                        decreases 256 - j,
                    {
                        pages.push(raw[q * 256 + j]);
                        assert(pages@.subrange(0, count * 256) =~= old_pages);
                        assert(pages@.subrange(count * 256, count * 256 + j + 1) =~= raw@.subrange(
                            q * 256,
                            q * 256 + j + 1,
                        ));
                        j = j + 1;
                    }
                    top.push((count + 0x100) as u16);
                    assert(page_of(pages@, count as int) =~= page_of(raw@, q as int));
                    assert forall|k: int| 0 <= k < count implies page_of(pages@, k) == page_of(
                        old_pages,
                        k,
                    ) by {
                        assert(page_of(pages@, k) =~= page_of(old_pages, k));
                    }
                    assert forall|a: int, b: int|
                        0 <= a < b < pages@.len() / 256 implies #[trigger] page_of(pages@, a)
                        != #[trigger] page_of(pages@, b) by {
                        assert(page_of(pages@, a) == page_of(old_pages, a));
                        if b < count {
                            assert(page_of(pages@, b) == page_of(old_pages, b));
                        }
                    }
                    proof {
                        assert(top@.subrange(0, q as int) =~= old_top);
                        lemma_extend_top(old_top, top@, old_pages, pages@, raw@, gap, q as int);
                    }
                    assert forall|k: int| 0 <= k < pages@.len() / 256 implies #[trigger] referenced(
                    top@,
                    q + 1,
                    k,
                ) by {
                        if k < count {
                            assert(referenced(old_top, q as int, k));
                            let q2 = choose|q2: int|
                                0 <= q2 < q && #[trigger] old_top[q2] == 0x100 + k;
                            assert(top@[q2] == 0x100 + k);
                        } else {
                            assert(top@[q as int] == 0x100 + k);
                        }
                    }
                    count = count + 1;
                }
            },
        }
        q = q + 1;
    }
    PropertyTable { top, pages }
}

} // verus!
