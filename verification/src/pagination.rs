use vstd::prelude::*;
use vstd::string::StringExecFns;

use crate::entry::BlogEntry;

verus! {

/// Entries shown per page.
pub const PAGE_SIZE: usize = 10;

/// One page of the blog index: a bounded slice of the sorted entries and the
/// neighbouring page indices the template links to.
#[derive(Debug)]
pub struct BlogPage {
    pub title: String,
    pub entries: Vec<BlogEntry>,
    pub previous_index: Option<usize>,
    pub next_index: Option<usize>,
}

/// How many pages `n` entries make: the ceiling of `n / 10`.
pub open spec fn page_count(n: int) -> int {
    (n + 9) / 10
}

/// Where page `p`'s slice of `n` entries ends.
pub open spec fn chunk_end(p: int, n: int) -> int {
    if 10 * p + 10 <= n {
        10 * p + 10
    } else {
        n
    }
}

/// What pagination owes page `p` of `n` sorted entries: its consecutive
/// slice, and the neighbouring indices by deliberately literal arithmetic.
/// The `next_index` test divides the pre-pagination total by the page
/// size, not the page count, so a total that is an exact multiple of 10
/// gives the last page a link one past the end; this is load-bearing
/// behaviour and is kept as it stands.
pub open spec fn page_ok(pg: BlogPage, all: Seq<BlogEntry>, p: int, n: int) -> bool {
    &&& pg.title@ == "Blogs"@
    &&& pg.entries@ == all.subrange(10 * p, chunk_end(p, n))
    &&& pg.previous_index == (if p > 0 {
        Some((p - 1) as usize)
    } else {
        None::<usize>
    })
    &&& pg.next_index == (if p < n / 10 {
        Some((p + 1) as usize)
    } else {
        None::<usize>
    })
}

/// The whole pagination: `ceil(n / 10)` pages, each as `page_ok` says.
pub open spec fn pages_ok(pages: Seq<BlogPage>, all: Seq<BlogEntry>) -> bool {
    &&& pages.len() == page_count(all.len() as int)
    &&& forall|p: int|
        0 <= p < pages.len() ==> page_ok(#[trigger] pages[p], all, p, all.len() as int)
}

/// Partitions the sorted entries into consecutive pages of at most 10,
/// preserving order, with the neighbouring indices of `page_ok`.
pub fn paginate(entries: Vec<BlogEntry>) -> (pages: Vec<BlogPage>)
    ensures
        pages_ok(pages@, entries@),
{
    let ghost all = entries@;
    let n = entries.len();
    let mut rest = entries;
    let mut pages: Vec<BlogPage> = Vec::new();
    proof {
        assert(rest@ =~= all.subrange(0, n as int));
    }
    while rest.len() > 0
        invariant
            n == all.len(),
            rest@.len() <= n,
            rest@ == all.subrange(n - rest@.len(), n as int),
            rest@.len() > 0 ==> n - rest@.len() == 10 * pages@.len(),
            rest@.len() == 0 ==> pages@.len() == page_count(n as int),
            forall|p: int|
                0 <= p < pages@.len() ==> page_ok(#[trigger] pages@[p], all, p, n as int),
        decreases rest@.len(),
    {
        let ghost start = n - rest@.len();
        let mut chunk: Vec<BlogEntry> = Vec::new();
        while chunk.len() < PAGE_SIZE && rest.len() > 0
            invariant
                n == all.len(),
                chunk@.len() <= 10,
                start == 10 * pages@.len(),
                start + chunk@.len() + rest@.len() == n,
                chunk@ == all.subrange(start, start + chunk@.len()),
                rest@ == all.subrange(n - rest@.len(), n as int),
                chunk@.len() == 0 ==> rest@.len() == n - start,
            decreases rest@.len(),
        {
            let e = rest.remove(0);
            chunk.push(e);
            proof {
                assert(rest@ =~= all.subrange(n - rest@.len(), n as int));
                assert(chunk@ =~= all.subrange(start, start + chunk@.len()));
            }
        }
        let ghost clen = chunk@.len() as int;
        proof {
            assert(clen >= 1);
            if rest@.len() > 0 {
                assert(clen == 10);
            } else {
                assert(n as int == start + clen);
                assert(1 <= clen <= 10);
                assert(page_count(n as int) == pages@.len() + 1);
            }
            assert(chunk@ == all.subrange(10 * pages@.len() as int, chunk_end(pages@.len() as int, n as int)));
        }
        let p = pages.len();
        let prev = if p > 0 {
            Some(p - 1)
        } else {
            None
        };
        let next = if p < n / 10 {
            Some(p + 1)
        } else {
            None
        };
        pages.push(
            BlogPage {
                title: String::from_str("Blogs"),
                entries: chunk,
                previous_index: prev,
                next_index: next,
            },
        );
    }
    pages
}

/// The pages' entries, concatenated in page order.
pub open spec fn concat_pages(pages: Seq<BlogPage>) -> Seq<BlogEntry>
    decreases pages.len(),
{
    if pages.len() == 0 {
        Seq::empty()
    } else {
        concat_pages(pages.drop_last()) + pages.last().entries@
    }
}

proof fn lemma_pages_cover_prefix(pages: Seq<BlogPage>, all: Seq<BlogEntry>, k: int)
    requires
        pages_ok(pages, all),
        0 <= k <= pages.len(),
    ensures
        concat_pages(pages.subrange(0, k)) == all.subrange(
            0,
            if k == pages.len() {
                all.len() as int
            } else {
                10 * k
            },
        ),
    decreases k,
{
    let n = all.len() as int;
    if k == 0 {
        assert(pages.subrange(0, 0) =~= Seq::<BlogPage>::empty());
        assert(all.subrange(0, 0) =~= Seq::<BlogEntry>::empty());
    } else {
        lemma_pages_cover_prefix(pages, all, k - 1);
        assert(pages.subrange(0, k).drop_last() =~= pages.subrange(0, k - 1));
        assert(pages.subrange(0, k).last() == pages[k - 1]);
        assert(page_ok(pages[k - 1], all, k - 1, n));
        assert(10 * (k - 1) < n || (k - 1 == 0 && n == 0)) by {
            assert(pages.len() == (n + 9) / 10);
        }
        if k == pages.len() {
            assert(chunk_end(k - 1, n) == n) by {
                assert(pages.len() == (n + 9) / 10);
            }
            assert(all.subrange(0, 10 * (k - 1)) + all.subrange(10 * (k - 1), n) =~= all.subrange(
                0,
                n,
            ));
        } else {
            assert(chunk_end(k - 1, n) == 10 * k) by {
                assert(pages.len() == (n + 9) / 10);
            }
            assert(all.subrange(0, 10 * (k - 1)) + all.subrange(10 * (k - 1), 10 * k)
                =~= all.subrange(0, 10 * k));
        }
    }
}

/// Pagination partitions its input: the pages' entries, concatenated in
/// order, reproduce the sequence that was paginated exactly, and every page
/// holds at most 10 entries.
pub proof fn lemma_pages_cover(pages: Seq<BlogPage>, all: Seq<BlogEntry>)
    requires
        pages_ok(pages, all),
    ensures
        concat_pages(pages) == all,
        forall|p: int| 0 <= p < pages.len() ==> (#[trigger] pages[p]).entries@.len() <= 10,
{
    lemma_pages_cover_prefix(pages, all, pages.len() as int);
    assert(pages.subrange(0, pages.len() as int) =~= pages);
    assert(all.subrange(0, all.len() as int) =~= all);
}

} // verus!
