//! Offset-based paging of listing endpoints.
use vstd::prelude::*;

verus! {

/// A page at `offset` is still requested: it lies below the reported total
/// and does not pass the deepest offset the endpoint serves.
pub open spec fn page_wanted(offset: int, total: int, max_offset: int) -> bool {
    offset < total && offset <= max_offset
}

/// How far `start` is from the first offset that can no longer be wanted.
pub open spec fn pages_left(start: int, total: int, max_offset: int) -> int {
    let limit = if total < max_offset + 1 { total } else { max_offset + 1 };
    if limit > start { limit - start } else { 0 }
}

/// How many of `start, start + step, start + 2 * step, ...` are requested
/// before the first one that is not.
pub open spec fn page_count(start: int, step: int, total: int, max_offset: int) -> nat
    decreases pages_left(start, total, max_offset),
    when step > 0
{
    if page_wanted(start, total, max_offset) {
        1 + page_count(start + step, step, total, max_offset)
    } else {
        0
    }
}

/// The offsets requested after a first page: `start`, `start + step`, ... as long
/// as each is below `total` and at most `max_offset`.
pub open spec fn follow_up_offsets_spec(start: int, step: int, total: int, max_offset: int) -> Seq<int> {
    Seq::new(page_count(start, step, total, max_offset), |i: int| start + i * step)
}

proof fn lemma_page_count_step(start: int, step: int, total: int, max_offset: int)
    requires
        step > 0,
        page_wanted(start, total, max_offset),
    ensures
        page_count(start, step, total, max_offset) == 1 + page_count(start + step, step, total, max_offset),
{
}

/// Every offset before the `page_count`-th is wanted and the one after it is not.
proof fn lemma_page_count_exact(start: int, step: int, total: int, max_offset: int)
    requires
        step > 0,
    ensures
        forall|i: int| 0 <= i < page_count(start, step, total, max_offset)
            ==> #[trigger] page_wanted(start + i * step, total, max_offset),
        !page_wanted(start + page_count(start, step, total, max_offset) * step, total, max_offset),
    decreases pages_left(start, total, max_offset),
{
    if page_wanted(start, total, max_offset) {
        lemma_page_count_exact(start + step, step, total, max_offset);
        let n = page_count(start + step, step, total, max_offset);
        assert forall|i: int| 0 <= i < page_count(start, step, total, max_offset)
            implies #[trigger] page_wanted(start + i * step, total, max_offset) by {
            if i > 0 {
                assert(start + i * step == (start + step) + (i - 1) * step) by (nonlinear_arith);
                assert(page_wanted((start + step) + (i - 1) * step, total, max_offset));
            } else {
                assert(start + i * step == start) by (nonlinear_arith)
                    requires i == 0;
            }
        }
        assert(start + (n + 1) * step == (start + step) + n * step) by (nonlinear_arith);
    } else {
        assert(start + 0 * step == start) by (nonlinear_arith);
    }
}

/// The offsets of the pages that follow a first one: `start`, then every
/// `step` further, while the offset is below `total` and at most `max_offset`.
pub fn follow_up_offsets(start: usize, step: usize, total: usize, max_offset: usize) -> (r: Vec<usize>)
    requires
        step > 0,
        (max_offset as int) + (step as int) <= usize::MAX || (total as int) + (step as int) <= usize::MAX,
    ensures
        r@.len() == page_count(start as int, step as int, total as int, max_offset as int),
        forall|i: int| 0 <= i < r@.len() ==> #[trigger] r@[i] == start + i * step,
        forall|i: int| 0 <= i < r@.len() ==> page_wanted(#[trigger] r@[i] as int, total as int, max_offset as int),
{
    let mut r: Vec<usize> = Vec::new();
    let mut offset: usize = start;
    assert(start + 0 * step == start) by (nonlinear_arith);
    proof {
        lemma_page_count_exact(start as int, step as int, total as int, max_offset as int);
    }
    while offset < total && offset <= max_offset
        invariant
            step > 0,
            (max_offset as int) + (step as int) <= usize::MAX || (total as int) + (step as int) <= usize::MAX,
            offset == start + r@.len() * step,
            r@.len() + page_count(offset as int, step as int, total as int, max_offset as int)
                == page_count(start as int, step as int, total as int, max_offset as int),
            forall|i: int| 0 <= i < r@.len() ==> #[trigger] r@[i] == start + i * step,
            forall|i: int| 0 <= i < r@.len() ==> page_wanted(#[trigger] r@[i] as int, total as int, max_offset as int),
        decreases pages_left(offset as int, total as int, max_offset as int),
    {
        proof {
            lemma_page_count_step(offset as int, step as int, total as int, max_offset as int);
        }
        r.push(offset);
        assert(offset + step == start + r@.len() * step) by (nonlinear_arith)
            requires
                offset == start + (r@.len() - 1) * step;
        offset = offset + step;
    }
    r
}

/// The offset of the page after the one at `offset`, if that page is still
/// wanted given the `total` the last page reported.
pub fn next_offset(offset: usize, step: usize, total: usize, max_offset: usize) -> (r: Option<usize>)
    requires
        offset + step <= usize::MAX,
    ensures
        r == (if page_wanted(offset + step, total as int, max_offset as int) {
            Some((offset + step) as usize)
        } else {
            None::<usize>
        }),
{
    let next = offset + step;
    if next >= total || next > max_offset {
        None
    } else {
        Some(next)
    }
}

/// What `next_offset` returns.
pub open spec fn next_offset_spec(offset: int, step: int, total: int, max_offset: int) -> Option<int> {
    if page_wanted(offset + step, total, max_offset) {
        Some(offset + step)
    } else {
        None
    }
}

/// Walking page by page with `next_offset` from the first page (offset 0)
/// visits exactly the offsets `follow_up_offsets` lists for a total that stays
/// the same, and then stops.
pub proof fn lemma_paging_agrees(step: int, total: int, max_offset: int)
    requires
        step > 0,
    ensures
        ({
            let pages = follow_up_offsets_spec(step, step, total, max_offset);
            &&& next_offset_spec(0, step, total, max_offset) == (if pages.len() > 0 {
                Some(pages[0])
            } else {
                None::<int>
            })
            &&& forall|i: int| 0 <= i < pages.len() ==> next_offset_spec(#[trigger] pages[i], step, total, max_offset)
                == (if i + 1 < pages.len() { Some(pages[i + 1]) } else { None::<int> })
        }),
{
    let pages = follow_up_offsets_spec(step, step, total, max_offset);
    let n = page_count(step, step, total, max_offset);
    lemma_page_count_exact(step, step, total, max_offset);
    if n > 0 {
        assert(page_wanted(step + 0 * step, total, max_offset));
        assert(step + 0 * step == step) by (nonlinear_arith);
        assert(pages[0] == step);
    } else {
        assert(step + 0 * step == step) by (nonlinear_arith);
    }
    assert forall|i: int| 0 <= i < pages.len() implies next_offset_spec(#[trigger] pages[i], step, total, max_offset)
        == (if i + 1 < pages.len() { Some(pages[i + 1]) } else { None::<int> }) by {
        assert(pages[i] + step == step + (i + 1) * step) by (nonlinear_arith)
            requires pages[i] == step + i * step;
        if i + 1 < pages.len() {
            assert(page_wanted(step + (i + 1) * step, total, max_offset));
        } else {
            assert(i + 1 == n);
        }
    }
}

} // verus!
