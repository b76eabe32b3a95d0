use vstd::prelude::*;

verus! {

/// How far the cursor may go into the window, 90% of its width rounded
/// down, before the window turns a page.
pub open spec fn page_threshold(w: int) -> int {
    w * 90 / 100
}

/// The width of one horizontal page, 85% of the window's width rounded down.
pub open spec fn page_step(w: int) -> int {
    w * 85 / 100
}

pub proof fn lemma_page_sizes(w: int)
    requires
        w >= 0,
    ensures
        0 <= page_step(w) <= page_threshold(w) <= w,
        page_step(w) > 0 ==> w >= 2,
{
    assert(w * 85 / 100 <= w * 90 / 100) by (nonlinear_arith)
        requires
            w >= 0,
    ;
    assert(w * 90 / 100 <= w) by (nonlinear_arith)
        requires
            w >= 0,
    ;
    assert(w * 85 / 100 > 0 ==> w >= 2) by (nonlinear_arith)
        requires
            w >= 0,
    ;
}

/// The horizontal offset for column `c` in a window of width `w`, turning
/// pages from offset `o` on: while the cursor is at least the threshold
/// past the offset, the offset moves on by a page. A window too narrow for
/// a page of one column keeps the offset.
pub open spec fn paged_from(c: int, w: int, o: int) -> int
    decreases c - o,
{
    if w >= 2 && page_step(w) > 0 && c - o >= page_threshold(w) && c - o >= 0 {
        paged_from(c, w, o + page_step(w))
    } else {
        o
    }
}

/// The horizontal offset of a frame, found by turning pages from column 0.
pub open spec fn paged(c: int, w: int) -> int {
    paged_from(c, w, 0)
}

/// The least move of offset `o` that shows position `c` in a window of
/// size `w`: back to `c` when `c` is before the window, forward until `c`
/// is its last cell when `c` is past it. An empty window only moves back.
pub open spec fn clamp_offset(o: int, c: int, w: int) -> int {
    let o1 = if c < o {
        c
    } else {
        o
    };
    if w > 0 && c >= o1 + w {
        c - w + 1
    } else {
        o1
    }
}

/// Showing the cursor a second time, with the cursor where it was, leaves
/// the offset where the first time put it.
pub proof fn lemma_clamp_idempotent(o: int, c: int, w: int)
    requires
        0 <= o,
        0 <= c,
        0 <= w,
    ensures
        clamp_offset(clamp_offset(o, c, w), c, w) == clamp_offset(o, c, w),
{
}

/// After the offset is brought to the cursor, the cursor is inside a
/// non-empty window.
pub proof fn lemma_clamp_shows(o: int, c: int, w: int)
    requires
        0 <= o,
        0 <= c,
        0 < w,
    ensures
        clamp_offset(o, c, w) <= c < clamp_offset(o, c, w) + w,
        0 <= clamp_offset(o, c, w),
{
}

} // verus!
