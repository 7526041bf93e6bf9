//! The mathematical model of one generation change: toroidal neighbor
//! counting and the birth/survival rule, stated over the flat row-major cell
//! sequence. The engine's `step` is proved against [`next_gen`].

use crate::grid::index_of;
use crate::grid::lemma_index_decompose;
use crate::grid::lemma_index_in_range;
use vstd::prelude::*;

verus! {

/// 1 for a live cell, 0 for a dead one.
pub open spec fn b2i(b: bool) -> int {
    if b {
        1
    } else {
        0
    }
}

/// The coordinate one below `v`, wrapping to `m - 1` at 0.
pub open spec fn wrap_dec(v: int, m: int) -> int {
    if v > 0 {
        v - 1
    } else {
        m - 1
    }
}

/// The coordinate one above `v`, wrapping to 0 at `m - 1`.
pub open spec fn wrap_inc(v: int, m: int) -> int {
    if v + 1 < m {
        v + 1
    } else {
        0
    }
}

/// State of the cell at `(x, y)` in the flat sequence `s` of a grid `w` wide.
pub open spec fn cell_at(s: Seq<bool>, w: int, x: int, y: int) -> bool {
    s[index_of(w, x, y)]
}

/// Number of live cells among the 8 toroidal neighbors of `(x, y)`: each of
/// x-1/x+1 and y-1/y+1 wraps modulo the width and height, and the cell itself
/// is excluded.
pub open spec fn neighbor_count(s: Seq<bool>, w: int, h: int, x: int, y: int) -> int {
    let px = wrap_dec(x, w);
    let nx = wrap_inc(x, w);
    let py = wrap_dec(y, h);
    let ny = wrap_inc(y, h);
    b2i(cell_at(s, w, x, py)) + b2i(cell_at(s, w, nx, py)) + b2i(cell_at(s, w, nx, y)) + b2i(
        cell_at(s, w, nx, ny),
    ) + b2i(cell_at(s, w, x, ny)) + b2i(cell_at(s, w, px, ny)) + b2i(cell_at(s, w, px, y)) + b2i(
        cell_at(s, w, px, py),
    )
}

/// The next state of the cell at `(x, y)`: a dead cell is born exactly on a
/// live-neighbor count of 3; a live cell survives exactly on a count of 2 or
/// 3.
pub open spec fn step_cell(s: Seq<bool>, w: int, h: int, x: int, y: int) -> bool {
    let n = neighbor_count(s, w, h, x, y);
    if cell_at(s, w, x, y) {
        n == 2 || n == 3
    } else {
        n == 3
    }
}

/// The whole next generation, as a flat row-major sequence. One `step` of the
/// engine carries the current grid to exactly this sequence.
pub open spec fn next_gen(s: Seq<bool>, w: int, h: int) -> Seq<bool> {
    Seq::new((w * h) as nat, |i: int| step_cell(s, w, h, i % w, i / w))
}

/// Pointwise reading of [`next_gen`]: the entry for the in-bounds coordinate
/// `(x, y)` is [`step_cell`] at `(x, y)`.
pub proof fn lemma_next_gen_at(s: Seq<bool>, w: int, h: int, x: int, y: int)
    requires
        1 <= w,
        1 <= h,
        0 <= x < w,
        0 <= y < h,
    ensures
        0 <= index_of(w, x, y) < w * h,
        next_gen(s, w, h)[index_of(w, x, y)] == step_cell(s, w, h, x, y),
{
    lemma_index_in_range(w, h, x, y);
    lemma_index_decompose(w, h, index_of(w, x, y));
    let i = index_of(w, x, y);
    assert(i % w == x && i / w == y) by {
        vstd::arithmetic::div_mod::lemma_fundamental_div_mod_converse(i, w, y, x);
    }
}

/// A live cell with two or three live toroidal neighbors remains alive after
/// a generation change; with any other count it dies.
pub proof fn lemma_live_cell_rule(s: Seq<bool>, w: int, h: int, x: int, y: int)
    requires
        1 <= w,
        1 <= h,
        0 <= x < w,
        0 <= y < h,
        cell_at(s, w, x, y),
    ensures
        next_gen(s, w, h)[index_of(w, x, y)] == (neighbor_count(s, w, h, x, y) == 2
            || neighbor_count(s, w, h, x, y) == 3),
{
    lemma_next_gen_at(s, w, h, x, y);
}

/// A dead cell with exactly three live toroidal neighbors becomes alive after
/// a generation change; with any other count it stays dead.
pub proof fn lemma_dead_cell_rule(s: Seq<bool>, w: int, h: int, x: int, y: int)
    requires
        1 <= w,
        1 <= h,
        0 <= x < w,
        0 <= y < h,
        !cell_at(s, w, x, y),
    ensures
        next_gen(s, w, h)[index_of(w, x, y)] == (neighbor_count(s, w, h, x, y) == 3),
{
    lemma_next_gen_at(s, w, h, x, y);
}

/// A 2x2 block of live cells with a dead margin is a still life: each block
/// cell has exactly three live neighbors and every other cell at most two, so
/// a generation change returns the grid unchanged. Dimensions of at least 4
/// keep the block's wrapped neighborhoods from overlapping it.
pub proof fn lemma_block_still_life(s: Seq<bool>, w: int, h: int, x: int, y: int)
    requires
        4 <= w,
        4 <= h,
        0 <= x,
        x + 2 <= w,
        0 <= y,
        y + 2 <= h,
        s.len() == w * h,
        forall|a: int, b: int|
            0 <= a < w && 0 <= b < h ==> (cell_at(s, w, a, b) <==> (x <= a < x + 2 && y <= b < y
                + 2)),
    ensures
        next_gen(s, w, h) == s,
{
    assert forall|i: int| 0 <= i < w * h implies next_gen(s, w, h)[i] == s[i] by {
        lemma_index_decompose(w, h, i);
        let a = i % w;
        let b = i / w;
        lemma_next_gen_at(s, w, h, a, b);
        assert(next_gen(s, w, h)[i] == step_cell(s, w, h, a, b));
        let pa = wrap_dec(a, w);
        let na = wrap_inc(a, w);
        let pb = wrap_dec(b, h);
        let nb = wrap_inc(b, h);
        assert(cell_at(s, w, a, pb) <==> (x <= a < x + 2 && y <= pb < y + 2));
        assert(cell_at(s, w, na, pb) <==> (x <= na < x + 2 && y <= pb < y + 2));
        assert(cell_at(s, w, na, b) <==> (x <= na < x + 2 && y <= b < y + 2));
        assert(cell_at(s, w, na, nb) <==> (x <= na < x + 2 && y <= nb < y + 2));
        assert(cell_at(s, w, a, nb) <==> (x <= a < x + 2 && y <= nb < y + 2));
        assert(cell_at(s, w, pa, nb) <==> (x <= pa < x + 2 && y <= nb < y + 2));
        assert(cell_at(s, w, pa, b) <==> (x <= pa < x + 2 && y <= b < y + 2));
        assert(cell_at(s, w, pa, pb) <==> (x <= pa < x + 2 && y <= pb < y + 2));
    }
    assert(next_gen(s, w, h) =~= s);
}

/// Toroidal adjacency at the origin: in a grid whose only live cells are
/// `(w-1, h-1)`, `(0, h-1)` and `(w-1, 0)`, the cell at `(0, 0)` counts all
/// three among its neighbors — the first diagonally, the second vertically,
/// the third horizontally across the wrapped edges.
pub proof fn lemma_toroidal_adjacency(s: Seq<bool>, w: int, h: int)
    requires
        3 <= w,
        3 <= h,
        s.len() == w * h,
        forall|x: int, y: int|
            0 <= x < w && 0 <= y < h ==> (cell_at(s, w, x, y) <==> ((x == w - 1 && y == h - 1) || (
            x == 0 && y == h - 1) || (x == w - 1 && y == 0))),
    ensures
        neighbor_count(s, w, h, 0, 0) == 3,
{
    assert(wrap_dec(0, w) == w - 1);
    assert(wrap_dec(0, h) == h - 1);
    assert(wrap_inc(0, w) == 1);
    assert(wrap_inc(0, h) == 1);
    assert(cell_at(s, w, w - 1, h - 1));
    assert(cell_at(s, w, 0, h - 1));
    assert(cell_at(s, w, w - 1, 0));
    assert(!cell_at(s, w, 1, h - 1));
    assert(!cell_at(s, w, 1, 0));
    assert(!cell_at(s, w, 1, 1));
    assert(!cell_at(s, w, 0, 1));
    assert(!cell_at(s, w, w - 1, 1));
}

} // verus!
