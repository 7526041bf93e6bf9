//! The storage primitive: a fixed-size rectangular grid of boolean cell
//! states with row-major addressing. Direct access is bounds-checked by
//! contract and fails fast on out-of-range coordinates; wraparound is applied
//! only by the engine's neighbor lookup, never here.

use vstd::arithmetic::div_mod::lemma_fundamental_div_mod;
use vstd::arithmetic::div_mod::lemma_mod_pos_bound;
use vstd::pervasive::VecAdditionalExecFns;
use vstd::prelude::*;

verus! {

/// Row-major index of the cell at `(x, y)` in a grid `w` cells wide.
pub open spec fn index_of(w: int, x: int, y: int) -> int {
    y * w + x
}

/// The row-major index of an in-bounds coordinate lies within the grid's
/// cell count.
pub proof fn lemma_index_in_range(w: int, h: int, x: int, y: int)
    requires
        1 <= w,
        0 <= x < w,
        0 <= y < h,
    ensures
        0 <= index_of(w, x, y) < w * h,
{
    assert(0 <= y * w + x < w * h) by (nonlinear_arith)
        requires
            1 <= w,
            0 <= x < w,
            0 <= y < h,
    ;
}

/// Distinct in-bounds coordinates have distinct row-major indices.
pub proof fn lemma_index_injective(w: int, x1: int, y1: int, x2: int, y2: int)
    requires
        0 <= x1 < w,
        0 <= x2 < w,
        0 <= y1,
        0 <= y2,
        !(x1 == x2 && y1 == y2),
    ensures
        index_of(w, x1, y1) != index_of(w, x2, y2),
{
    assert(y1 * w + x1 != y2 * w + x2) by (nonlinear_arith)
        requires
            0 <= x1 < w,
            0 <= x2 < w,
            0 <= y1,
            0 <= y2,
            !(x1 == x2 && y1 == y2),
    ;
}

/// A row-major index `i` names the cell `(i % w, i / w)`, and that coordinate
/// is in bounds.
pub proof fn lemma_index_decompose(w: int, h: int, i: int)
    requires
        1 <= w,
        0 <= i < w * h,
    ensures
        0 <= i % w < w,
        0 <= i / w < h,
        index_of(w, i % w, i / w) == i,
{
    lemma_fundamental_div_mod(i, w);
    lemma_mod_pos_bound(i, w);
    assert((i / w) * w == w * (i / w)) by (nonlinear_arith);
    assert(0 <= i / w < h) by (nonlinear_arith)
        requires
            1 <= w,
            0 <= i < w * h,
            i == w * (i / w) + i % w,
            0 <= i % w < w,
    ;
}

/// A fixed-size rectangular grid of cell states. `true` is a live cell.
pub struct Buf {
    pub data: Vec<bool>,
    pub width: usize,
    pub height: usize,
}

impl Buf {
    /// Dimensions are positive and the storage holds exactly one state per
    /// cell of the `width * height` grid.
    pub open spec fn well_formed(self) -> bool {
        &&& 1 <= self.width
        &&& 1 <= self.height
        &&& self.data@.len() == self.width * self.height
    }

    /// State of the cell at `(x, y)`.
    pub open spec fn cell(self, x: int, y: int) -> bool {
        self.data@[index_of(self.width as int, x, y)]
    }

    /// A fresh grid with every cell dead.
    pub fn new(w: usize, h: usize) -> (r: Buf)
        requires
            1 <= w,
            1 <= h,
            w * h <= usize::MAX,
        ensures
            r.well_formed(),
            r.width == w,
            r.height == h,
            forall|x: int, y: int| 0 <= x < w && 0 <= y < h ==> !r.cell(x, y),
    {
        let n: usize = w * h;
        let mut data: Vec<bool> = Vec::new();
        let mut i: usize = 0;
        while i < n
            invariant
                i <= n,
                data@.len() == i,
                forall|j: int| 0 <= j < i ==> !data@[j],
            decreases n - i,
        {
            data.push(false);
            i = i + 1;
        }
        let r = Buf { data, width: w, height: h };
        proof {
            assert forall|x: int, y: int| 0 <= x < w && 0 <= y < h implies !r.cell(x, y) by {
                lemma_index_in_range(w as int, h as int, x, y);
            }
        }
        r
    }

    /// Read the cell at `(x, y)`.
    pub fn get(&self, x: usize, y: usize) -> (r: bool)
        requires
            self.well_formed(),
            x < self.width,
            y < self.height,
        ensures
            r == self.cell(x as int, y as int),
    {
        let n: usize = self.data.len();
        proof {
            lemma_index_in_range(self.width as int, self.height as int, x as int, y as int);
            assert(y * self.width + x < n);
        }
        self.data[y * self.width + x]
    }

    /// Write the cell at `(x, y)`; every other cell is unchanged.
    pub fn set(&mut self, x: usize, y: usize, value: bool)
        requires
            old(self).well_formed(),
            x < old(self).width,
            y < old(self).height,
        ensures
            final(self).well_formed(),
            final(self).width == old(self).width,
            final(self).height == old(self).height,
            final(self).data@ == old(self).data@.update(
                index_of(old(self).width as int, x as int, y as int),
                value,
            ),
            final(self).cell(x as int, y as int) == value,
            forall|a: int, b: int|
                0 <= a < old(self).width && 0 <= b < old(self).height && !(a == x && b == y)
                    ==> final(self).cell(a, b) == old(self).cell(a, b),
    {
        let n: usize = self.data.len();
        proof {
            lemma_index_in_range(self.width as int, self.height as int, x as int, y as int);
            assert(y * self.width + x < n);
        }
        let idx: usize = y * self.width + x;
        self.data.set(idx, value);
        proof {
            let w = self.width as int;
            let h = self.height as int;
            assert forall|a: int, b: int|
                0 <= a < w && 0 <= b < h && !(a == x && b == y) implies self.cell(a, b) == old(
                self,
            ).cell(a, b) by {
                lemma_index_in_range(w, h, a, b);
                lemma_index_injective(w, a, b, x as int, y as int);
            }
        }
    }

    /// An independent copy: same dimensions, same cell states.
    pub fn duplicate(&self) -> (r: Buf)
        ensures
            r.width == self.width,
            r.height == self.height,
            r.data@ == self.data@,
    {
        let mut data: Vec<bool> = Vec::new();
        let mut i: usize = 0;
        while i < self.data.len()
            invariant
                i <= self.data@.len(),
                data@ == self.data@.subrange(0, i as int),
            decreases self.data@.len() - i,
        {
            data.push(self.data[i]);
            proof {
                assert(data@ =~= self.data@.subrange(0, i + 1));
            }
            i = i + 1;
        }
        proof {
            assert(data@ =~= self.data@);
        }
        Buf { data, width: self.width, height: self.height }
    }
}

} // verus!
