//! The pattern builder: a staging grid painted by rectangle fills, named
//! pattern stamps, or random noise, and finalized into an independent seed
//! grid for the engine. Finalizing does not consume the builder.

use crate::grid::Buf;
use rand::Rng;
use vstd::prelude::*;

verus! {

/// Cell of the canonical glider, by offset within its 3x3 box.
pub open spec fn glider_cell(dx: int, dy: int) -> bool {
    ||| (dx == 2 && dy == 0)
    ||| (dx == 0 && dy == 1)
    ||| (dx == 2 && dy == 1)
    ||| (dx == 1 && dy == 2)
    ||| (dx == 2 && dy == 2)
}

/// Cell of the pentadecathlon seed, by offset within its 3x8 box: the whole
/// box alive except the two cells (1,1) and (1,6).
pub open spec fn pentadecathlon_cell(dx: int, dy: int) -> bool {
    !((dx == 1 && dy == 1) || (dx == 1 && dy == 6))
}

/// Cell of the acorn, by offset within its 7x3 box.
pub open spec fn acorn_cell(dx: int, dy: int) -> bool {
    ||| (dx == 1 && dy == 0)
    ||| (dx == 3 && dy == 1)
    ||| (dx == 0 && dy == 2)
    ||| (dx == 1 && dy == 2)
    ||| (dx == 4 && dy == 2)
    ||| (dx == 5 && dy == 2)
    ||| (dx == 6 && dy == 2)
}

/// Relies on rand::Rng::gen_range over the range 0..n on the thread-local
/// generator: the draw is uniformly distributed over [0, n), so in particular
/// below n. The range is non-empty by the precondition, so the call does not
/// panic.
#[verifier::external_body]
fn random_below(n: u32) -> (r: u32)
    requires
        1 <= n,
    ensures
        r < n,
{
    rand::thread_rng().gen_range(0..n)
}

/// A staging grid plus its declared dimensions.
pub struct BufBuilder {
    pub buf: Buf,
    pub width: usize,
    pub height: usize,
}

impl BufBuilder {
    /// The staging grid is well formed and has the declared dimensions.
    pub open spec fn well_formed(self) -> bool {
        &&& self.buf.well_formed()
        &&& self.buf.width == self.width
        &&& self.buf.height == self.height
    }

    /// State of the staged cell at `(x, y)`.
    pub open spec fn cell(self, x: int, y: int) -> bool {
        self.buf.cell(x, y)
    }

    /// A builder over a fresh all-dead grid of the given dimensions.
    pub fn new(w: usize, h: usize) -> (r: BufBuilder)
        requires
            1 <= w,
            1 <= h,
            w * h <= usize::MAX,
        ensures
            r.well_formed(),
            r.width == w,
            r.height == h,
            forall|x: int, y: int| 0 <= x < w && 0 <= y < h ==> !r.cell(x, y),
    {
        BufBuilder { buf: Buf::new(w, h), width: w, height: h }
    }

    /// Set every cell of the rectangle [x, x+width) x [y, y+height) to
    /// `value`; every cell outside it is unchanged. The rectangle must lie
    /// within the grid.
    pub fn fill_rect(&mut self, x: usize, y: usize, width: usize, height: usize, value: bool)
        requires
            old(self).well_formed(),
            x + width <= old(self).width,
            y + height <= old(self).height,
        ensures
            final(self).well_formed(),
            final(self).width == old(self).width,
            final(self).height == old(self).height,
            forall|a: int, b: int|
                0 <= a < old(self).width && 0 <= b < old(self).height ==> final(self).cell(a, b)
                    == (if x <= a < x + width && y <= b < y + height {
                    value
                } else {
                    old(self).cell(a, b)
                }),
    {
        let mut cy: usize = y;
        while cy < y + height
            invariant
                self.well_formed(),
                self.width == old(self).width,
                self.height == old(self).height,
                x + width <= self.width,
                y + height <= self.height,
                y <= cy <= y + height,
                forall|a: int, b: int|
                    0 <= a < self.width && 0 <= b < self.height ==> self.cell(a, b) == (if x <= a
                        < x + width && y <= b < cy {
                        value
                    } else {
                        old(self).cell(a, b)
                    }),
            decreases y + height - cy,
        {
            let mut cx: usize = x;
            while cx < x + width
                invariant
                    self.well_formed(),
                    self.width == old(self).width,
                    self.height == old(self).height,
                    x + width <= self.width,
                    y + height <= self.height,
                    y <= cy < y + height,
                    x <= cx <= x + width,
                    forall|a: int, b: int|
                        0 <= a < self.width && 0 <= b < self.height ==> self.cell(a, b) == (if (x
                            <= a < x + width && y <= b < cy) || (b == cy && x <= a < cx) {
                            value
                        } else {
                            old(self).cell(a, b)
                        }),
                decreases x + width - cx,
            {
                let ghost prev = *self;
                self.buf.set(cx, cy, value);
                proof {
                    assert forall|a: int, b: int|
                        0 <= a < self.width && 0 <= b < self.height implies self.cell(a, b) == (
                    if (x <= a < x + width && y <= b < cy) || (b == cy && x <= a < cx + 1) {
                        value
                    } else {
                        old(self).cell(a, b)
                    }) by {
                        if a == cx && b == cy {
                            assert(self.cell(a, b) == value);
                        } else {
                            assert(self.cell(a, b) == prev.cell(a, b));
                        }
                    }
                }
                cx = cx + 1;
            }
            cy = cy + 1;
        }
    }

    /// Set every cell of the grid to dead.
    pub fn clear(&mut self)
        requires
            old(self).well_formed(),
        ensures
            final(self).well_formed(),
            final(self).width == old(self).width,
            final(self).height == old(self).height,
            forall|a: int, b: int|
                0 <= a < old(self).width && 0 <= b < old(self).height ==> !final(self).cell(a, b),
    {
        let w = self.width;
        let h = self.height;
        self.fill_rect(0, 0, w, h, false);
    }

    /// Stamp the canonical glider into the 3x3 box at `(x, y)`: exactly the
    /// five glider cells are alive there, the rest of the box is dead, and
    /// everything outside the box is unchanged.
    pub fn place_glider(&mut self, x: usize, y: usize)
        requires
            old(self).well_formed(),
            x + 3 <= old(self).width,
            y + 3 <= old(self).height,
        ensures
            final(self).well_formed(),
            final(self).width == old(self).width,
            final(self).height == old(self).height,
            forall|a: int, b: int|
                0 <= a < old(self).width && 0 <= b < old(self).height ==> final(self).cell(a, b)
                    == (if x <= a < x + 3 && y <= b < y + 3 {
                    glider_cell(a - x, b - y)
                } else {
                    old(self).cell(a, b)
                }),
    {
        self.fill_rect(x, y, 3, 3, false);
        let ghost g0 = *self;

        self.buf.set(x + 2, y, true);
        let ghost g1 = *self;
        self.buf.set(x, y + 1, true);
        let ghost g2 = *self;
        self.buf.set(x + 2, y + 1, true);
        let ghost g3 = *self;
        self.buf.set(x + 1, y + 2, true);
        let ghost g4 = *self;
        self.buf.set(x + 2, y + 2, true);
        proof {
            assert forall|a: int, b: int|
                0 <= a < old(self).width && 0 <= b < old(self).height implies self.cell(a, b) == (
            if x <= a < x + 3 && y <= b < y + 3 {
                glider_cell(a - x, b - y)
            } else {
                old(self).cell(a, b)
            }) by {
                let v0 = g0.cell(a, b);
                let v1 = g1.cell(a, b);
                let v2 = g2.cell(a, b);
                let v3 = g3.cell(a, b);
                let v4 = g4.cell(a, b);
            }
        }
    }

    /// Stamp a pentadecathlon seed into the 3x8 box at `(x, y)`: the whole
    /// box alive except the cells at offsets (1,1) and (1,6); everything
    /// outside the box is unchanged.
    pub fn place_pentadecathlon(&mut self, x: usize, y: usize)
        requires
            old(self).well_formed(),
            x + 3 <= old(self).width,
            y + 8 <= old(self).height,
        ensures
            final(self).well_formed(),
            final(self).width == old(self).width,
            final(self).height == old(self).height,
            forall|a: int, b: int|
                0 <= a < old(self).width && 0 <= b < old(self).height ==> final(self).cell(a, b)
                    == (if x <= a < x + 3 && y <= b < y + 8 {
                    pentadecathlon_cell(a - x, b - y)
                } else {
                    old(self).cell(a, b)
                }),
    {
        self.fill_rect(x, y, 3, 8, true);
        let ghost g0 = *self;

        self.buf.set(x + 1, y + 1, false);
        let ghost g1 = *self;
        self.buf.set(x + 1, y + 6, false);
        proof {
            assert forall|a: int, b: int|
                0 <= a < old(self).width && 0 <= b < old(self).height implies self.cell(a, b) == (
            if x <= a < x + 3 && y <= b < y + 8 {
                pentadecathlon_cell(a - x, b - y)
            } else {
                old(self).cell(a, b)
            }) by {
                let v0 = g0.cell(a, b);
                let v1 = g1.cell(a, b);
            }
        }
    }

    /// Stamp the acorn into the 7x3 box at `(x, y)`: exactly its seven cells
    /// are alive there, the rest of the box is dead, and everything outside
    /// the box is unchanged.
    pub fn place_acorn(&mut self, x: usize, y: usize)
        requires
            old(self).well_formed(),
            x + 7 <= old(self).width,
            y + 3 <= old(self).height,
        ensures
            final(self).well_formed(),
            final(self).width == old(self).width,
            final(self).height == old(self).height,
            forall|a: int, b: int|
                0 <= a < old(self).width && 0 <= b < old(self).height ==> final(self).cell(a, b)
                    == (if x <= a < x + 7 && y <= b < y + 3 {
                    acorn_cell(a - x, b - y)
                } else {
                    old(self).cell(a, b)
                }),
    {
        self.fill_rect(x, y, 7, 3, false);
        let ghost g0 = *self;

        self.buf.set(x + 1, y, true);
        let ghost g1 = *self;
        self.buf.set(x + 3, y + 1, true);
        let ghost g2 = *self;
        self.buf.set(x, y + 2, true);
        let ghost g3 = *self;
        self.buf.set(x + 1, y + 2, true);
        let ghost g4 = *self;
        self.buf.set(x + 4, y + 2, true);
        let ghost g5 = *self;
        self.buf.set(x + 5, y + 2, true);
        let ghost g6 = *self;
        self.buf.set(x + 6, y + 2, true);
        proof {
            assert forall|a: int, b: int|
                0 <= a < old(self).width && 0 <= b < old(self).height implies self.cell(a, b) == (
            if x <= a < x + 7 && y <= b < y + 3 {
                acorn_cell(a - x, b - y)
            } else {
                old(self).cell(a, b)
            }) by {
                let v0 = g0.cell(a, b);
                let v1 = g1.cell(a, b);
                let v2 = g2.cell(a, b);
                let v3 = g3.cell(a, b);
                let v4 = g4.cell(a, b);
                let v5 = g5.cell(a, b);
                let v6 = g6.cell(a, b);
            }
        }
    }

    /// Redraw every cell from the random source: each cell independently
    /// becomes alive with probability one in five. Which cells come out alive
    /// depends on the source's state, so only the dimensions are pinned down.
    pub fn fill_random(&mut self)
        requires
            old(self).well_formed(),
        ensures
            final(self).well_formed(),
            final(self).width == old(self).width,
            final(self).height == old(self).height,
    {
        let mut cy: usize = 0;
        while cy < self.height
            invariant
                self.well_formed(),
                self.width == old(self).width,
                self.height == old(self).height,
                cy <= self.height,
            decreases self.height - cy,
        {
            let mut cx: usize = 0;
            while cx < self.width
                invariant
                    self.well_formed(),
                    self.width == old(self).width,
                    self.height == old(self).height,
                    cy < self.height,
                    cx <= self.width,
                decreases self.width - cx,
            {
                let draw = random_below(5);
                self.buf.set(cx, cy, draw == 0);
                cx = cx + 1;
            }
            cy = cy + 1;
        }
    }

    /// An independent copy of the current staging grid; the builder remains
    /// usable for further edits.
    pub fn build(&self) -> (r: Buf)
        ensures
            r.width == self.buf.width,
            r.height == self.buf.height,
            r.data@ == self.buf.data@,
    {
        self.buf.duplicate()
    }
}

} // verus!
