//! The automaton engine. It owns two grids of equal dimensions — the current
//! generation and a scratch buffer for the next one — so that a step reads
//! only from `current` and writes only to `next`, then exchanges the two in
//! O(1) by an ownership swap.

use crate::grid::Buf;
use crate::grid::index_of;
use crate::grid::lemma_index_decompose;
use crate::rules::b2i;
use crate::rules::neighbor_count;
use crate::rules::next_gen;
use crate::rules::step_cell;
use crate::rules::wrap_dec;
use crate::rules::wrap_inc;
use vstd::prelude::*;

verus! {

/// A construction-time contract violation.
#[derive(Clone, Copy, Debug, PartialEq, Eq, Structural)]
pub enum ConfigError {
    /// The seed grid's dimensions differ from the engine's declared ones.
    DimensionMismatch,
}

/// 1 for a live cell, 0 for a dead one.
fn bool_to_num(b: bool) -> (n: usize)
    ensures
        n == b2i(b),
{
    if b {
        1
    } else {
        0
    }
}

/// The simulation engine: current generation, scratch buffer, and the shared
/// dimensions of both.
pub struct Field {
    pub curr_buf: Buf,
    pub next_buf: Buf,
    pub width: usize,
    pub height: usize,
}

impl Field {
    /// Both grids are well formed and share the engine's dimensions.
    pub open spec fn well_formed(self) -> bool {
        &&& self.curr_buf.well_formed()
        &&& self.next_buf.well_formed()
        &&& self.curr_buf.width == self.width
        &&& self.curr_buf.height == self.height
        &&& self.next_buf.width == self.width
        &&& self.next_buf.height == self.height
    }

    /// State of the cell at `(x, y)` in the current generation.
    pub open spec fn cell(self, x: int, y: int) -> bool {
        self.curr_buf.cell(x, y)
    }

    /// Construct an engine from a seed grid. A seed whose dimensions differ
    /// from the declared `width` and `height` is rejected with a
    /// configuration error; otherwise the seed becomes the current
    /// generation and a same-size scratch buffer is created.
    pub fn new(width: usize, height: usize, initial_buf: Buf) -> (r: Result<Field, ConfigError>)
        requires
            initial_buf.well_formed(),
        ensures
            r is Ok <==> (initial_buf.width == width && initial_buf.height == height),
            r is Ok ==> r->Ok_0.well_formed() && r->Ok_0.width == width && r->Ok_0.height == height
                && r->Ok_0.curr_buf.data@ == initial_buf.data@,
            r is Err ==> r->Err_0 == ConfigError::DimensionMismatch,
    {
        if initial_buf.width != width || initial_buf.height != height {
            return Err(ConfigError::DimensionMismatch);
        }
        let next_buf = initial_buf.duplicate();
        Ok(Field { curr_buf: initial_buf, next_buf, width, height })
    }

    /// Read the cell at `(x, y)` of the current generation.
    pub fn get(&self, x: usize, y: usize) -> (r: bool)
        requires
            self.well_formed(),
            x < self.width,
            y < self.height,
        ensures
            r == self.cell(x as int, y as int),
    {
        self.curr_buf.get(x, y)
    }

    /// Number of live cells among the 8 toroidal neighbors of `(x, y)` in the
    /// current generation.
    #[verifier::rlimit(100)]
    pub fn get_live_neighbour_count(&self, x: usize, y: usize) -> (n: usize)
        requires
            self.well_formed(),
            x < self.width,
            y < self.height,
        ensures
            n == neighbor_count(
                self.curr_buf.data@,
                self.width as int,
                self.height as int,
                x as int,
                y as int,
            ),
            n <= 8,
    {
        let prev_x = if x > 0 {
            x - 1
        } else {
            self.width - 1
        };
        let next_x = if x < self.width - 1 {
            x + 1
        } else {
            0
        };
        let prev_y = if y > 0 {
            y - 1
        } else {
            self.height - 1
        };
        let next_y = if y < self.height - 1 {
            y + 1
        } else {
            0
        };
        proof {
            assert(prev_x == wrap_dec(x as int, self.width as int));
            assert(next_x == wrap_inc(x as int, self.width as int));
            assert(prev_y == wrap_dec(y as int, self.height as int));
            assert(next_y == wrap_inc(y as int, self.height as int));
        }
        let buf = &self.curr_buf;

        let result = bool_to_num(buf.get(x, prev_y)) + bool_to_num(buf.get(next_x, prev_y))
            + bool_to_num(buf.get(next_x, y)) + bool_to_num(buf.get(next_x, next_y)) + bool_to_num(
            buf.get(x, next_y),
        ) + bool_to_num(buf.get(prev_x, next_y)) + bool_to_num(buf.get(prev_x, y)) + bool_to_num(
            buf.get(prev_x, prev_y),
        );

        result
    }

    /// Advance the simulation by exactly one generation: every cell of the
    /// next grid is the step rule applied to the current one, and the two
    /// grids then exchange roles by a single ownership swap.
    pub fn step(&mut self)
        requires
            old(self).well_formed(),
        ensures
            final(self).well_formed(),
            final(self).width == old(self).width,
            final(self).height == old(self).height,
            final(self).curr_buf.data@ == next_gen(
                old(self).curr_buf.data@,
                old(self).width as int,
                old(self).height as int,
            ),
    {
        let w = self.width;
        let h = self.height;
        let ghost s0 = self.curr_buf.data@;
        let mut y: usize = 0;
        while y < h
            invariant
                self.well_formed(),
                self.width == w,
                self.height == h,
                1 <= w,
                1 <= h,
                self.curr_buf.data@ == s0,
                y <= h,
                forall|a: int, b: int|
                    0 <= a < w && 0 <= b < y ==> self.next_buf.cell(a, b) == step_cell(
                        s0,
                        w as int,
                        h as int,
                        a,
                        b,
                    ),
            decreases h - y,
        {
            let mut x: usize = 0;
            while x < w
                invariant
                    self.well_formed(),
                    self.width == w,
                    self.height == h,
                    1 <= w,
                    1 <= h,
                    self.curr_buf.data@ == s0,
                    y < h,
                    x <= w,
                    forall|a: int, b: int|
                        0 <= a < w && 0 <= b < y ==> self.next_buf.cell(a, b) == step_cell(
                            s0,
                            w as int,
                            h as int,
                            a,
                            b,
                        ),
                    forall|a: int|
                        0 <= a < x ==> self.next_buf.cell(a, y as int) == step_cell(
                            s0,
                            w as int,
                            h as int,
                            a,
                            y as int,
                        ),
                decreases w - x,
            {
                let is_dead = !self.curr_buf.get(x, y);
                let neighbour_count = self.get_live_neighbour_count(x, y);

                let mut next_alive = false;

                if is_dead {
                    if neighbour_count == 3 {
                        next_alive = true;
                    }
                } else {
                    if neighbour_count < 2 {
                        next_alive = false;
                    } else if neighbour_count == 2 || neighbour_count == 3 {
                        next_alive = true;
                    } else {
                        next_alive = false;
                    }
                }

                self.next_buf.set(x, y, next_alive);
                x = x + 1;
            }
            y = y + 1;
        }
        proof {
            let wi = w as int;
            let hi = h as int;
            let ng = next_gen(s0, wi, hi);
            assert forall|i: int|
                0 <= i < self.next_buf.data@.len() implies self.next_buf.data@[i] == ng[i] by {
                lemma_index_decompose(wi, hi, i);
                assert(self.next_buf.cell(i % wi, i / wi) == step_cell(s0, wi, hi, i % wi, i / wi));
                assert(self.next_buf.data@[index_of(wi, i % wi, i / wi)] == self.next_buf.cell(
                    i % wi,
                    i / wi,
                ));
            }
            assert(self.next_buf.data@ =~= ng);
        }
        core::mem::swap(&mut self.curr_buf, &mut self.next_buf);
    }
}

/// Advancing a generation is a pure function of the current grid alone: two
/// independently constructed engines holding identical current grids of the
/// same dimensions step to identical grids.
pub proof fn lemma_step_deterministic(a: Field, b: Field)
    requires
        a.well_formed(),
        b.well_formed(),
        a.width == b.width,
        a.height == b.height,
        a.curr_buf.data@ == b.curr_buf.data@,
    ensures
        next_gen(a.curr_buf.data@, a.width as int, a.height as int) == next_gen(
            b.curr_buf.data@,
            b.width as int,
            b.height as int,
        ),
{
}

} // verus!
