//! A toroidal Conway's Game of Life engine.
//!
//! The library holds a row-major grid of cell states ([`grid::Buf`]), a
//! double-buffered automaton that advances one generation per step with
//! wraparound neighbor counting ([`field::Field`]), and a builder that seeds
//! an initial grid from named patterns or random noise ([`builder::BufBuilder`]).
//! Rendering and the timed update loop are outside collaborators: they drive
//! `step` and read cells back through `get`.

use vstd::prelude::*;

pub mod builder;
pub mod field;
pub mod grid;
pub mod rules;

verus! {

/// Pixel dimensions of a drawn grid: `count` cells along each axis, each cell
/// `step` pixels wide.
pub fn calc_grid_size(count: (u32, u32), step: (u32, u32)) -> (size: (u32, u32))
    requires
        count.0 * step.0 <= u32::MAX,
        count.1 * step.1 <= u32::MAX,
    ensures
        size.0 == count.0 * step.0,
        size.1 == count.1 * step.1,
{
    (count.0 * step.0, count.1 * step.1)
}

} // verus!
