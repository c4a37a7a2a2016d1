//! The game grid, stored in an `ndarray` two-dimensional array of `i8`
//! cell markers.
//!
//! The array itself is opaque to the verifier, so the struct is held behind
//! `external_body`. `cells` names the grid's contents as a row-major
//! sequence, and each trusted wrapper below states what one `ndarray`
//! operation does to that sequence; all of the engine's logic is verified
//! against these contracts.

use vstd::prelude::*;

verus! {

/// A two-dimensional grid of `i8` cell markers.
///
/// Every value of this type originates from [`Board::from_cells`], so the
/// underlying array is always 3x3 and `cells` always has length 9.
#[verifier::external_body]
pub struct Board {
    grid: ndarray::Array2<i8>,
}

/// The contents of a board: its cell markers in row-major order, the
/// logical order of the underlying `ndarray` array (rightmost index
/// varying fastest).
pub uninterp spec fn cells(b: Board) -> Seq<i8>;

impl Board {
    /// Builds the 3x3 grid holding exactly the given rows.
    ///
    /// Relies on `ndarray::arr2`, which creates a two-dimensional array
    /// from nested rows, in row-major logical order.
    #[verifier::external_body]
    pub fn from_cells(
        c00: i8, c01: i8, c02: i8,
        c10: i8, c11: i8, c12: i8,
        c20: i8, c21: i8, c22: i8,
    ) -> (b: Board)
        ensures
            cells(b) == seq![c00, c01, c02, c10, c11, c12, c20, c21, c22],
    {
        Board { grid: ndarray::arr2(&[[c00, c01, c02], [c10, c11, c12], [c20, c21, c22]]) }
    }

    /// Reads the cell at row `m`, column `n`.
    ///
    /// Relies on `ndarray`'s `Index` impl: `grid[(m, n)]` is the element at
    /// that row and column, which in row-major order is element `3 * m + n`.
    #[verifier::external_body]
    pub fn get(&self, m: usize, n: usize) -> (v: i8)
        requires
            m < 3,
            n < 3,
        ensures
            v == cells(*self)[3 * m + n],
    {
        self.grid[(m, n)]
    }

    /// Writes `v` into the cell at row `m`, column `n`, leaving every other
    /// cell unchanged.
    ///
    /// Relies on `ndarray`'s `IndexMut` impl: `grid[(m, n)]` is the element
    /// at that row and column, which in row-major order is element
    /// `3 * m + n`.
    #[verifier::external_body]
    pub fn set(&mut self, m: usize, n: usize, v: i8)
        requires
            m < 3,
            n < 3,
        ensures
            cells(*final(self)) == cells(*old(self)).update(3 * m + n, v),
    {
        self.grid[(m, n)] = v;
    }

    /// Returns a new board holding the same cells.
    ///
    /// Relies on `ndarray`'s `Clone` impl, which yields an array with
    /// equivalent data.
    #[verifier::external_body]
    pub fn duplicate(&self) -> (b: Board)
        ensures
            cells(b) == cells(*self),
    {
        Board { grid: self.grid.clone() }
    }

    /// Returns the cells as a flat vector in row-major order.
    ///
    /// Relies on `ndarray`'s `iter`, which visits the elements in the
    /// logical (row-major) order of the array.
    #[verifier::external_body]
    pub fn to_flat_vec(&self) -> (v: Vec<i8>)
        ensures
            v@ == cells(*self),
    {
        self.grid.iter().copied().collect()
    }
}

} // verus!
