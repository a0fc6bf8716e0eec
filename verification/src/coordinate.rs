//! A `Coordinate` struct modelling a (row, col) position or extent.

use vstd::prelude::*;

verus! {

/// A basic struct modelling a coordinate as a row and a column.
///
/// A `Coordinate` stands either for an absolute position on a board or for an
/// extent (height, width).
#[derive(Clone, Copy, Debug, PartialEq, Eq, Structural)]
pub struct Coordinate {
    /// The coordinate row (vertical, y).
    pub row: usize,
    /// The coordinate column (horizontal, x).
    pub col: usize,
}

impl Coordinate {
    /// Instantiate a `Coordinate` from a coordinate array of [row, col].
    pub fn from_array(array: [usize; 2]) -> (c: Coordinate)
        ensures
            c.row == array@[0],
            c.col == array@[1],
    {
        Coordinate { row: array[0], col: array[1] }
    }

    /// Compute the inner product of the coordinate as row x column.
    pub fn inner_product(&self) -> (p: usize)
        requires
            self.row * self.col <= usize::MAX,
        ensures
            p == self.row * self.col,
    {
        self.row * self.col
    }

    /// Instantiate a `Coordinate` from a row-major index into an array of the
    /// given dimensions.
    ///
    /// Indices up to and including the element count map to a coordinate;
    /// larger indices yield `None`.
    pub fn from_row_major(index: usize, dims: Coordinate) -> (r: Option<Coordinate>)
        requires
            dims.row * dims.col <= usize::MAX,
            dims.col > 0 || index > 0,
        ensures
            match r {
                Some(c) => index <= dims.row * dims.col && c.row as int == index as int
                    / dims.col as int && c.col as int == index as int % dims.col as int,
                None => index > dims.row * dims.col,
            },
    {
        if index <= dims.inner_product() {
            Some(Coordinate { row: index / dims.col, col: index % dims.col })
        } else {
            None
        }
    }

    /// Instantiate a `Coordinate` from a column-major index into an array of
    /// the given dimensions.
    ///
    /// Indices up to and including the element count map to a coordinate;
    /// larger indices yield `None`.
    pub fn from_column_major(index: usize, dims: Coordinate) -> (r: Option<Coordinate>)
        requires
            dims.row * dims.col <= usize::MAX,
            dims.row > 0 || index > 0,
        ensures
            match r {
                Some(c) => index <= dims.row * dims.col && c.row as int == index as int
                    % dims.row as int && c.col as int == index as int / dims.row as int,
                None => index > dims.row * dims.col,
            },
    {
        if index <= dims.inner_product() {
            Some(Coordinate { row: index % dims.row, col: index / dims.row })
        } else {
            None
        }
    }

    /// Check if the coordinate lies within a boundary, inclusive at both the
    /// lower and the upper corner.
    pub fn is_within_bounds(&self, lower: Coordinate, upper: Coordinate) -> (r: bool)
        ensures
            r == (lower.row <= self.row && self.row <= upper.row && lower.col <= self.col
                && self.col <= upper.col),
    {
        lower.row <= self.row && self.row <= upper.row && lower.col <= self.col
            && self.col <= upper.col
    }

    /// Component-wise addition with another coordinate.
    pub fn plus(self, rhs: Coordinate) -> (c: Coordinate)
        requires
            self.row + rhs.row <= usize::MAX,
            self.col + rhs.col <= usize::MAX,
        ensures
            c.row == self.row + rhs.row,
            c.col == self.col + rhs.col,
    {
        Coordinate { row: self.row + rhs.row, col: self.col + rhs.col }
    }

    /// Component-wise subtraction of another coordinate.
    ///
    /// Subtraction that would underflow either component is a programming
    /// error, so both components of `rhs` must be covered by `self`.
    pub fn minus(self, rhs: Coordinate) -> (c: Coordinate)
        requires
            rhs.row <= self.row,
            rhs.col <= self.col,
        ensures
            c.row == self.row - rhs.row,
            c.col == self.col - rhs.col,
    {
        Coordinate { row: self.row - rhs.row, col: self.col - rhs.col }
    }
}

} // verus!
