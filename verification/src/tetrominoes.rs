//! A `Tetromino` struct modelling a falling piece: a shape identity, a
//! display color, and four precomputed rotation masks with a current index.

use crate::color::spec_rgb_of;
use crate::color::Name;
use crate::color::Rgb;
use crate::coordinate::Coordinate;
use crate::grid::Grid;
use crate::rotation::is_rect;
use crate::rotation::lemma_rotate_ccw_cw;
use crate::rotation::lemma_rotate_cw_four;
use crate::rotation::mat_cols;
use crate::rotation::rotate_cw;
use crate::rotation::spec_rotate_ccw;
use crate::rotation::spec_rotate_cw;
use vstd::prelude::*;

verus! {

broadcast use crate::grid::lemma_grid_view_shape;

/// The seven canonical piece geometries.
#[derive(Clone, Copy, Debug, PartialEq, Eq, Structural)]
pub enum TetrominoShape {
    /// The I piece: four cells in a line.
    I,
    /// The J piece.
    J,
    /// The L piece.
    L,
    /// The O piece: a square.
    O,
    /// The S piece.
    S,
    /// The T piece.
    T,
    /// The Z piece.
    Z,
}

/// The canonical base mask of each shape, in its spawn orientation.
pub open spec fn shape_base_mask(shape: TetrominoShape) -> Seq<Seq<bool>> {
    match shape {
        TetrominoShape::I => seq![seq![true, true, true, true]],
        TetrominoShape::J => seq![seq![true, false, false], seq![true, true, true]],
        TetrominoShape::L => seq![seq![false, false, true], seq![true, true, true]],
        TetrominoShape::O => seq![seq![true, true], seq![true, true]],
        TetrominoShape::S => seq![seq![false, true, true], seq![true, true, false]],
        TetrominoShape::T => seq![seq![false, true, false], seq![true, true, true]],
        TetrominoShape::Z => seq![seq![true, true, false], seq![false, true, true]],
    }
}

/// The fixed display color of each shape.
pub open spec fn shape_color_name(shape: TetrominoShape) -> Name {
    match shape {
        TetrominoShape::I => Name::Cyan,
        TetrominoShape::J => Name::Blue,
        TetrominoShape::L => Name::Orange,
        TetrominoShape::O => Name::Yellow,
        TetrominoShape::S => Name::Green,
        TetrominoShape::T => Name::Purple,
        TetrominoShape::Z => Name::Red,
    }
}

/// The number of occupied cells among the first `n` cells of a mask row.
pub open spec fn count_row_upto(s: Seq<bool>, n: int) -> nat
    decreases n,
{
    if n <= 0 {
        0
    } else {
        count_row_upto(s, n - 1) + if s[n - 1] {
            1nat
        } else {
            0nat
        }
    }
}

/// The number of occupied cells in one mask row.
pub open spec fn count_row(s: Seq<bool>) -> nat {
    count_row_upto(s, s.len() as int)
}

/// The number of occupied cells among the first `n` rows of a mask.
pub open spec fn count_mat_upto(m: Seq<Seq<bool>>, n: int) -> nat
    decreases n,
{
    if n <= 0 {
        0
    } else {
        count_mat_upto(m, n - 1) + count_row(m[n - 1])
    }
}

/// The number of occupied cells in a mask.
pub open spec fn count_mat(m: Seq<Seq<bool>>) -> nat {
    count_mat_upto(m, m.len() as int)
}

/// A usable rotation mask: well-formed, with at least one row and one column.
pub open spec fn mask_ok<T>(g: Grid<T>) -> bool {
    &&& g.wf()
    &&& g.spec_rows() >= 1
    &&& g.spec_cols() >= 1
}

/// `next` is exactly `prev` rotated 90 degrees clockwise.
pub open spec fn is_cw_of<T>(next: Grid<T>, prev: Grid<T>) -> bool {
    &&& next@ == spec_rotate_cw(prev@)
    &&& next.spec_rows() == prev.spec_cols()
    &&& next.spec_cols() == prev.spec_rows()
}

/// A struct reflecting a tetromino block: its shape, its display color, the
/// binary masks of its four rotation states, and the index of the mask in
/// use.
pub struct Tetromino<T> {
    /// The shape identity of the piece.
    pub shape: TetrominoShape,
    /// The display color of the piece.
    pub color: Rgb,
    /// The masks of the four rotation states, each the clockwise rotation of
    /// the one before it.
    masks: Vec<Grid<T>>,
    /// The index of the currently used mask.
    index: usize,
}

impl<T> Tetromino<T> {
    /// The shape identity, as seen by specifications.
    pub closed spec fn spec_shape(&self) -> TetrominoShape {
        self.shape
    }

    /// The display color, as seen by specifications.
    pub closed spec fn spec_color(&self) -> Rgb {
        self.color
    }

    /// The four rotation masks, as seen by specifications.
    pub closed spec fn spec_masks(&self) -> Seq<Grid<T>> {
        self.masks@
    }

    /// The current rotation index, as seen by specifications.
    pub closed spec fn spec_index(&self) -> nat {
        self.index as nat
    }

    /// The view of the currently active mask.
    pub open spec fn spec_mask(&self) -> Seq<Seq<T>> {
        self.spec_masks()[self.spec_index() as int]@
    }

    /// The number of rows of the currently active mask.
    pub open spec fn spec_mask_rows(&self) -> nat {
        self.spec_masks()[self.spec_index() as int].spec_rows()
    }

    /// The number of columns of the currently active mask.
    pub open spec fn spec_mask_cols(&self) -> nat {
        self.spec_masks()[self.spec_index() as int].spec_cols()
    }

    /// Well-formedness: four usable masks, an index below four, and each mask
    /// after the first the clockwise rotation of its predecessor.
    pub open spec fn wf(&self) -> bool {
        &&& self.spec_masks().len() == 4
        &&& self.spec_index() < 4
        &&& mask_ok(self.spec_masks()[0])
        &&& mask_ok(self.spec_masks()[1])
        &&& mask_ok(self.spec_masks()[2])
        &&& mask_ok(self.spec_masks()[3])
        &&& is_cw_of(self.spec_masks()[1], self.spec_masks()[0])
        &&& is_cw_of(self.spec_masks()[2], self.spec_masks()[1])
        &&& is_cw_of(self.spec_masks()[3], self.spec_masks()[2])
    }
}

/// The view of a usable mask is a proper matrix.
proof fn lemma_mask_view_proper<T>(g: Grid<T>)
    requires
        mask_ok(g),
    ensures
        is_rect(g@),
        g@.len() == g.spec_rows(),
        mat_cols(g@) == g.spec_cols(),
        crate::rotation::is_proper(g@),
{
}

impl<T: Copy> Tetromino<T> {
    /// Create a new tetromino from a shape tag, a display color and a base
    /// mask; the four rotation states are derived from the base mask by
    /// repeated clockwise rotation.
    pub fn new(shape: TetrominoShape, color: Rgb, mask: Grid<T>) -> (t: Tetromino<T>)
        requires
            mask.wf(),
            mask.spec_rows() >= 1,
            mask.spec_cols() >= 1,
        ensures
            t.wf(),
            t.spec_shape() == shape,
            t.spec_color() == color,
            t.spec_index() == 0,
            t.spec_masks()[0] == mask,
            t.spec_mask() == mask@,
    {
        proof {
            lemma_mask_view_proper(mask);
        }
        let m1 = rotate_cw(&mask);
        let m2 = rotate_cw(&m1);
        let m3 = rotate_cw(&m2);
        let mut masks: Vec<Grid<T>> = Vec::new();
        masks.push(mask);
        masks.push(m1);
        masks.push(m2);
        masks.push(m3);
        Tetromino { shape, color, masks, index: 0 }
    }

    /// Get the currently active mask.
    pub fn get_mask(&self) -> (m: &Grid<T>)
        requires
            self.wf(),
        ensures
            m == self.spec_masks()[self.spec_index() as int],
            m@ == self.spec_mask(),
            m.wf(),
            m.spec_rows() == self.spec_mask_rows(),
            m.spec_cols() == self.spec_mask_cols(),
    {
        &self.masks[self.index]
    }

    /// Get the shape of the currently active mask as [rows, cols].
    pub fn get_shape(&self) -> (c: Coordinate)
        requires
            self.wf(),
        ensures
            c.row == self.spec_mask_rows(),
            c.col == self.spec_mask_cols(),
    {
        let m = self.get_mask();
        Coordinate { row: m.num_rows(), col: m.num_cols() }
    }

    /// Get the bottom-right coordinate of the currently active mask, equal to
    /// [rows - 1, cols - 1].
    pub fn get_coords(&self) -> (c: Coordinate)
        requires
            self.wf(),
        ensures
            c.row == self.spec_mask_rows() - 1,
            c.col == self.spec_mask_cols() - 1,
    {
        self.get_shape().minus(Coordinate { row: 1, col: 1 })
    }

    /// Advance the rotation index, turning the piece 90 degrees clockwise.
    /// The masks themselves never change: they were all precomputed at
    /// construction.
    pub fn rotate_cw(&mut self)
        requires
            old(self).wf(),
        ensures
            final(self).wf(),
            final(self).spec_shape() == old(self).spec_shape(),
            final(self).spec_color() == old(self).spec_color(),
            final(self).spec_masks() == old(self).spec_masks(),
            final(self).spec_index() == (old(self).spec_index() + 1) % 4,
            final(self).spec_mask() == spec_rotate_cw(old(self).spec_mask()),
    {
        proof {
            if self.index == 3 {
                let m0 = self.spec_masks()[0];
                lemma_mask_view_proper(m0);
                lemma_rotate_cw_four(m0@);
            }
        }
        self.index = (self.index + 1) % 4;
    }

    /// Retreat the rotation index, turning the piece 90 degrees
    /// counterclockwise.  The masks themselves never change.
    pub fn rotate_ccw(&mut self)
        requires
            old(self).wf(),
        ensures
            final(self).wf(),
            final(self).spec_shape() == old(self).spec_shape(),
            final(self).spec_color() == old(self).spec_color(),
            final(self).spec_masks() == old(self).spec_masks(),
            final(self).spec_index() == (old(self).spec_index() + 3) % 4,
            final(self).spec_mask() == spec_rotate_ccw(old(self).spec_mask()),
    {
        proof {
            if self.index == 0 {
                let m0 = self.spec_masks()[0];
                let m3 = self.spec_masks()[3];
                lemma_mask_view_proper(m0);
                lemma_mask_view_proper(m3);
                lemma_rotate_cw_four(m0@);
                lemma_rotate_ccw_cw(m3@);
            } else {
                let prev = self.spec_masks()[self.spec_index() as int - 1];
                lemma_mask_view_proper(prev);
                lemma_rotate_ccw_cw(prev@);
            }
        }
        self.index = (self.index + 3) % 4;
    }
}

impl Tetromino<bool> {
    /// Create the canonical tetromino of a shape: the shape's base mask and
    /// fixed display color, with the four rotation states derived from the
    /// base mask.
    pub fn from_shape(shape: TetrominoShape) -> (t: Tetromino<bool>)
        ensures
            t.wf(),
            t.spec_shape() == shape,
            t.spec_color() == spec_rgb_of(shape_color_name(shape)),
            t.spec_index() == 0,
            t.spec_masks()[0]@ == shape_base_mask(shape),
            t.spec_mask() == shape_base_mask(shape),
    {
        let base: Grid<bool> = match shape {
            TetrominoShape::I => Grid::from_row_major_exact(vec![true, true, true, true], 1, 4),
            TetrominoShape::J => Grid::from_row_major_exact(
                vec![true, false, false, true, true, true],
                2,
                3,
            ),
            TetrominoShape::L => Grid::from_row_major_exact(
                vec![false, false, true, true, true, true],
                2,
                3,
            ),
            TetrominoShape::O => Grid::from_row_major_exact(vec![true, true, true, true], 2, 2),
            TetrominoShape::S => Grid::from_row_major_exact(
                vec![false, true, true, true, true, false],
                2,
                3,
            ),
            TetrominoShape::T => Grid::from_row_major_exact(
                vec![false, true, false, true, true, true],
                2,
                3,
            ),
            TetrominoShape::Z => Grid::from_row_major_exact(
                vec![true, true, false, false, true, true],
                2,
                3,
            ),
        };
        proof {
            assert(base@ =~~= shape_base_mask(shape));
        }
        let name = match shape {
            TetrominoShape::I => Name::Cyan,
            TetrominoShape::J => Name::Blue,
            TetrominoShape::L => Name::Orange,
            TetrominoShape::O => Name::Yellow,
            TetrominoShape::S => Name::Green,
            TetrominoShape::T => Name::Purple,
            TetrominoShape::Z => Name::Red,
        };
        let color = Rgb::from(name);
        Tetromino::new(shape, color, base)
    }
}

/// Shape fidelity: every canonical shape's base mask holds exactly four
/// occupied cells.  Together with a tetromino's well-formedness, which makes
/// each rotation state the clockwise rotation of its predecessor, this pins
/// down the geometry of every freshly constructed piece.
pub proof fn lemma_shape_fidelity(shape: TetrominoShape)
    ensures
        count_mat(shape_base_mask(shape)) == 4,
{
    reveal_with_fuel(count_row_upto, 6);
    reveal_with_fuel(count_mat_upto, 4);
}

} // verus!
