//! A `Board<T>` struct modelling the current board state of the game.
//!
//! A board owns a rectangular grid of cells together with a designated
//! "negative" value that stands for an empty cell.  Cells are written through
//! masked region writes, which are bounds-checked and fail atomically, and two
//! boards of the same shape can be combined cell by cell.

use crate::coordinate::Coordinate;
use crate::grid::Grid;
use crate::rotation::mat_cols;
use vstd::prelude::*;

verus! {

broadcast use crate::grid::lemma_grid_view_shape;

/// A bit-composable cell type: a type that supports AND, OR and XOR and can
/// tell whether a cell counts as occupied.  Boolean cells are the default
/// instantiation.
pub trait BitCell: Sized + Copy {
    /// The meaning of AND on this cell type.
    spec fn spec_and(self, other: Self) -> Self;

    /// The meaning of OR on this cell type.
    spec fn spec_or(self, other: Self) -> Self;

    /// The meaning of XOR on this cell type.
    spec fn spec_xor(self, other: Self) -> Self;

    /// Whether the cell counts as occupied.
    spec fn spec_is_set(self) -> bool;

    /// Combine two cells with AND.
    fn bit_and(self, other: Self) -> (r: Self)
        ensures
            r == self.spec_and(other),
    ;

    /// Combine two cells with OR.
    fn bit_or(self, other: Self) -> (r: Self)
        ensures
            r == self.spec_or(other),
    ;

    /// Combine two cells with XOR.
    fn bit_xor(self, other: Self) -> (r: Self)
        ensures
            r == self.spec_xor(other),
    ;

    /// Test whether the cell counts as occupied.
    fn is_set(self) -> (r: bool)
        ensures
            r == self.spec_is_set(),
    ;
}

impl BitCell for bool {
    open spec fn spec_and(self, other: bool) -> bool {
        self && other
    }

    open spec fn spec_or(self, other: bool) -> bool {
        self || other
    }

    open spec fn spec_xor(self, other: bool) -> bool {
        self != other
    }

    open spec fn spec_is_set(self) -> bool {
        self
    }

    fn bit_and(self, other: bool) -> (r: bool) {
        self && other
    }

    fn bit_or(self, other: bool) -> (r: bool) {
        self || other
    }

    fn bit_xor(self, other: bool) -> (r: bool) {
        self != other
    }

    fn is_set(self) -> (r: bool) {
        self
    }
}

/// A struct modelling the possible logical bitwise operations of a masked
/// write or a combine.
#[derive(Clone, Copy, Debug, PartialEq, Eq, Structural)]
pub enum BitLogic {
    /// The bitwise AND operation.
    And,
    /// The bitwise OR operation.
    Or,
    /// The bitwise XOR operation.
    Xor,
    /// No bitwise operation: the first operand wins.
    Overwrite,
}

/// A typed failure of a board operation.
#[derive(Clone, Copy, Debug, PartialEq, Eq, Structural)]
pub enum BoardError {
    /// A masked write names a destination cell outside the board; carries the
    /// first invalid destination cell in row-major order.
    OutOfBounds {
        /// The row of the first invalid destination cell.
        row: usize,
        /// The column of the first invalid destination cell.
        col: usize,
    },
    /// A bitwise combine was attempted between boards of different shapes.
    DimensionMismatch,
}

/// Apply one bitwise operation to a mask cell `m` and a board cell `b`.
pub open spec fn bit_apply<T: BitCell>(logic: BitLogic, m: T, b: T) -> T {
    match logic {
        BitLogic::And => m.spec_and(b),
        BitLogic::Or => m.spec_or(b),
        BitLogic::Xor => m.spec_xor(b),
        BitLogic::Overwrite => m,
    }
}

/// Whether a mask of `mrows` x `mcols` cells, placed with its top-left cell at
/// `at`, lies entirely inside a board of `brows` x `bcols` cells.  An empty
/// mask touches no cell and always fits.
pub open spec fn mask_fits(brows: nat, bcols: nat, mrows: nat, mcols: nat, at: Coordinate) -> bool {
    mrows == 0 || mcols == 0 || (at.row + mrows <= brows && at.col + mcols <= bcols)
}

/// The first destination cell, in row-major order over the mask, that lies
/// outside the board.  Meaningful only when the mask does not fit.
pub open spec fn first_out_of_bounds(
    brows: nat,
    bcols: nat,
    mcols: nat,
    at: Coordinate,
) -> (int, int) {
    if at.row >= brows || at.col >= bcols {
        (at.row as int, at.col as int)
    } else if at.col + mcols > bcols {
        (at.row as int, bcols as int)
    } else {
        (brows as int, at.col as int)
    }
}

/// The board contents after a masked write at `at` with the given cell
/// operation: inside the mask's rectangle each cell becomes
/// `mask OP board`, outside it stays unchanged.
pub open spec fn masked_write<T: BitCell>(
    b: Seq<Seq<T>>,
    mask: Seq<Seq<T>>,
    at: Coordinate,
    logic: BitLogic,
) -> Seq<Seq<T>> {
    Seq::new(
        b.len(),
        |i: int|
            Seq::new(
                b[i].len(),
                |j: int|
                    if at.row <= i < at.row + mask.len() && at.col <= j < at.col + mat_cols(mask) {
                        bit_apply(logic, mask[i - at.row][j - at.col], b[i][j])
                    } else {
                        b[i][j]
                    },
            ),
    )
}

/// The board contents in the middle of a masked write: only the mask cells
/// before row `pr`, plus those in row `pr` before column `pc`, have been
/// applied.
spec fn masked_write_upto<T: BitCell>(
    b: Seq<Seq<T>>,
    mask: Seq<Seq<T>>,
    at: Coordinate,
    logic: BitLogic,
    pr: int,
    pc: int,
) -> Seq<Seq<T>> {
    Seq::new(
        b.len(),
        |i: int|
            Seq::new(
                b[i].len(),
                |j: int|
                    if at.row <= i < at.row + mask.len() && at.col <= j < at.col + mat_cols(mask)
                        && (i - at.row < pr || (i - at.row == pr && j - at.col < pc)) {
                        bit_apply(logic, mask[i - at.row][j - at.col], b[i][j])
                    } else {
                        b[i][j]
                    },
            ),
    )
}

/// The board contents after a uniform write: inside the `dims`-sized
/// rectangle at `at` every cell becomes `value`, outside it stays unchanged.
pub open spec fn value_write<T>(
    b: Seq<Seq<T>>,
    value: T,
    at: Coordinate,
    dims: Coordinate,
) -> Seq<Seq<T>> {
    Seq::new(
        b.len(),
        |i: int|
            Seq::new(
                b[i].len(),
                |j: int|
                    if at.row <= i < at.row + dims.row && at.col <= j < at.col + dims.col {
                        value
                    } else {
                        b[i][j]
                    },
            ),
    )
}

/// The cell-by-cell combination of two same-shaped boards: every cell is
/// `a OP b`.
pub open spec fn combined<T: BitCell>(
    a: Seq<Seq<T>>,
    b: Seq<Seq<T>>,
    logic: BitLogic,
) -> Seq<Seq<T>> {
    Seq::new(a.len(), |i: int| Seq::new(a[i].len(), |j: int| bit_apply(logic, a[i][j], b[i][j])))
}

/// What every masked write of a mask grid promises: the shape and the
/// negative value are kept; if the mask fits, the write succeeds and applies
/// `logic` over the mask's rectangle; if not, the board is untouched and the
/// first invalid destination cell is reported.
pub open spec fn masked_write_post<T: BitCell>(
    pre: Board<T>,
    post: Board<T>,
    mask: Grid<T>,
    coord: Coordinate,
    logic: BitLogic,
    r: Result<(), BoardError>,
) -> bool {
    &&& post.wf()
    &&& post.spec_rows() == pre.spec_rows()
    &&& post.spec_cols() == pre.spec_cols()
    &&& post.spec_negative() == pre.spec_negative()
    &&& mask_fits(pre.spec_rows(), pre.spec_cols(), mask.spec_rows(), mask.spec_cols(), coord)
        ==> r == Ok::<(), BoardError>(()) && post@ == masked_write(pre@, mask@, coord, logic)
    &&& !mask_fits(pre.spec_rows(), pre.spec_cols(), mask.spec_rows(), mask.spec_cols(), coord)
        ==> post@ == pre@ && (r matches Err(BoardError::OutOfBounds { row, col }) && row as int
        == first_out_of_bounds(pre.spec_rows(), pre.spec_cols(), mask.spec_cols(), coord).0
        && col as int == first_out_of_bounds(
        pre.spec_rows(),
        pre.spec_cols(),
        mask.spec_cols(),
        coord,
    ).1)
}

/// What every bitwise combine promises: on matching shapes a new board of the
/// same shape and negative value whose cells are `self OP other`, and a
/// `DimensionMismatch` failure exactly on differing shapes.
pub open spec fn combined_post<T: BitCell>(
    own: Board<T>,
    other: Grid<T>,
    logic: BitLogic,
    r: Result<Board<T>, BoardError>,
) -> bool {
    match r {
        Ok(b) => {
            &&& own.spec_rows() == other.spec_rows()
            &&& own.spec_cols() == other.spec_cols()
            &&& b.wf()
            &&& b.spec_rows() == own.spec_rows()
            &&& b.spec_cols() == own.spec_cols()
            &&& b.spec_negative() == own.spec_negative()
            &&& b@ == combined(own@, other@, logic)
        },
        Err(e) => {
            &&& e == BoardError::DimensionMismatch
            &&& !(own.spec_rows() == other.spec_rows() && own.spec_cols() == other.spec_cols())
        },
    }
}

/// A struct modelling a current board of placed tetrominoes.
pub struct Board<T> {
    /// The current board state.
    board: Grid<T>,
    /// The value representing an empty cell.
    negative: T,
}

impl<T> View for Board<T> {
    type V = Seq<Seq<T>>;

    closed spec fn view(&self) -> Seq<Seq<T>> {
        self.board@
    }
}

impl<T> Board<T> {
    /// The number of rows, as seen by specifications.
    pub closed spec fn spec_rows(&self) -> nat {
        self.board.spec_rows()
    }

    /// The number of columns, as seen by specifications.
    pub closed spec fn spec_cols(&self) -> nat {
        self.board.spec_cols()
    }

    /// The value representing an empty cell, as seen by specifications.
    pub closed spec fn spec_negative(&self) -> T {
        self.negative
    }

    /// Well-formedness: the backing grid is well-formed.
    pub closed spec fn wf(&self) -> bool {
        self.board.wf()
    }

}

/// The view of a board always consists of `spec_rows()` rows of
/// `spec_cols()` cells, whether or not the board is well-formed.
pub broadcast proof fn lemma_board_view_shape<T>(b: Board<T>)
    ensures
        (#[trigger] b@).len() == b.spec_rows(),
        forall|i: int| 0 <= i < b@.len() ==> (#[trigger] b@[i]).len() == b.spec_cols(),
{
}

/// Apply one bitwise operation to a mask cell `m` and a board cell `b`.
fn apply_cell<T: BitCell>(logic: BitLogic, m: T, b: T) -> (r: T)
    ensures
        r == bit_apply(logic, m, b),
{
    match logic {
        BitLogic::And => m.bit_and(b),
        BitLogic::Or => m.bit_or(b),
        BitLogic::Xor => m.bit_xor(b),
        BitLogic::Overwrite => m,
    }
}

impl<T: Copy> Board<T> {
    /// Create a board with every cell set to `element`, which also becomes
    /// the board's negative value.
    pub fn new(dims: Coordinate, element: T) -> (b: Board<T>)
        requires
            dims.row * dims.col <= usize::MAX,
        ensures
            b.wf(),
            b.spec_rows() == dims.row,
            b.spec_cols() == dims.col,
            b.spec_negative() == element,
            forall|i: int, j: int|
                0 <= i < dims.row && 0 <= j < dims.col ==> #[trigger] b@[i][j] == element,
    {
        Board { board: Grid::filled(dims.row, dims.col, element), negative: element }
    }

    /// Create a board from a pre-existing grid; `negative` names the value
    /// that stands for an empty cell.
    pub fn from_array(array: &Grid<T>, negative: T) -> (b: Board<T>)
        requires
            array.wf(),
        ensures
            b.wf(),
            b.spec_rows() == array.spec_rows(),
            b.spec_cols() == array.spec_cols(),
            b.spec_negative() == negative,
            b@ == array@,
    {
        Board { board: array.clone(), negative }
    }

    /// Get a reference to the current board state.
    pub fn get_array(&self) -> (g: &Grid<T>)
        ensures
            g@ == self@,
            g.spec_rows() == self.spec_rows(),
            g.spec_cols() == self.spec_cols(),
            g.wf() == self.wf(),
    {
        &self.board
    }

    /// Get the value of the negative element.
    pub fn get_negative(&self) -> (n: T)
        ensures
            n == self.spec_negative(),
    {
        self.negative
    }

    /// Get the shape of the current board state as [rows, cols].
    pub fn get_shape(&self) -> (c: Coordinate)
        ensures
            c.row == self.spec_rows(),
            c.col == self.spec_cols(),
    {
        Coordinate { row: self.board.num_rows(), col: self.board.num_cols() }
    }

    /// Get the bottom-right coordinate of the board, equal to
    /// [rows - 1, cols - 1].
    pub fn get_coords(&self) -> (c: Coordinate)
        requires
            self.spec_rows() >= 1,
            self.spec_cols() >= 1,
        ensures
            c.row == self.spec_rows() - 1,
            c.col == self.spec_cols() - 1,
    {
        self.get_shape().minus(Coordinate { row: 1, col: 1 })
    }

    /// Extract the sub-board spanning the box defined by two corners, taken
    /// in either order: inclusive at the low corner, exclusive at the high
    /// corner.  Returns `None` when either corner lies outside the board's
    /// shape, inclusive.
    pub fn slice(&self, coord1: Coordinate, coord2: Coordinate) -> (r: Option<Board<T>>)
        requires
            self.wf(),
        ensures
            match r {
                Some(s) => {
                    &&& coord_max(coord1, coord2).row <= self.spec_rows()
                    &&& coord_max(coord1, coord2).col <= self.spec_cols()
                    &&& s.wf()
                    &&& s.spec_rows() == coord_max(coord1, coord2).row - coord_min(
                        coord1,
                        coord2,
                    ).row
                    &&& s.spec_cols() == coord_max(coord1, coord2).col - coord_min(
                        coord1,
                        coord2,
                    ).col
                    &&& s.spec_negative() == self.spec_negative()
                    &&& forall|i: int, j: int|
                        0 <= i < s.spec_rows() && 0 <= j < s.spec_cols() ==> #[trigger] s@[i][j]
                            == self@[coord_min(coord1, coord2).row + i][coord_min(
                            coord1,
                            coord2,
                        ).col + j]
                },
                None => coord_max(coord1, coord2).row > self.spec_rows() || coord_max(
                    coord1,
                    coord2,
                ).col > self.spec_cols(),
            },
    {
        let coord_low = Coordinate {
            row: if coord1.row <= coord2.row {
                coord1.row
            } else {
                coord2.row
            },
            col: if coord1.col <= coord2.col {
                coord1.col
            } else {
                coord2.col
            },
        };
        let coord_high = Coordinate {
            row: if coord1.row <= coord2.row {
                coord2.row
            } else {
                coord1.row
            },
            col: if coord1.col <= coord2.col {
                coord2.col
            } else {
                coord1.col
            },
        };
        let origin = Coordinate::from_array([0, 0]);
        let shape = self.get_shape();
        if coord_low.is_within_bounds(origin, shape) && coord_high.is_within_bounds(
            origin,
            shape,
        ) {
            let dr = coord_high.row - coord_low.row;
            let dc = coord_high.col - coord_low.col;
            let mut data: Vec<T> = Vec::new();
            let mut i: usize = 0;
            while i < dr
                invariant
                    i <= dr,
                    self.wf(),
                    shape.row == self.spec_rows(),
                    shape.col == self.spec_cols(),
                    coord_low.row + dr <= shape.row,
                    coord_low.col + dc <= shape.col,
                    data@.len() == i * dc,
                    forall|a: int, b: int|
                        0 <= a < i && 0 <= b < dc ==> #[trigger] data@[a * dc + b]
                            == self@[coord_low.row + a][coord_low.col + b],
                decreases dr - i,
            {
                let mut j: usize = 0;
                while j < dc
                    invariant
                        j <= dc,
                        i < dr,
                        self.wf(),
                        shape.row == self.spec_rows(),
                        shape.col == self.spec_cols(),
                        coord_low.row + dr <= shape.row,
                        coord_low.col + dc <= shape.col,
                        data@.len() == i * dc + j,
                        forall|a: int, b: int|
                            0 <= a < i && 0 <= b < dc ==> #[trigger] data@[a * dc + b]
                                == self@[coord_low.row + a][coord_low.col + b],
                        forall|b: int|
                            0 <= b < j ==> #[trigger] data@[i * dc + b] == self@[coord_low.row
                                + i][coord_low.col + b],
                    decreases dc - j,
                {
                    data.push(self.board.get(coord_low.row + i, coord_low.col + j));
                    proof {
                        assert forall|a: int, b: int|
                            0 <= a < i && 0 <= b < dc implies #[trigger] data@[a * dc + b]
                            == self@[coord_low.row + a][coord_low.col + b] by {
                            assert(a * dc + b < i * dc) by (nonlinear_arith)
                                requires
                                    0 <= a < i,
                                    0 <= b < dc,
                            ;
                        }
                    }
                    j = j + 1;
                }
                proof {
                    assert((i + 1) * dc == i * dc + dc) by (nonlinear_arith);
                    assert forall|a: int, b: int|
                        0 <= a < i + 1 && 0 <= b < dc implies #[trigger] data@[a * dc + b]
                        == self@[coord_low.row + a][coord_low.col + b] by {
                        if a == i {
                            assert(data@[i * dc + b] == self@[coord_low.row + i][coord_low.col
                                + b]);
                        }
                    }
                }
                i = i + 1;
            }
            let g = Grid::from_row_major_exact(data, dr, dc);
            Some(Board { board: g, negative: self.negative })
        } else {
            None
        }
    }
}

impl<T: Copy + BitCell> Board<T> {
    /// Check whether a mask of `mrows` x `mcols` cells placed at `coord` lies
    /// inside the board, reporting the first invalid destination cell when it
    /// does not.
    fn check_mask_bounds(&self, mrows: usize, mcols: usize, coord: Coordinate) -> (r: Result<
        (),
        BoardError,
    >)
        requires
            self.wf(),
        ensures
            r == Ok::<(), BoardError>(()) <==> mask_fits(
                self.spec_rows(),
                self.spec_cols(),
                mrows as nat,
                mcols as nat,
                coord,
            ),
            !mask_fits(self.spec_rows(), self.spec_cols(), mrows as nat, mcols as nat, coord) ==> (
            r matches Err(BoardError::OutOfBounds { row, col }) && row as int
                == first_out_of_bounds(self.spec_rows(), self.spec_cols(), mcols as nat, coord).0
                && col as int == first_out_of_bounds(
                self.spec_rows(),
                self.spec_cols(),
                mcols as nat,
                coord,
            ).1),
    {
        let brows = self.board.num_rows();
        let bcols = self.board.num_cols();
        if mrows == 0 || mcols == 0 {
            return Ok(());
        }
        if coord.row >= brows || coord.col >= bcols {
            return Err(BoardError::OutOfBounds { row: coord.row, col: coord.col });
        }
        if mcols > bcols - coord.col {
            return Err(BoardError::OutOfBounds { row: coord.row, col: bcols });
        }
        if mrows > brows - coord.row {
            return Err(BoardError::OutOfBounds { row: brows, col: coord.col });
        }
        Ok(())
    }

    /// Backend for the masked write operations: bounds-check, then apply the
    /// mask cell by cell with the given operation.
    fn apply_mask(&mut self, mask: &Grid<T>, coord: Coordinate, logic: BitLogic) -> (r: Result<
        (),
        BoardError,
    >)
        requires
            old(self).wf(),
            mask.wf(),
        ensures
            masked_write_post(*old(self), *final(self), *mask, coord, logic, r),
    {
        let mrows = mask.num_rows();
        let mcols = mask.num_cols();
        match self.check_mask_bounds(mrows, mcols, coord) {
            Err(e) => {
                return Err(e);
            },
            Ok(()) => {},
        }
        let brows = self.board.num_rows();
        let bcols = self.board.num_cols();
        proof {
            if mrows > 0 {
                assert(mat_cols(mask@) == mcols);
            }
        }
        let ghost pre = *self;
        proof {
            assert(masked_write_upto(pre@, mask@, coord, logic, 0, 0) =~~= pre@);
        }
        let mut i: usize = 0;
        while i < mrows
            invariant
                i <= mrows,
                self.wf(),
                mask.wf(),
                mrows == mask.spec_rows(),
                mcols == mask.spec_cols(),
                mask@.len() == mrows,
                mrows > 0 ==> mat_cols(mask@) == mcols,
                brows == pre.spec_rows(),
                bcols == pre.spec_cols(),
                mrows == 0 || mcols == 0 || (coord.row + mrows <= brows && coord.col + mcols
                    <= bcols),
                self.spec_rows() == pre.spec_rows(),
                self.spec_cols() == pre.spec_cols(),
                self.spec_negative() == pre.spec_negative(),
                pre.wf(),
                pre@.len() == pre.spec_rows(),
                self@ == masked_write_upto(pre@, mask@, coord, logic, i as int, 0),
            decreases mrows - i,
        {
            let mut j: usize = 0;
            while j < mcols
                invariant
                    j <= mcols,
                    i < mrows,
                    self.wf(),
                    mask.wf(),
                    mrows == mask.spec_rows(),
                    mcols == mask.spec_cols(),
                    mask@.len() == mrows,
                    mrows > 0 ==> mat_cols(mask@) == mcols,
                    brows == pre.spec_rows(),
                    bcols == pre.spec_cols(),
                    mrows == 0 || mcols == 0 || (coord.row + mrows <= brows && coord.col + mcols
                        <= bcols),
                    self.spec_rows() == pre.spec_rows(),
                    self.spec_cols() == pre.spec_cols(),
                    self.spec_negative() == pre.spec_negative(),
                    pre.wf(),
                    pre@.len() == pre.spec_rows(),
                    self@ == masked_write_upto(pre@, mask@, coord, logic, i as int, j as int),
                decreases mcols - j,
            {
                let m = mask.get(i, j);
                let b = self.board.get(coord.row + i, coord.col + j);
                let v = apply_cell(logic, m, b);
                self.board.set(coord.row + i, coord.col + j, v);
                proof {
                    assert(self@ =~~= masked_write_upto(
                        pre@,
                        mask@,
                        coord,
                        logic,
                        i as int,
                        j + 1,
                    ));
                }
                j = j + 1;
            }
            proof {
                assert(masked_write_upto(pre@, mask@, coord, logic, i as int, mcols as int)
                    =~~= masked_write_upto(pre@, mask@, coord, logic, i + 1, 0));
            }
            i = i + 1;
        }
        proof {
            assert(masked_write_upto(pre@, mask@, coord, logic, mrows as int, 0) =~~= masked_write(
                pre@,
                mask@,
                coord,
                logic,
            ));
        }
        Ok(())
    }

    /// Overwrite the rectangle at `coord` sized to the mask's extent with the
    /// mask's values.  Fails atomically, touching no cell, when the rectangle
    /// leaves the board.
    pub fn set_mask(&mut self, mask: &Grid<T>, coord: Coordinate) -> (r: Result<(), BoardError>)
        requires
            old(self).wf(),
            mask.wf(),
        ensures
            masked_write_post(*old(self), *final(self), *mask, coord, BitLogic::Overwrite, r),
    {
        self.apply_mask(mask, coord, BitLogic::Overwrite)
    }

    /// As `set_mask`, but each destination cell becomes `mask AND board`.
    pub fn set_mask_and(&mut self, mask: &Grid<T>, coord: Coordinate) -> (r: Result<
        (),
        BoardError,
    >)
        requires
            old(self).wf(),
            mask.wf(),
        ensures
            masked_write_post(*old(self), *final(self), *mask, coord, BitLogic::And, r),
    {
        self.apply_mask(mask, coord, BitLogic::And)
    }

    /// As `set_mask`, but each destination cell becomes `mask OR board`.
    pub fn set_mask_or(&mut self, mask: &Grid<T>, coord: Coordinate) -> (r: Result<
        (),
        BoardError,
    >)
        requires
            old(self).wf(),
            mask.wf(),
        ensures
            masked_write_post(*old(self), *final(self), *mask, coord, BitLogic::Or, r),
    {
        self.apply_mask(mask, coord, BitLogic::Or)
    }

    /// As `set_mask`, but each destination cell becomes `mask XOR board`.
    pub fn set_mask_xor(&mut self, mask: &Grid<T>, coord: Coordinate) -> (r: Result<
        (),
        BoardError,
    >)
        requires
            old(self).wf(),
            mask.wf(),
        ensures
            masked_write_post(*old(self), *final(self), *mask, coord, BitLogic::Xor, r),
    {
        self.apply_mask(mask, coord, BitLogic::Xor)
    }

    /// Fill the `dims`-sized rectangle starting at `coord` with `value`.
    /// Fails atomically, touching no cell, when the rectangle leaves the
    /// board.
    pub fn set_value(&mut self, value: T, coord: Coordinate, dims: Coordinate) -> (r: Result<
        (),
        BoardError,
    >)
        requires
            old(self).wf(),
        ensures
            final(self).wf(),
            final(self).spec_rows() == old(self).spec_rows(),
            final(self).spec_cols() == old(self).spec_cols(),
            final(self).spec_negative() == old(self).spec_negative(),
            mask_fits(
                old(self).spec_rows(),
                old(self).spec_cols(),
                dims.row as nat,
                dims.col as nat,
                coord,
            ) ==> r == Ok::<(), BoardError>(()) && final(self)@ == value_write(
                old(self)@,
                value,
                coord,
                dims,
            ),
            !mask_fits(
                old(self).spec_rows(),
                old(self).spec_cols(),
                dims.row as nat,
                dims.col as nat,
                coord,
            ) ==> final(self)@ == old(self)@ && (r matches Err(BoardError::OutOfBounds {
                row,
                col,
            }) && row as int == first_out_of_bounds(
                old(self).spec_rows(),
                old(self).spec_cols(),
                dims.col as nat,
                coord,
            ).0 && col as int == first_out_of_bounds(
                old(self).spec_rows(),
                old(self).spec_cols(),
                dims.col as nat,
                coord,
            ).1),
    {
        match self.check_mask_bounds(dims.row, dims.col, coord) {
            Err(e) => {
                return Err(e);
            },
            Ok(()) => {},
        }
        proof {
            if dims.row > 0 && dims.col > 0 {
                assert(dims.row * dims.col <= self.spec_rows() * self.spec_cols())
                    by (nonlinear_arith)
                    requires
                        0 < dims.row <= self.spec_rows(),
                        0 < dims.col <= self.spec_cols(),
                ;
            } else {
                assert(dims.row * dims.col == 0) by (nonlinear_arith)
                    requires
                        dims.row == 0 || dims.col == 0,
                ;
            }
        }
        let total = self.board.size();
        let mask = Grid::filled(dims.row, dims.col, value);
        let r = self.apply_mask(&mask, coord, BitLogic::Overwrite);
        proof {
            assert(masked_write(old(self)@, mask@, coord, BitLogic::Overwrite) =~~= value_write(
                old(self)@,
                value,
                coord,
                dims,
            ));
        }
        r
    }

    /// Backend for the bitwise combine operations.
    fn bitlogic(&self, array: &Grid<T>, logic: BitLogic) -> (r: Result<Board<T>, BoardError>)
        requires
            self.wf(),
            array.wf(),
        ensures
            combined_post(*self, *array, logic, r),
    {
        let brows = self.board.num_rows();
        let bcols = self.board.num_cols();
        if !(brows == array.num_rows() && bcols == array.num_cols()) {
            return Err(BoardError::DimensionMismatch);
        }
        let mut data: Vec<T> = Vec::new();
        let mut i: usize = 0;
        while i < brows
            invariant
                i <= brows,
                self.wf(),
                array.wf(),
                brows == self.spec_rows(),
                bcols == self.spec_cols(),
                brows == array.spec_rows(),
                bcols == array.spec_cols(),
                data@.len() == i * bcols,
                forall|a: int, b: int|
                    0 <= a < i && 0 <= b < bcols ==> #[trigger] data@[a * bcols + b] == bit_apply(
                        logic,
                        self@[a][b],
                        array@[a][b],
                    ),
            decreases brows - i,
        {
            let mut j: usize = 0;
            while j < bcols
                invariant
                    j <= bcols,
                    i < brows,
                    self.wf(),
                    array.wf(),
                    brows == self.spec_rows(),
                    bcols == self.spec_cols(),
                    brows == array.spec_rows(),
                    bcols == array.spec_cols(),
                    data@.len() == i * bcols + j,
                    forall|a: int, b: int|
                        0 <= a < i && 0 <= b < bcols ==> #[trigger] data@[a * bcols + b]
                            == bit_apply(logic, self@[a][b], array@[a][b]),
                    forall|b: int|
                        0 <= b < j ==> #[trigger] data@[i * bcols + b] == bit_apply(
                            logic,
                            self@[i as int][b],
                            array@[i as int][b],
                        ),
                decreases bcols - j,
            {
                let own = self.board.get(i, j);
                let other = array.get(i, j);
                data.push(apply_cell(logic, own, other));
                proof {
                    assert forall|a: int, b: int|
                        0 <= a < i && 0 <= b < bcols implies #[trigger] data@[a * bcols + b]
                        == bit_apply(logic, self@[a][b], array@[a][b]) by {
                        assert(a * bcols + b < i * bcols) by (nonlinear_arith)
                            requires
                                0 <= a < i,
                                0 <= b < bcols,
                        ;
                    }
                }
                j = j + 1;
            }
            proof {
                assert((i + 1) * bcols == i * bcols + bcols) by (nonlinear_arith);
                assert forall|a: int, b: int|
                    0 <= a < i + 1 && 0 <= b < bcols implies #[trigger] data@[a * bcols + b]
                    == bit_apply(logic, self@[a][b], array@[a][b]) by {
                    if a == i {
                        assert(data@[i * bcols + b] == bit_apply(
                            logic,
                            self@[i as int][b],
                            array@[i as int][b],
                        ));
                    }
                }
            }
            i = i + 1;
        }
        let g = Grid::from_row_major_exact(data, brows, bcols);
        let b = Board { board: g, negative: self.negative };
        proof {
            assert(b@ =~~= combined(self@, array@, logic));
        }
        Ok(b)
    }

    /// Compute the cell-by-cell AND of the board with another grid of the
    /// same shape.
    pub fn and(&self, array: &Grid<T>) -> (r: Result<Board<T>, BoardError>)
        requires
            self.wf(),
            array.wf(),
        ensures
            combined_post(*self, *array, BitLogic::And, r),
    {
        self.bitlogic(array, BitLogic::And)
    }

    /// Compute the cell-by-cell OR of the board with another grid of the same
    /// shape.
    pub fn or(&self, array: &Grid<T>) -> (r: Result<Board<T>, BoardError>)
        requires
            self.wf(),
            array.wf(),
        ensures
            combined_post(*self, *array, BitLogic::Or, r),
    {
        self.bitlogic(array, BitLogic::Or)
    }

    /// Compute the cell-by-cell XOR of the board with another grid of the
    /// same shape.
    pub fn xor(&self, array: &Grid<T>) -> (r: Result<Board<T>, BoardError>)
        requires
            self.wf(),
            array.wf(),
        ensures
            combined_post(*self, *array, BitLogic::Xor, r),
    {
        self.bitlogic(array, BitLogic::Xor)
    }
}

/// The component-wise minimum of two coordinates.
pub open spec fn coord_min(a: Coordinate, b: Coordinate) -> Coordinate {
    Coordinate {
        row: if a.row <= b.row {
            a.row
        } else {
            b.row
        },
        col: if a.col <= b.col {
            a.col
        } else {
            b.col
        },
    }
}

/// The component-wise maximum of two coordinates.
pub open spec fn coord_max(a: Coordinate, b: Coordinate) -> Coordinate {
    Coordinate {
        row: if a.row <= b.row {
            b.row
        } else {
            a.row
        },
        col: if a.col <= b.col {
            b.col
        } else {
            a.col
        },
    }
}

} // verus!
