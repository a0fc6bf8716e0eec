//! Collision and placement rules: whether a piece fits the board at a
//! position, has reached the bottom, or overlaps an occupied cell.
//!
//! These predicates never fail and never mutate: they read a board and a
//! piece and answer with a boolean.  Callers must establish that the piece's
//! rectangle lies on the board before asking about collisions.

use crate::board::BitCell;
use crate::board::Board;
use crate::coordinate::Coordinate;
use crate::tetrominoes::Tetromino;
use vstd::prelude::*;

verus! {

broadcast use crate::board::lemma_board_view_shape, crate::grid::lemma_grid_view_shape;

/// Whether any occupied cell of the piece's active mask, placed at `coord`,
/// coincides with an occupied board cell.
pub open spec fn spec_hits<T: BitCell>(
    board: Board<T>,
    tetromino: Tetromino<T>,
    coord: Coordinate,
) -> bool {
    exists|i: int, j: int|
        0 <= i < tetromino.spec_mask_rows() && 0 <= j < tetromino.spec_mask_cols() && (
        #[trigger] tetromino.spec_mask()[i][j]).spec_and(
            board@[coord.row + i][coord.col + j],
        ).spec_is_set()
}

/// Check if a tetromino lies within the bounds of the board when its
/// top-left mask cell sits at `coord`.
pub fn tetromino_is_in_bounds<T: Copy>(
    coord: Coordinate,
    board: &Board<T>,
    tetromino: &Tetromino<T>,
) -> (r: bool)
    requires
        tetromino.wf(),
        coord.row + tetromino.spec_mask_rows() <= usize::MAX,
        coord.col + tetromino.spec_mask_cols() <= usize::MAX,
    ensures
        r == (coord.row + tetromino.spec_mask_rows() <= board.spec_rows() && coord.col
            + tetromino.spec_mask_cols() <= board.spec_cols()),
{
    coord.plus(tetromino.get_shape()).is_within_bounds(
        Coordinate::from_array([0, 0]),
        board.get_shape(),
    )
}

/// Check if a tetromino has reached the bottom row of the board when its
/// top-left mask cell sits at `coord`: its bottom edge is at or beyond the
/// board's last row.
pub fn tetromino_reached_bottom<T: Copy>(
    coord: Coordinate,
    board: &Board<T>,
    tetromino: &Tetromino<T>,
) -> (r: bool)
    requires
        tetromino.wf(),
        coord.row + tetromino.spec_mask_rows() <= usize::MAX,
        coord.col + tetromino.spec_mask_cols() <= usize::MAX,
    ensures
        r == (coord.row + tetromino.spec_mask_rows() >= board.spec_rows()),
{
    coord.plus(tetromino.get_shape()).row >= board.get_shape().row
}

/// Check if a tetromino at `coord` hits an already placed block: some
/// occupied cell of its active mask falls on an occupied board cell.  The
/// piece's rectangle must lie on the board; check `tetromino_is_in_bounds`
/// first.
pub fn tetromino_hit<T: Copy + BitCell>(
    coord: Coordinate,
    board: &Board<T>,
    tetromino: &Tetromino<T>,
) -> (r: bool)
    requires
        board.wf(),
        tetromino.wf(),
        coord.row + tetromino.spec_mask_rows() <= board.spec_rows(),
        coord.col + tetromino.spec_mask_cols() <= board.spec_cols(),
    ensures
        r == spec_hits(*board, *tetromino, coord),
{
    let mask = tetromino.get_mask();
    let mrows = mask.num_rows();
    let mcols = mask.num_cols();
    let shape = board.get_shape();
    let grid = board.get_array();
    let mut i: usize = 0;
    while i < mrows
        invariant
            i <= mrows,
            board.wf(),
            tetromino.wf(),
            grid.wf(),
            grid@ == board@,
            grid.spec_rows() == board.spec_rows(),
            grid.spec_cols() == board.spec_cols(),
            mask == tetromino.spec_masks()[tetromino.spec_index() as int],
            mask@ == tetromino.spec_mask(),
            mrows == tetromino.spec_mask_rows(),
            mcols == tetromino.spec_mask_cols(),
            shape.row == board.spec_rows(),
            shape.col == board.spec_cols(),
            coord.row + mrows <= shape.row,
            coord.col + mcols <= shape.col,
            forall|a: int, b: int|
                0 <= a < i && 0 <= b < mcols ==> !(#[trigger] tetromino.spec_mask()[a][b]).spec_and(
                    board@[coord.row + a][coord.col + b],
                ).spec_is_set(),
        decreases mrows - i,
    {
        let mut j: usize = 0;
        while j < mcols
            invariant
                j <= mcols,
                i < mrows,
                board.wf(),
                tetromino.wf(),
                grid.wf(),
                grid@ == board@,
                grid.spec_rows() == board.spec_rows(),
                grid.spec_cols() == board.spec_cols(),
                mask == tetromino.spec_masks()[tetromino.spec_index() as int],
                mask@ == tetromino.spec_mask(),
                mrows == tetromino.spec_mask_rows(),
                mcols == tetromino.spec_mask_cols(),
                shape.row == board.spec_rows(),
                shape.col == board.spec_cols(),
                coord.row + mrows <= shape.row,
                coord.col + mcols <= shape.col,
                forall|a: int, b: int|
                    0 <= a < i && 0 <= b < mcols ==> !(
                    #[trigger] tetromino.spec_mask()[a][b]).spec_and(
                        board@[coord.row + a][coord.col + b],
                    ).spec_is_set(),
                forall|b: int|
                    0 <= b < j ==> !(#[trigger] tetromino.spec_mask()[i as int][b]).spec_and(
                        board@[coord.row + i][coord.col + b],
                    ).spec_is_set(),
            decreases mcols - j,
        {
            let m = mask.get(i, j);
            let b = grid.get(coord.row + i, coord.col + j);
            if m.bit_and(b).is_set() {
                proof {
                    assert(spec_hits(*board, *tetromino, coord));
                }
                return true;
            }
            j = j + 1;
        }
        i = i + 1;
    }
    false
}

} // verus!
