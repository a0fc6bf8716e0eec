//! Transposition and 90-degree rotation of rectangular grids.
//!
//! The mathematical rotations are defined on the row-sequence view of a grid;
//! the executable functions produce grids whose views match them exactly.

use crate::grid::Grid;
use vstd::prelude::*;

verus! {

broadcast use crate::grid::lemma_grid_view_shape;

/// The width of a matrix given as a sequence of rows: the length of its first
/// row, or zero when it has no rows.
pub open spec fn mat_cols<T>(m: Seq<Seq<T>>) -> nat {
    if m.len() == 0 {
        0
    } else {
        m[0].len()
    }
}

/// A matrix is rectangular when all of its rows have the same length.
pub open spec fn is_rect<T>(m: Seq<Seq<T>>) -> bool {
    forall|i: int| 0 <= i < m.len() ==> (#[trigger] m[i]).len() == mat_cols(m)
}

/// A matrix is proper when it is rectangular and has no rows of length zero.
///
/// A matrix with rows but no columns loses its row count under rotation, so
/// the rotation laws are stated for proper matrices.
pub open spec fn is_proper<T>(m: Seq<Seq<T>>) -> bool {
    is_rect(m) && (m.len() > 0 ==> mat_cols(m) > 0)
}

/// The transpose of a matrix: rows become columns.
pub open spec fn spec_transpose<T>(m: Seq<Seq<T>>) -> Seq<Seq<T>> {
    Seq::new(mat_cols(m), |i: int| Seq::new(m.len(), |j: int| m[j][i]))
}

/// A matrix rotated 90 degrees clockwise: cell `(i, j)` of the result is cell
/// `(rows - 1 - j, i)` of the argument.
pub open spec fn spec_rotate_cw<T>(m: Seq<Seq<T>>) -> Seq<Seq<T>> {
    Seq::new(mat_cols(m), |i: int| Seq::new(m.len(), |j: int| m[m.len() - 1 - j][i]))
}

/// A matrix rotated 90 degrees counterclockwise: cell `(i, j)` of the result
/// is cell `(j, cols - 1 - i)` of the argument.
pub open spec fn spec_rotate_ccw<T>(m: Seq<Seq<T>>) -> Seq<Seq<T>> {
    Seq::new(mat_cols(m), |i: int| Seq::new(m.len(), |j: int| m[j][mat_cols(m) - 1 - i]))
}

/// A matrix rotated clockwise `n` times.
pub open spec fn rotate_cw_n<T>(m: Seq<Seq<T>>, n: nat) -> Seq<Seq<T>>
    decreases n,
{
    if n == 0 {
        m
    } else {
        spec_rotate_cw(rotate_cw_n(m, (n - 1) as nat))
    }
}

/// A matrix rotated counterclockwise `n` times.
pub open spec fn rotate_ccw_n<T>(m: Seq<Seq<T>>, n: nat) -> Seq<Seq<T>>
    decreases n,
{
    if n == 0 {
        m
    } else {
        spec_rotate_ccw(rotate_ccw_n(m, (n - 1) as nat))
    }
}

/// A clockwise rotation keeps a matrix proper and swaps its dimensions.
pub proof fn lemma_rotate_cw_proper<T>(m: Seq<Seq<T>>)
    requires
        is_proper(m),
    ensures
        is_proper(spec_rotate_cw(m)),
        spec_rotate_cw(m).len() == mat_cols(m),
        mat_cols(spec_rotate_cw(m)) == if mat_cols(m) == 0 { 0int } else { m.len() as int },
{
}

/// A counterclockwise rotation keeps a matrix proper and swaps its dimensions.
pub proof fn lemma_rotate_ccw_proper<T>(m: Seq<Seq<T>>)
    requires
        is_proper(m),
    ensures
        is_proper(spec_rotate_ccw(m)),
        spec_rotate_ccw(m).len() == mat_cols(m),
        mat_cols(spec_rotate_ccw(m)) == if mat_cols(m) == 0 { 0int } else { m.len() as int },
{
}

/// Rotating clockwise and then counterclockwise returns the matrix unchanged.
pub proof fn lemma_rotate_ccw_cw<T>(m: Seq<Seq<T>>)
    requires
        is_proper(m),
    ensures
        spec_rotate_ccw(spec_rotate_cw(m)) == m,
{
    lemma_rotate_cw_proper(m);
    assert(spec_rotate_ccw(spec_rotate_cw(m)) =~~= m);
}

/// Rotating counterclockwise and then clockwise returns the matrix unchanged.
pub proof fn lemma_rotate_cw_ccw<T>(m: Seq<Seq<T>>)
    requires
        is_proper(m),
    ensures
        spec_rotate_cw(spec_rotate_ccw(m)) == m,
{
    lemma_rotate_ccw_proper(m);
    assert(spec_rotate_cw(spec_rotate_ccw(m)) =~~= m);
}

/// Two clockwise rotations turn a matrix by 180 degrees.
proof fn lemma_rotate_cw_twice<T>(m: Seq<Seq<T>>)
    requires
        is_proper(m),
    ensures
        spec_rotate_cw(spec_rotate_cw(m)) =~~= Seq::new(
            m.len(),
            |i: int| Seq::new(mat_cols(m), |j: int| m[m.len() - 1 - i][mat_cols(m) - 1 - j]),
        ),
{
    lemma_rotate_cw_proper(m);
}

/// Rotating a matrix clockwise four times returns it unchanged.
pub proof fn lemma_rotate_cw_four<T>(m: Seq<Seq<T>>)
    requires
        is_proper(m),
    ensures
        spec_rotate_cw(spec_rotate_cw(spec_rotate_cw(spec_rotate_cw(m)))) == m,
{
    let m2 = spec_rotate_cw(spec_rotate_cw(m));
    lemma_rotate_cw_twice(m);
    lemma_rotate_cw_proper(m);
    lemma_rotate_cw_proper(spec_rotate_cw(m));
    lemma_rotate_cw_twice(m2);
    assert(spec_rotate_cw(spec_rotate_cw(m2)) =~~= m);
}

/// Applying `n` clockwise rotations is one rotation followed by `n - 1` more.
proof fn lemma_rotate_cw_n_shift<T>(m: Seq<Seq<T>>, n: nat)
    requires
        n > 0,
    ensures
        rotate_cw_n(m, n) == rotate_cw_n(spec_rotate_cw(m), (n - 1) as nat),
    decreases n,
{
    reveal_with_fuel(rotate_cw_n, 2);
    if n > 1 {
        lemma_rotate_cw_n_shift(m, (n - 1) as nat);
    }
}

/// Rotating any proper matrix clockwise `n` times and then counterclockwise
/// `n` times returns the matrix unchanged.
pub proof fn lemma_rotations_cancel<T>(m: Seq<Seq<T>>, n: nat)
    requires
        is_proper(m),
    ensures
        rotate_ccw_n(rotate_cw_n(m, n), n) == m,
    decreases n,
{
    if n > 0 {
        let mc = spec_rotate_cw(m);
        lemma_rotate_cw_proper(m);
        lemma_rotate_cw_n_shift(m, n);
        lemma_rotations_cancel(mc, (n - 1) as nat);
        lemma_rotate_ccw_cw(m);
    }
}

/// Rotating any proper matrix clockwise four times returns it unchanged.
pub proof fn lemma_rotate_cw_four_cycle<T>(m: Seq<Seq<T>>)
    requires
        is_proper(m),
    ensures
        rotate_cw_n(m, 4) == m,
{
    reveal_with_fuel(rotate_cw_n, 5);
    lemma_rotate_cw_four(m);
}

/// Transpose a matrix by turning rows into columns or vice versa.
pub fn transpose<T: Copy>(matrix: &Grid<T>) -> (r: Grid<T>)
    requires
        matrix.wf(),
    ensures
        r.wf(),
        r.spec_rows() == matrix.spec_cols(),
        r.spec_cols() == matrix.spec_rows(),
        forall|i: int, j: int|
            0 <= i < matrix.spec_cols() && 0 <= j < matrix.spec_rows() ==> #[trigger] r@[i][j]
                == matrix@[j][i],
        matrix.spec_rows() > 0 || matrix.spec_cols() == 0 ==> r@ == spec_transpose(matrix@),
{
    let rows = matrix.num_rows();
    let cols = matrix.num_cols();
    let mut data: Vec<T> = Vec::new();
    let mut i: usize = 0;
    while i < cols
        invariant
            i <= cols,
            rows == matrix.spec_rows(),
            cols == matrix.spec_cols(),
            matrix.wf(),
            data@.len() == i * rows,
            forall|a: int, b: int|
                0 <= a < i && 0 <= b < rows ==> #[trigger] data@[a * rows + b] == matrix@[b][a],
        decreases cols - i,
    {
        let mut j: usize = 0;
        while j < rows
            invariant
                j <= rows,
                i < cols,
                rows == matrix.spec_rows(),
                cols == matrix.spec_cols(),
                matrix.wf(),
                data@.len() == i * rows + j,
                forall|a: int, b: int|
                    0 <= a < i && 0 <= b < rows ==> #[trigger] data@[a * rows + b]
                        == matrix@[b][a],
                forall|b: int|
                    0 <= b < j ==> #[trigger] data@[i * rows + b] == matrix@[b][i as int],
            decreases rows - j,
        {
            data.push(matrix.get(j, i));
            proof {
                assert forall|a: int, b: int|
                    0 <= a < i && 0 <= b < rows implies #[trigger] data@[a * rows + b]
                    == matrix@[b][a] by {
                    assert(a * rows + b < i * rows) by (nonlinear_arith)
                        requires
                            0 <= a < i,
                            0 <= b < rows,
                    ;
                }
            }
            j = j + 1;
        }
        proof {
            assert((i + 1) * rows == i * rows + rows) by (nonlinear_arith);
            assert forall|a: int, b: int|
                0 <= a < i + 1 && 0 <= b < rows implies #[trigger] data@[a * rows + b]
                == matrix@[b][a] by {
                if a == i {
                    assert(data@[i * rows + b] == matrix@[b][i as int]);
                }
            }
        }
        i = i + 1;
    }
    proof {
        assert(data@.len() == cols * rows);
        assert(cols * rows == rows * cols) by (nonlinear_arith);
    }
    let r = Grid::from_row_major_exact(data, cols, rows);
    proof {
        if rows > 0 || cols == 0 {
            assert(r@ =~~= spec_transpose(matrix@));
        }
    }
    r
}

/// Rotate a matrix 90 degrees clockwise: its columns, read bottom to top,
/// become the rows of the result.
pub fn rotate_cw<T: Copy>(matrix: &Grid<T>) -> (r: Grid<T>)
    requires
        matrix.wf(),
    ensures
        r.wf(),
        r.spec_rows() == matrix.spec_cols(),
        r.spec_cols() == matrix.spec_rows(),
        forall|i: int, j: int|
            0 <= i < matrix.spec_cols() && 0 <= j < matrix.spec_rows() ==> #[trigger] r@[i][j]
                == matrix@[matrix.spec_rows() - 1 - j][i],
        matrix.spec_rows() > 0 || matrix.spec_cols() == 0 ==> r@ == spec_rotate_cw(matrix@),
{
    let rows = matrix.num_rows();
    let cols = matrix.num_cols();
    let mut data: Vec<T> = Vec::new();
    let mut i: usize = 0;
    while i < cols
        invariant
            i <= cols,
            rows == matrix.spec_rows(),
            cols == matrix.spec_cols(),
            matrix.wf(),
            data@.len() == i * rows,
            forall|a: int, b: int|
                0 <= a < i && 0 <= b < rows ==> #[trigger] data@[a * rows + b] == matrix@[rows - 1
                    - b][a],
        decreases cols - i,
    {
        let mut j: usize = 0;
        while j < rows
            invariant
                j <= rows,
                i < cols,
                rows == matrix.spec_rows(),
                cols == matrix.spec_cols(),
                matrix.wf(),
                data@.len() == i * rows + j,
                forall|a: int, b: int|
                    0 <= a < i && 0 <= b < rows ==> #[trigger] data@[a * rows + b] == matrix@[rows
                        - 1 - b][a],
                forall|b: int|
                    0 <= b < j ==> #[trigger] data@[i * rows + b] == matrix@[rows - 1 - b][
                        i as int],
            decreases rows - j,
        {
            data.push(matrix.get(rows - 1 - j, i));
            proof {
                assert forall|a: int, b: int|
                    0 <= a < i && 0 <= b < rows implies #[trigger] data@[a * rows + b]
                    == matrix@[rows - 1 - b][a] by {
                    assert(a * rows + b < i * rows) by (nonlinear_arith)
                        requires
                            0 <= a < i,
                            0 <= b < rows,
                    ;
                }
            }
            j = j + 1;
        }
        proof {
            assert((i + 1) * rows == i * rows + rows) by (nonlinear_arith);
            assert forall|a: int, b: int|
                0 <= a < i + 1 && 0 <= b < rows implies #[trigger] data@[a * rows + b]
                == matrix@[rows - 1 - b][a] by {
                if a == i {
                    assert(data@[i * rows + b] == matrix@[rows - 1 - b][i as int]);
                }
            }
        }
        i = i + 1;
    }
    proof {
        assert(data@.len() == cols * rows);
        assert(cols * rows == rows * cols) by (nonlinear_arith);
    }
    let r = Grid::from_row_major_exact(data, cols, rows);
    proof {
        if rows > 0 || cols == 0 {
            assert(r@ =~~= spec_rotate_cw(matrix@));
        }
    }
    r
}

/// Rotate a matrix 90 degrees counterclockwise: its columns, read top to
/// bottom, become the rows of the result in reverse order.
pub fn rotate_ccw<T: Copy>(matrix: &Grid<T>) -> (r: Grid<T>)
    requires
        matrix.wf(),
    ensures
        r.wf(),
        r.spec_rows() == matrix.spec_cols(),
        r.spec_cols() == matrix.spec_rows(),
        forall|i: int, j: int|
            0 <= i < matrix.spec_cols() && 0 <= j < matrix.spec_rows() ==> #[trigger] r@[i][j]
                == matrix@[j][matrix.spec_cols() - 1 - i],
        matrix.spec_rows() > 0 || matrix.spec_cols() == 0 ==> r@ == spec_rotate_ccw(matrix@),
{
    let rows = matrix.num_rows();
    let cols = matrix.num_cols();
    let mut data: Vec<T> = Vec::new();
    let mut i: usize = 0;
    while i < cols
        invariant
            i <= cols,
            rows == matrix.spec_rows(),
            cols == matrix.spec_cols(),
            matrix.wf(),
            data@.len() == i * rows,
            forall|a: int, b: int|
                0 <= a < i && 0 <= b < rows ==> #[trigger] data@[a * rows + b] == matrix@[b][cols
                    - 1 - a],
        decreases cols - i,
    {
        let mut j: usize = 0;
        while j < rows
            invariant
                j <= rows,
                i < cols,
                rows == matrix.spec_rows(),
                cols == matrix.spec_cols(),
                matrix.wf(),
                data@.len() == i * rows + j,
                forall|a: int, b: int|
                    0 <= a < i && 0 <= b < rows ==> #[trigger] data@[a * rows + b]
                        == matrix@[b][cols - 1 - a],
                forall|b: int|
                    0 <= b < j ==> #[trigger] data@[i * rows + b] == matrix@[b][cols - 1
                        - i as int],
            decreases rows - j,
        {
            data.push(matrix.get(j, cols - 1 - i));
            proof {
                assert forall|a: int, b: int|
                    0 <= a < i && 0 <= b < rows implies #[trigger] data@[a * rows + b]
                    == matrix@[b][cols - 1 - a] by {
                    assert(a * rows + b < i * rows) by (nonlinear_arith)
                        requires
                            0 <= a < i,
                            0 <= b < rows,
                    ;
                }
            }
            j = j + 1;
        }
        proof {
            assert((i + 1) * rows == i * rows + rows) by (nonlinear_arith);
            assert forall|a: int, b: int|
                0 <= a < i + 1 && 0 <= b < rows implies #[trigger] data@[a * rows + b]
                == matrix@[b][cols - 1 - a] by {
                if a == i {
                    assert(data@[i * rows + b] == matrix@[b][cols - 1 - i as int]);
                }
            }
        }
        i = i + 1;
    }
    proof {
        assert(data@.len() == cols * rows);
        assert(cols * rows == rows * cols) by (nonlinear_arith);
    }
    let r = Grid::from_row_major_exact(data, cols, rows);
    proof {
        if rows > 0 || cols == 0 {
            assert(r@ =~~= spec_rotate_ccw(matrix@));
        }
    }
    r
}

} // verus!
