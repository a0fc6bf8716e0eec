//! An owned rectangular grid of cells, stored in row-major order.
//!
//! A `Grid<T>` is the storage shared by the board and by the piece masks; its
//! mathematical view is a sequence of rows, each a sequence of cells.

use vstd::arithmetic::div_mod::lemma_fundamental_div_mod;
use vstd::arithmetic::div_mod::lemma_fundamental_div_mod_converse;
use vstd::prelude::*;

verus! {

/// An owned, fixed-size rectangular grid of cells of a generic element type.
pub struct Grid<T> {
    /// The number of rows.
    rows: usize,
    /// The number of columns.
    cols: usize,
    /// The cells, row by row.
    data: Vec<T>,
}

impl<T> View for Grid<T> {
    type V = Seq<Seq<T>>;

    closed spec fn view(&self) -> Seq<Seq<T>> {
        Seq::new(
            self.rows as nat,
            |i: int| Seq::new(self.cols as nat, |j: int| self.data@[i * (self.cols as int) + j]),
        )
    }
}

/// The view of a grid always consists of `spec_rows()` rows of `spec_cols()`
/// cells, whether or not the grid is well-formed.
pub broadcast proof fn lemma_grid_view_shape<T>(g: Grid<T>)
    ensures
        (#[trigger] g@).len() == g.spec_rows(),
        forall|i: int| 0 <= i < g@.len() ==> (#[trigger] g@[i]).len() == g.spec_cols(),
{
}

/// The position of cell `(i, j)` inside a row-major store of `cols`-wide rows
/// stays below the store's size and meets no other cell's position.
proof fn lemma_row_major_index(i: int, j: int, rows: int, cols: int)
    requires
        0 <= i < rows,
        0 <= j < cols,
    ensures
        0 <= i * cols + j < rows * cols,
    decreases rows,
{
    assert(0 <= i * cols + j < rows * cols) by (nonlinear_arith)
        requires
            0 <= i < rows,
            0 <= j < cols,
    ;
}

/// Two in-range cells at the same row-major position are the same cell.
proof fn lemma_row_major_index_injective(i1: int, j1: int, i2: int, j2: int, cols: int)
    requires
        0 <= i1,
        0 <= i2,
        0 <= j1 < cols,
        0 <= j2 < cols,
        i1 * cols + j1 == i2 * cols + j2,
    ensures
        i1 == i2,
        j1 == j2,
{
    assert(i1 == i2 && j1 == j2) by (nonlinear_arith)
        requires
            0 <= i1,
            0 <= i2,
            0 <= j1 < cols,
            0 <= j2 < cols,
            i1 * cols + j1 == i2 * cols + j2,
    ;
}

impl<T> Grid<T> {
    /// The number of rows, as seen by specifications.
    pub closed spec fn spec_rows(&self) -> nat {
        self.rows as nat
    }

    /// The number of columns, as seen by specifications.
    pub closed spec fn spec_cols(&self) -> nat {
        self.cols as nat
    }

    /// Well-formedness: the backing store holds exactly rows x cols cells.
    pub closed spec fn wf(&self) -> bool {
        self.data@.len() == self.spec_rows() * self.spec_cols()
    }

    /// Get the number of rows.
    pub fn num_rows(&self) -> (n: usize)
        ensures
            n == self.spec_rows(),
    {
        self.rows
    }

    /// Get the number of columns.
    pub fn num_cols(&self) -> (n: usize)
        ensures
            n == self.spec_cols(),
    {
        self.cols
    }

    /// Get the number of cells.
    pub fn size(&self) -> (n: usize)
        requires
            self.wf(),
        ensures
            n == self.spec_rows() * self.spec_cols(),
    {
        self.data.len()
    }
}

impl<T: Copy> Grid<T> {
    /// Create a grid of the given dimensions with every cell set to `value`.
    pub fn filled(rows: usize, cols: usize, value: T) -> (g: Grid<T>)
        requires
            rows * cols <= usize::MAX,
        ensures
            g.wf(),
            g.spec_rows() == rows,
            g.spec_cols() == cols,
            forall|i: int, j: int|
                0 <= i < rows && 0 <= j < cols ==> #[trigger] g@[i][j] == value,
    {
        let total: usize = rows * cols;
        let mut data: Vec<T> = Vec::new();
        let mut k: usize = 0;
        while k < total
            invariant
                k <= total,
                data@.len() == k,
                forall|m: int| 0 <= m < k ==> #[trigger] data@[m] == value,
            decreases total - k,
        {
            data.push(value);
            k = k + 1;
        }
        let g = Grid { rows, cols, data };
        proof {
            assert forall|i: int, j: int|
                0 <= i < rows && 0 <= j < cols implies #[trigger] g@[i][j] == value by {
                lemma_row_major_index(i, j, rows as int, cols as int);
            }
        }
        g
    }

    /// Wrap a row-major store of cells, whose length must equal rows x cols,
    /// as a grid.
    pub(crate) fn from_row_major_exact(data: Vec<T>, rows: usize, cols: usize) -> (g: Grid<T>)
        requires
            data@.len() == rows * cols,
        ensures
            g.wf(),
            g.spec_rows() == rows,
            g.spec_cols() == cols,
            forall|i: int, j: int|
                0 <= i < rows && 0 <= j < cols ==> #[trigger] g@[i][j] == data@[i * cols + j],
    {
        let g = Grid { rows, cols, data };
        proof {
            assert forall|i: int, j: int|
                0 <= i < rows && 0 <= j < cols implies #[trigger] g@[i][j] == g.data@[i * cols
                + j] by {
                lemma_row_major_index(i, j, rows as int, cols as int);
            }
        }
        g
    }

    /// Create a grid from a row-major list of cells, if the list's length
    /// matches the given dimensions.
    pub fn from_row_major(data: Vec<T>, rows: usize, cols: usize) -> (r: Option<Grid<T>>)
        ensures
            match r {
                Some(g) => {
                    &&& g.wf()
                    &&& g.spec_rows() == rows
                    &&& g.spec_cols() == cols
                    &&& data@.len() == rows * cols
                    &&& forall|i: int, j: int|
                        0 <= i < rows && 0 <= j < cols ==> #[trigger] g@[i][j] == data@[i * cols
                            + j]
                },
                None => data@.len() != rows * cols,
            },
    {
        let len = data.len();
        let ok: bool = if rows == 0 || cols == 0 {
            len == 0
        } else {
            len / cols == rows && len % cols == 0
        };
        proof {
            if rows == 0 || cols == 0 {
                assert(rows * cols == 0) by (nonlinear_arith)
                    requires
                        rows == 0 || cols == 0,
                ;
            } else {
                assert(rows * cols == cols * rows) by (nonlinear_arith);
                if ok {
                    lemma_fundamental_div_mod(len as int, cols as int);
                } else {
                    if len == rows * cols {
                        lemma_fundamental_div_mod_converse(len as int, cols as int, rows as int, 0);
                    }
                }
            }
        }
        if ok {
            Some(Grid::from_row_major_exact(data, rows, cols))
        } else {
            None
        }
    }

    /// Get the value of the cell at row `r`, column `c`.
    pub fn get(&self, r: usize, c: usize) -> (v: T)
        requires
            self.wf(),
            r < self.spec_rows(),
            c < self.spec_cols(),
        ensures
            v == self@[r as int][c as int],
    {
        // Reading the store's length pins it as a usize, so the row-major
        // position below cannot overflow.
        let n = self.data.len();
        proof {
            lemma_row_major_index(r as int, c as int, self.rows as int, self.cols as int);
        }
        let idx: usize = r * self.cols + c;
        self.data[idx]
    }

    /// Overwrite the cell at row `r`, column `c` with `v`.
    pub fn set(&mut self, r: usize, c: usize, v: T)
        requires
            old(self).wf(),
            r < old(self).spec_rows(),
            c < old(self).spec_cols(),
        ensures
            final(self).wf(),
            final(self).spec_rows() == old(self).spec_rows(),
            final(self).spec_cols() == old(self).spec_cols(),
            final(self)@[r as int][c as int] == v,
            forall|i: int, j: int|
                0 <= i < old(self).spec_rows() && 0 <= j < old(self).spec_cols() && !(i == r && j
                    == c) ==> #[trigger] final(self)@[i][j] == old(self)@[i][j],
    {
        // Reading the store's length pins it as a usize, so the row-major
        // position below cannot overflow.
        let n = self.data.len();
        proof {
            lemma_row_major_index(r as int, c as int, self.rows as int, self.cols as int);
        }
        let idx: usize = r * self.cols + c;
        self.data.set(idx, v);
        proof {
            lemma_row_major_index(r as int, c as int, self.rows as int, self.cols as int);
            assert forall|i: int, j: int|
                0 <= i < self.spec_rows() && 0 <= j < self.spec_cols() && !(i == r && j
                    == c) implies #[trigger] self@[i][j] == old(self)@[i][j] by {
                lemma_row_major_index(i, j, self.rows as int, self.cols as int);
                if i * (self.cols as int) + j == idx {
                    lemma_row_major_index_injective(
                        i,
                        j,
                        r as int,
                        c as int,
                        self.cols as int,
                    );
                }
            }
        }
    }

    /// Read the grid out as a row-major list of cells.
    pub fn as_row_major(&self) -> (v: Vec<T>)
        requires
            self.wf(),
        ensures
            v@.len() == self.spec_rows() * self.spec_cols(),
            forall|i: int, j: int|
                0 <= i < self.spec_rows() && 0 <= j < self.spec_cols() ==> v@[i * self.spec_cols()
                    + j] == #[trigger] self@[i][j],
    {
        let n = self.data.len();
        let mut v: Vec<T> = Vec::new();
        let mut k: usize = 0;
        while k < n
            invariant
                k <= n,
                n == self.data@.len(),
                v@.len() == k,
                forall|m: int| 0 <= m < k ==> #[trigger] v@[m] == self.data@[m],
            decreases n - k,
        {
            v.push(self.data[k]);
            k = k + 1;
        }
        proof {
            assert forall|i: int, j: int|
                0 <= i < self.spec_rows() && 0 <= j < self.spec_cols() implies v@[i
                * self.spec_cols() + j] == #[trigger] self@[i][j] by {
                lemma_row_major_index(i, j, self.rows as int, self.cols as int);
            }
        }
        v
    }
}

impl<T: Copy> Clone for Grid<T> {
    /// Copy the grid cell by cell.
    fn clone(&self) -> (r: Self)
        ensures
            r.spec_rows() == self.spec_rows(),
            r.spec_cols() == self.spec_cols(),
            r@ == self@,
            r.wf() == self.wf(),
    {
        let n = self.data.len();
        let mut data: Vec<T> = Vec::new();
        let mut k: usize = 0;
        while k < n
            invariant
                k <= n,
                n == self.data@.len(),
                data@.len() == k,
                forall|m: int| 0 <= m < k ==> #[trigger] data@[m] == self.data@[m],
            decreases n - k,
        {
            data.push(self.data[k]);
            k = k + 1;
        }
        let r = Grid { rows: self.rows, cols: self.cols, data };
        proof {
            assert(r.data@ =~= self.data@);
            assert(r@ =~~= self@);
        }
        r
    }
}

} // verus!
