//! A dense matrix, kept row by row.
use crate::scalar::{deterministic, Scalar};
use crate::vector::{copy, copy_range, dot, dot_product};
use vstd::prelude::*;

verus! {

/// A matrix of `nrows` rows, each of `ncols` entries.
pub struct Matrix<T> {
    rows: Vec<Vec<T>>,
    ncols: usize,
}

/// The rows that `data` holds when it is read row by row: row `j` is the
/// `ncols` entries from index `j * ncols` on.
pub open spec fn row_major<T>(data: Seq<T>, nrows: nat, ncols: nat) -> Seq<Seq<T>> {
    Seq::new(nrows, |j: int| data.subrange(j * ncols, j * ncols + ncols))
}

/// Whether every row of `rows` has `ncols` entries.
pub open spec fn rectangular<T>(rows: Seq<Seq<T>>, ncols: nat) -> bool {
    forall|j: int| 0 <= j < rows.len() ==> (#[trigger] rows[j]).len() == ncols
}

/// The product of the matrix with rows `rows` and the vector `x`: entry `j`
/// is the inner product of row `j` and `x`.
pub open spec fn image<T: Scalar>(rows: Seq<Seq<T>>, x: Seq<T>) -> Seq<T> {
    Seq::new(rows.len(), |j: int| dot(rows[j], x))
}

/// The views of the vectors of `rows`.
pub open spec fn rows_of<T>(rows: Seq<Vec<T>>) -> Seq<Seq<T>> {
    Seq::new(rows.len(), |j: int| rows[j]@)
}

proof fn lemma_row_start(j: int, nrows: int, ncols: int)
    requires
        0 <= j < nrows,
        0 <= ncols,
    ensures
        0 <= j * ncols,
        (j + 1) * ncols == j * ncols + ncols,
        (j + 1) * ncols <= nrows * ncols,
{
    assert(0 <= j * ncols) by (nonlinear_arith)
        requires
            0 <= j,
            0 <= ncols,
    ;
    assert((j + 1) * ncols == j * ncols + ncols) by (nonlinear_arith);
    assert((j + 1) * ncols <= nrows * ncols) by (nonlinear_arith)
        requires
            j + 1 <= nrows,
            0 <= ncols,
    ;
}

impl<T> Matrix<T> {
    /// The rows of the matrix.
    pub closed spec fn view(&self) -> Seq<Seq<T>> {
        rows_of(self.rows@)
    }

    /// The number of entries in a row.
    pub closed spec fn cols(&self) -> nat {
        self.ncols as nat
    }

    /// Every row has `cols()` entries.
    pub open spec fn wf(&self) -> bool {
        rectangular(self@, self.cols())
    }
}

impl<T: Scalar> Matrix<T> {
    /// Reads a matrix of the given shape from `data`, row by row. `None`
    /// unless `data` holds exactly `nrows * ncols` entries.
    pub fn from_row_major(nrows: usize, ncols: usize, data: &Vec<T>) -> (r: Option<Self>)
        ensures
            r.is_some() <==> data.len() == nrows * ncols,
            r matches Some(m) ==> m.wf() && m.cols() == ncols && m@ == row_major(
                data@,
                nrows as nat,
                ncols as nat,
            ),
    {
        let mut rows: Vec<Vec<T>> = Vec::new();
        let mut pos: usize = 0;
        let mut j: usize = 0;
        while j < nrows
            invariant
                j <= nrows,
                pos == j * ncols,
                pos <= data.len(),
                rows.len() == j,
                forall|i: int| 0 <= i < j ==> (#[trigger] rows[i]).len() == ncols,
                forall|i: int|
                    0 <= i < j ==> (#[trigger] rows[i])@ == data@.subrange(
                        i * ncols,
                        i * ncols + ncols,
                    ),
            decreases nrows - j,
        {
            proof {
                lemma_row_start(j as int, nrows as int, ncols as int);
            }
            if data.len() - pos < ncols {
                return None;
            }
            rows.push(copy_range(data, pos, pos + ncols));
            pos += ncols;
            j += 1;
        }
        if pos != data.len() {
            return None;
        }
        Some(Matrix { rows, ncols })
    }

    /// Takes a copy of `rows` as a matrix with `ncols` columns. `None`
    /// unless every row has `ncols` entries.
    pub fn from_rows(rows: &Vec<Vec<T>>, ncols: usize) -> (r: Option<Self>)
        ensures
            r.is_some() <==> rectangular(rows_of(rows@), ncols as nat),
            r matches Some(m) ==> m.wf() && m.cols() == ncols && m@ == rows_of(rows@),
    {
        let mut taken: Vec<Vec<T>> = Vec::new();
        let mut j: usize = 0;
        while j < rows.len()
            invariant
                j <= rows.len(),
                taken.len() == j,
                forall|i: int| 0 <= i < j ==> (#[trigger] taken[i])@ == rows[i]@,
                forall|i: int| 0 <= i < j ==> (#[trigger] rows[i]).len() == ncols,
            decreases rows.len() - j,
        {
            if rows[j].len() != ncols {
                assert(rows_of(rows@)[j as int].len() != ncols);
                return None;
            }
            taken.push(copy(&rows[j]));
            j += 1;
        }
        Some(Matrix { rows: taken, ncols })
    }

    /// The number of rows.
    pub fn nrows(&self) -> (r: usize)
        ensures
            r == self@.len(),
    {
        self.rows.len()
    }

    /// The number of columns.
    pub fn ncols(&self) -> (r: usize)
        ensures
            r == self.cols(),
    {
        self.ncols
    }

    /// Row `j`.
    pub fn row(&self, j: usize) -> (r: &Vec<T>)
        requires
            j < self@.len(),
        ensures
            r@ == self@[j as int],
    {
        &self.rows[j]
    }

    /// The entry in row `j`, column `k`.
    pub fn get(&self, j: usize, k: usize) -> (r: T)
        requires
            j < self@.len(),
            k < self@[j as int].len(),
        ensures
            r == self@[j as int][k as int],
    {
        self.rows[j][k]
    }

    /// Replaces the entry in row `j`, column `k`, by `v`.
    pub fn set(&mut self, j: usize, k: usize, v: T)
        requires
            j < old(self)@.len(),
            k < old(self)@[j as int].len(),
        ensures
            final(self)@ == old(self)@.update(j as int, old(self)@[j as int].update(k as int, v)),
            final(self).cols() == old(self).cols(),
    {
        self.rows[j][k] = v;
    }

    /// A copy of the rows.
    pub fn to_rows(&self) -> (r: Vec<Vec<T>>)
        ensures
            rows_of(r@) == self@,
    {
        let mut r: Vec<Vec<T>> = Vec::new();
        let mut j: usize = 0;
        while j < self.rows.len()
            invariant
                j <= self.rows.len(),
                r.len() == j,
                forall|i: int| 0 <= i < j ==> (#[trigger] r[i])@ == self.rows[i]@,
            decreases self.rows.len() - j,
        {
            r.push(copy(&self.rows[j]));
            j += 1;
        }
        r
    }

    /// The product of the matrix and the vector `x`.
    pub fn apply(&self, x: &Vec<T>) -> (r: Vec<T>)
        requires
            self.wf(),
            x.len() == self.cols(),
        ensures
            r.len() == self@.len(),
            deterministic::<T>() ==> r@ == image(self@, x@),
    {
        let mut r: Vec<T> = Vec::new();
        let mut j: usize = 0;
        while j < self.rows.len()
            invariant
                self.wf(),
                x.len() == self.cols(),
                j <= self.rows.len(),
                r.len() == j,
                deterministic::<T>() ==> forall|i: int|
                    0 <= i < j ==> #[trigger] r[i] == dot(self@[i], x@),
            decreases self.rows.len() - j,
        {
            assert(self@[j as int].len() == self.cols());
            r.push(dot_product(&self.rows[j], x));
            j += 1;
        }
        r
    }
}

} // verus!
