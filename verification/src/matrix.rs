//! Fixed-dimension square matrices for linear transforms, in fixed
//! point, with identity construction, addition, multiplication and
//! vector transformation.

use vstd::prelude::*;
use crate::fixed::{div_trunc, fits_i64, iabs, in_range, lemma_mul_mag, lemma_tdiv_mag, tdiv, SCALE};
use crate::vector::{v3, vec_in_range, Triple, Vec3};

verus! {

/// A `DIM` x `DIM` matrix of fixed-point values, stored row-major.
/// The identity transform carries `SCALE` (the fixed-point 1.0) on
/// its diagonal.
#[derive(Clone, Debug, PartialEq, Eq)]
pub struct Matrix<const DIM: usize> {
    pub table: Vec<i64>,
}

/// Row index `a` and column index `b` address a unique cell of the
/// row-major layout.
proof fn lemma_flat_index(dim: int, a: int, b: int, c: int, d: int)
    requires
        0 <= b < dim,
        0 <= d < dim,
        0 <= a,
        0 <= c,
        a * dim + b == c * dim + d,
    ensures
        a == c,
        b == d,
{
    assert(a == c && b == d) by (nonlinear_arith)
        requires
            0 <= b < dim,
            0 <= d < dim,
            0 <= a,
            0 <= c,
            a * dim + b == c * dim + d,
    ;
}

/// A cell of the row-major layout lies inside the table.
proof fn lemma_flat_index_bound(dim: int, a: int, b: int)
    requires
        0 <= a < dim,
        0 <= b < dim,
    ensures
        0 <= a * dim + b < dim * dim,
        a * dim + b <= (dim - 1) * dim + (dim - 1),
{
    assert(0 <= a * dim + b && a * dim + b <= (dim - 1) * dim + (dim - 1) && (dim - 1) * dim + (
    dim - 1) < dim * dim) by (nonlinear_arith)
        requires
            0 <= a < dim,
            0 <= b < dim,
    ;
}

/// Sum of the first `k` products of row `i` of `a` with column `j`
/// of `b`.
pub open spec fn row_col_prod<const DIM: usize>(
    a: Matrix<DIM>,
    b: Matrix<DIM>,
    i: int,
    j: int,
    k: int,
) -> int
    decreases k,
{
    if k <= 0 {
        0
    } else {
        row_col_prod(a, b, i, j, k - 1) + a.entry(i, k - 1) * b.entry(k - 1, j)
    }
}

/// One entry of the fixed-point matrix product: the exact sum of
/// products, truncated back to fixed-point scale once.
pub open spec fn mul_entry<const DIM: usize>(a: Matrix<DIM>, b: Matrix<DIM>, i: int, j: int) -> int {
    tdiv(row_col_prod(a, b, i, j, DIM as int), SCALE as int)
}

/// A partial sum of `DIM`-bounded products grows by at most one
/// product's magnitude per term.
proof fn lemma_row_col_prod_bounded<const DIM: usize>(
    a: Matrix<DIM>,
    b: Matrix<DIM>,
    i: int,
    j: int,
    k: int,
)
    requires
        a.wf(),
        b.wf(),
        a.entries_in_range(),
        b.entries_in_range(),
        0 <= i < DIM as int,
        0 <= j < DIM as int,
        0 <= k <= DIM as int,
    ensures
        iabs(row_col_prod(a, b, i, j, k)) <= k * 1_000_000_000_000_000_000,
    decreases k,
{
    if k > 0 {
        lemma_row_col_prod_bounded(a, b, i, j, k - 1);
        lemma_flat_index_bound(DIM as int, i, k - 1);
        lemma_flat_index_bound(DIM as int, k - 1, j);
        lemma_mul_mag(a.entry(i, k - 1), b.entry(k - 1, j), 1_000_000_000, 1_000_000_000);
    }
}

impl<const DIM: usize> Matrix<DIM> {
    /// The table holds exactly the `DIM * DIM` cells of the layout.
    pub open spec fn wf(&self) -> bool {
        self.table.len() == (DIM as int) * (DIM as int)
    }

    /// The cell at row `i`, column `j`.
    pub open spec fn entry(&self, i: int, j: int) -> int {
        self.table[i * (DIM as int) + j] as int
    }

    /// Every cell within the coordinate range of the library.
    pub open spec fn entries_in_range(&self) -> bool {
        forall|k: int| 0 <= k < self.table.len() ==> in_range(#[trigger] self.table[k] as int)
    }

    /// The all-zero matrix.
    pub fn new() -> (r: Self)
        requires
            (DIM as int) * (DIM as int) <= usize::MAX,
        ensures
            r.wf(),
            forall|k: int| 0 <= k < (DIM as int) * (DIM as int) ==> #[trigger] r.table[k] == 0i64,
    {
        let n: usize = DIM * DIM;
        let mut table: Vec<i64> = Vec::new();
        let mut k: usize = 0;
        while k < n
            invariant
                k <= n,
                table.len() == k,
                forall|q: int| 0 <= q < k ==> #[trigger] table[q] == 0i64,
            decreases n - k,
        {
            table.push(0);
            k = k + 1;
        }
        Matrix { table }
    }

    /// A matrix filled row-major from a slice: the first `DIM * DIM`
    /// values in order, and zero for every cell the slice does not
    /// cover.
    pub fn from_slice(values: &[i64]) -> (r: Self)
        requires
            (DIM as int) * (DIM as int) <= usize::MAX,
        ensures
            r.wf(),
            forall|k: int|
                0 <= k < (DIM as int) * (DIM as int) ==> #[trigger] r.table[k] == if k
                    < values@.len() {
                    values@[k]
                } else {
                    0i64
                },
    {
        let n: usize = DIM * DIM;
        let mut table: Vec<i64> = Vec::new();
        let mut k: usize = 0;
        while k < n
            invariant
                k <= n,
                table.len() == k,
                forall|q: int|
                    0 <= q < k ==> #[trigger] table[q] == if q < values@.len() {
                        values@[q]
                    } else {
                        0i64
                    },
            decreases n - k,
        {
            if k < values.len() {
                let v = values[k];
                table.push(v);
            } else {
                table.push(0);
            }
            k = k + 1;
        }
        Matrix { table }
    }

    /// The identity transform: `SCALE` (the fixed-point 1.0) on the
    /// diagonal, zero elsewhere.
    pub fn generate_identity_matrix() -> (r: Self)
        requires
            (DIM as int) * (DIM as int) <= usize::MAX,
        ensures
            r.wf(),
            forall|a: int, b: int|
                0 <= a < DIM as int && 0 <= b < DIM as int ==> #[trigger] r.entry(a, b) == if a
                    == b {
                    SCALE as int
                } else {
                    0
                },
    {
        let mut m = Self::new();
        proof {
            assert forall|a: int, b: int|
                0 <= a < DIM as int && 0 <= b < DIM as int implies #[trigger] m.entry(a, b)
                == 0 by {
                lemma_flat_index_bound(DIM as int, a, b);
            }
        }
        let mut i: usize = 0;
        while i < DIM
            invariant
                i <= DIM,
                m.wf(),
                (DIM as int) * (DIM as int) <= usize::MAX,
                forall|a: int, b: int|
                    0 <= a < DIM as int && 0 <= b < DIM as int ==> #[trigger] m.entry(a, b) == if a
                        == b && a < i as int {
                        SCALE as int
                    } else {
                        0
                    },
            decreases DIM - i,
        {
            proof {
                lemma_flat_index_bound(DIM as int, i as int, i as int);
            }
            let idx: usize = i * DIM + i;
            let ghost m0 = m;
            m.table[idx] = SCALE;
            proof {
                assert forall|a: int, b: int|
                    0 <= a < DIM as int && 0 <= b < DIM as int implies #[trigger] m.entry(a, b)
                    == if a == b && a < i as int + 1 {
                    SCALE as int
                } else {
                    0
                } by {
                    lemma_flat_index_bound(DIM as int, a, b);
                    assert(m0.entry(a, b) == if a == b && a < i as int {
                        SCALE as int
                    } else {
                        0
                    });
                    if a * (DIM as int) + b == i as int * (DIM as int) + i as int {
                        lemma_flat_index(DIM as int, a, b, i as int, i as int);
                    }
                }
            }
            i = i + 1;
        }
        m
    }

    /// Componentwise sum of two matrices.
    pub fn add(&self, rhs: &Self) -> (r: Self)
        requires
            self.wf(),
            rhs.wf(),
            forall|k: int|
                0 <= k < self.table.len() ==> fits_i64(
                    #[trigger] self.table[k] + rhs.table[k],
                ),
        ensures
            r.wf(),
            forall|k: int|
                0 <= k < r.table.len() ==> #[trigger] r.table[k] as int == self.table[k]
                    + rhs.table[k],
    {
        let n: usize = self.table.len();
        let mut table: Vec<i64> = Vec::new();
        let mut k: usize = 0;
        while k < n
            invariant
                k <= n,
                n == self.table.len(),
                rhs.table.len() == n,
                table.len() == k,
                forall|q: int|
                    0 <= q < self.table.len() ==> fits_i64(
                        #[trigger] self.table[q] + rhs.table[q],
                    ),
                forall|q: int|
                    0 <= q < k ==> #[trigger] table[q] as int == self.table[q] + rhs.table[q],
            decreases n - k,
        {
            let v = self.table[k] + rhs.table[k];
            table.push(v);
            k = k + 1;
        }
        Matrix { table }
    }

    /// Componentwise sum, in place.
    pub fn add_assign(&mut self, rhs: &Self)
        requires
            old(self).wf(),
            rhs.wf(),
            forall|k: int|
                0 <= k < old(self).table.len() ==> fits_i64(
                    #[trigger] old(self).table[k] + rhs.table[k],
                ),
        ensures
            final(self).wf(),
            forall|k: int|
                0 <= k < final(self).table.len() ==> #[trigger] final(self).table[k] as int == old(
                    self,
                ).table[k] + rhs.table[k],
    {
        let r = self.add(rhs);
        self.table = r.table;
    }

    /// Fixed-point matrix product: each entry is the exact sum of row
    /// by column products, truncated back to fixed-point scale.
    pub fn mul(&self, rhs: &Self) -> (r: Self)
        requires
            self.wf(),
            rhs.wf(),
            self.entries_in_range(),
            rhs.entries_in_range(),
            DIM as int <= 1_000_000,
        ensures
            r.wf(),
            forall|i: int, j: int|
                0 <= i < DIM as int && 0 <= j < DIM as int ==> #[trigger] r.entry(i, j)
                    == mul_entry(*self, *rhs, i, j),
    {
        proof {
            assert((DIM as int) * (DIM as int) <= 1_000_000_000_000) by (nonlinear_arith)
                requires
                    0 <= DIM as int <= 1_000_000,
            ;
        }
        let mut table: Vec<i64> = Vec::new();
        let mut i: usize = 0;
        while i < DIM
            invariant
                i <= DIM,
                (DIM as int) * (DIM as int) <= 1_000_000_000_000,
                self.wf(),
                rhs.wf(),
                self.entries_in_range(),
                rhs.entries_in_range(),
                DIM as int <= 1_000_000,
                table.len() == i * (DIM as int),
                forall|a: int, b: int|
                    0 <= a < i as int && 0 <= b < DIM as int ==> #[trigger] table[
                        a * (DIM as int) + b
                    ] as int == mul_entry(*self, *rhs, a, b),
            decreases DIM - i,
        {
            let mut j: usize = 0;
            while j < DIM
                invariant
                    i < DIM,
                    j <= DIM,
                    (DIM as int) * (DIM as int) <= 1_000_000_000_000,
                    self.wf(),
                    rhs.wf(),
                    self.entries_in_range(),
                    rhs.entries_in_range(),
                    DIM as int <= 1_000_000,
                    table.len() == i * (DIM as int) + j as int,
                    forall|a: int, b: int|
                        0 <= a < i as int && 0 <= b < DIM as int ==> #[trigger] table[
                            a * (DIM as int) + b
                        ] as int == mul_entry(*self, *rhs, a, b),
                    forall|b: int|
                        0 <= b < j as int ==> #[trigger] table[
                            i as int * (DIM as int) + b
                        ] as int == mul_entry(*self, *rhs, i as int, b),
                decreases DIM - j,
            {
                let mut acc: i128 = 0;
                let mut k: usize = 0;
                while k < DIM
                    invariant
                        i < DIM,
                        j < DIM,
                        k <= DIM,
                        (DIM as int) * (DIM as int) <= 1_000_000_000_000,
                        self.wf(),
                        rhs.wf(),
                        self.entries_in_range(),
                        rhs.entries_in_range(),
                        DIM as int <= 1_000_000,
                        acc as int == row_col_prod(*self, *rhs, i as int, j as int, k as int),
                        iabs(acc as int) <= k as int * 1_000_000_000_000_000_000,
                    decreases DIM - k,
                {
                    proof {
                        lemma_flat_index_bound(DIM as int, i as int, k as int);
                        lemma_flat_index_bound(DIM as int, k as int, j as int);
                        lemma_mul_mag(
                            self.entry(i as int, k as int),
                            rhs.entry(k as int, j as int),
                            1_000_000_000,
                            1_000_000_000,
                        );
                    }
                    let p = self.table[i * DIM + k] as i128 * rhs.table[k * DIM + j] as i128;
                    acc = acc + p;
                    k = k + 1;
                }
                proof {
                    lemma_tdiv_mag(acc as int, SCALE as int, 1_000_000_000_000_000_000_000_000);
                }
                let e = div_trunc(acc, SCALE as i128);
                table.push(e as i64);
                proof {
                    assert forall|a: int, b: int|
                        0 <= a < i as int && 0 <= b < DIM as int implies #[trigger] table[
                            a * (DIM as int) + b
                        ] as int == mul_entry(*self, *rhs, a, b) by {
                        lemma_flat_index_bound(DIM as int, a, b);
                        assert(a * (DIM as int) + b < i as int * (DIM as int) + j as int)
                            by (nonlinear_arith)
                            requires
                                0 <= a < i as int,
                                0 <= b < DIM as int,
                                0 <= j as int,
                        ;
                    }
                }
                j = j + 1;
            }
            proof {
                assert((i as int + 1) * (DIM as int) == i as int * (DIM as int) + DIM as int)
                    by (nonlinear_arith);
            }
            i = i + 1;
        }
        Matrix { table }
    }
}

/// One component of a vector transformed by a 3 x 3 matrix: the exact
/// sum of products with one column, truncated to fixed-point scale.
pub open spec fn vec_mat_col(v: Vec3, m: Matrix<3>, j: int) -> int {
    tdiv(v.x * m.entry(0, j) + v.y * m.entry(1, j) + v.z * m.entry(2, j), SCALE as int)
}

/// A vector transformed by a 3 x 3 matrix, row vector times matrix.
pub open spec fn vec_mat_mul(v: Vec3, m: Matrix<3>) -> Vec3 {
    Vec3 { x: vec_mat_col(v, m, 0), y: vec_mat_col(v, m, 1), z: vec_mat_col(v, m, 2) }
}

impl Triple {
    /// Transform this vector by a 3 x 3 matrix (row vector times
    /// matrix).
    pub fn mul_matrix(&self, rhs: &Matrix<3>) -> (r: Triple)
        requires
            rhs.wf(),
            rhs.entries_in_range(),
            vec_in_range(v3(*self)),
        ensures
            v3(r) == vec_mat_mul(v3(*self), *rhs),
    {
        proof {
            let v = v3(*self);
            assert(in_range(rhs.table[0] as int));
            assert(in_range(rhs.table[1] as int));
            assert(in_range(rhs.table[2] as int));
            assert(in_range(rhs.table[3] as int));
            assert(in_range(rhs.table[4] as int));
            assert(in_range(rhs.table[5] as int));
            assert(in_range(rhs.table[6] as int));
            assert(in_range(rhs.table[7] as int));
            assert(in_range(rhs.table[8] as int));
            lemma_mul_mag(v.x, rhs.table[0] as int, 1_000_000_000, 1_000_000_000);
            lemma_mul_mag(v.y, rhs.table[3] as int, 1_000_000_000, 1_000_000_000);
            lemma_mul_mag(v.z, rhs.table[6] as int, 1_000_000_000, 1_000_000_000);
            lemma_mul_mag(v.x, rhs.table[1] as int, 1_000_000_000, 1_000_000_000);
            lemma_mul_mag(v.y, rhs.table[4] as int, 1_000_000_000, 1_000_000_000);
            lemma_mul_mag(v.z, rhs.table[7] as int, 1_000_000_000, 1_000_000_000);
            lemma_mul_mag(v.x, rhs.table[2] as int, 1_000_000_000, 1_000_000_000);
            lemma_mul_mag(v.y, rhs.table[5] as int, 1_000_000_000, 1_000_000_000);
            lemma_mul_mag(v.z, rhs.table[8] as int, 1_000_000_000, 1_000_000_000);
            lemma_tdiv_mag(
                v.x * rhs.table[0] as int + v.y * rhs.table[3] as int + v.z * rhs.table[6] as int,
                SCALE as int,
                3_000_000_000_000_000_000,
            );
            assert(rhs.entry(0, 0) == rhs.table[0] as int);
            assert(rhs.entry(1, 0) == rhs.table[3] as int);
            assert(rhs.entry(2, 0) == rhs.table[6] as int);
            lemma_tdiv_mag(
                v.x * rhs.table[1] as int + v.y * rhs.table[4] as int + v.z * rhs.table[7] as int,
                SCALE as int,
                3_000_000_000_000_000_000,
            );
            assert(rhs.entry(0, 1) == rhs.table[1] as int);
            assert(rhs.entry(1, 1) == rhs.table[4] as int);
            assert(rhs.entry(2, 1) == rhs.table[7] as int);
            lemma_tdiv_mag(
                v.x * rhs.table[2] as int + v.y * rhs.table[5] as int + v.z * rhs.table[8] as int,
                SCALE as int,
                3_000_000_000_000_000_000,
            );
            assert(rhs.entry(0, 2) == rhs.table[2] as int);
            assert(rhs.entry(1, 2) == rhs.table[5] as int);
            assert(rhs.entry(2, 2) == rhs.table[8] as int);
        }
        let x = div_trunc(
            self.x as i128 * rhs.table[0] as i128 + self.y as i128 * rhs.table[3] as i128
                + self.z as i128 * rhs.table[6] as i128,
            SCALE as i128,
        );
        let y = div_trunc(
            self.x as i128 * rhs.table[1] as i128 + self.y as i128 * rhs.table[4] as i128
                + self.z as i128 * rhs.table[7] as i128,
            SCALE as i128,
        );
        let z = div_trunc(
            self.x as i128 * rhs.table[2] as i128 + self.y as i128 * rhs.table[5] as i128
                + self.z as i128 * rhs.table[8] as i128,
            SCALE as i128,
        );
        Triple { x: x as i64, y: y as i64, z: z as i64 }
    }

    /// Transform this vector by a 3 x 3 matrix, in place.
    pub fn mul_matrix_assign(&mut self, rhs: &Matrix<3>)
        requires
            rhs.wf(),
            rhs.entries_in_range(),
            vec_in_range(v3(*old(self))),
        ensures
            v3(*final(self)) == vec_mat_mul(v3(*old(self)), *rhs),
    {
        let r = self.mul_matrix(rhs);
        self.x = r.x;
        self.y = r.y;
        self.z = r.z;
    }
}

} // verus!
