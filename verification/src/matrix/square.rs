//! Square matrices: the identity and the determinant.
use crate::matrix::Matrix;
use crate::scalar::{embeds, exact, number, one, total, zero, Scalar};
use vstd::prelude::*;
use vstd::std_specs::ops::{AddSpec, MulSpec, NegSpec, SubSpec};

verus! {

/// The entry in row `m` of column `n` of a matrix given by its columns.
pub open spec fn entry<T>(columns: Seq<Seq<T>>, m: int, n: int) -> T {
    columns[n][m]
}

/// The determinant of a 2×2 matrix: `ad − bc`.
pub open spec fn det2<T: Scalar>(c: Seq<Seq<T>>) -> T {
    entry(c, 0, 0).mul_spec(entry(c, 1, 1)).sub_spec(entry(c, 0, 1).mul_spec(entry(c, 1, 0)))
}

/// The determinant of a 3×3 matrix, expanded along its first row.
pub open spec fn det3<T: Scalar>(c: Seq<Seq<T>>) -> T {
    let first = entry(c, 0, 0).mul_spec(
        entry(c, 1, 1).mul_spec(entry(c, 2, 2)).sub_spec(entry(c, 1, 2).mul_spec(entry(c, 2, 1))),
    );
    let second = entry(c, 0, 1).mul_spec(
        entry(c, 1, 0).mul_spec(entry(c, 2, 2)).sub_spec(entry(c, 1, 2).mul_spec(entry(c, 2, 0))),
    );
    let third = entry(c, 0, 2).mul_spec(
        entry(c, 1, 0).mul_spec(entry(c, 2, 1)).sub_spec(entry(c, 1, 1).mul_spec(entry(c, 2, 0))),
    );
    first.sub_spec(second).add_spec(third)
}

/// The 3×3 minor of a 4×4 matrix that is left when row 0 and column `col`
/// are deleted.
pub open spec fn minor<T>(c: Seq<Seq<T>>, col: int) -> Seq<Seq<T>> {
    Seq::new(
        3,
        |n: int|
            Seq::new(
                3,
                |m: int|
                    entry(
                        c,
                        m + 1,
                        if n < col {
                            n
                        } else {
                            n + 1
                        },
                    ),
            ),
    )
}

/// The sign of the cofactor of column `col`: one for an even column, minus
/// one for an odd one.
pub open spec fn cofactor_sign<T: Scalar>(col: int) -> T {
    if col % 2 == 0 {
        one::<T>()
    } else {
        one::<T>().neg_spec()
    }
}

/// The term that column `col` adds to the expansion of a 4×4 determinant
/// along the first row.
pub open spec fn cofactor_term<T: Scalar>(c: Seq<Seq<T>>, col: int) -> T {
    cofactor_sign::<T>(col).mul_spec(entry(c, 0, col)).mul_spec(det3(minor(c, col)))
}

/// The sum of the cofactor terms of the first `k` columns, accumulated from
/// zero.
pub open spec fn laplace<T: Scalar>(c: Seq<Seq<T>>, k: nat) -> T
    decreases k,
{
    if k == 0 {
        zero::<T>()
    } else {
        laplace(c, (k - 1) as nat).add_spec(cofactor_term(c, k - 1))
    }
}

/// The determinant of a 4×4 matrix: the Laplace expansion along the first
/// row.
pub open spec fn det4<T: Scalar>(c: Seq<Seq<T>>) -> T {
    laplace(c, 4)
}

impl<T: Scalar, const M: usize> Matrix<T, M, M> {
    /// The identity: ones on the diagonal, zeros elsewhere.
    pub fn identity() -> (r: Self)
        ensures
            embeds::<T>() ==> forall|m: int, n: int|
                0 <= m < M && 0 <= n < M ==> r.at(m, n) == if m == n {
                    one::<T>()
                } else {
                    zero::<T>()
                },
    {
        let mut out = Self::zeros();
        let unit: T = number(1);
        for d in 0..M
            invariant
                embeds::<T>() ==> unit == one::<T>(),
                embeds::<T>() ==> forall|m: int, n: int|
                    0 <= m < M && 0 <= n < M ==> out.at(m, n) == if m == n && m < d {
                        one::<T>()
                    } else {
                        zero::<T>()
                    },
        {
            out.set(d, d, unit);
        }
        out
    }
}

impl<T: Scalar, const M: usize> Default for Matrix<T, M, M> {
    /// The identity.
    fn default() -> (r: Self)
        ensures
            embeds::<T>() ==> forall|m: int, n: int|
                0 <= m < M && 0 <= n < M ==> r.at(m, n) == if m == n {
                    one::<T>()
                } else {
                    zero::<T>()
                },
    {
        Self::identity()
    }
}

impl<T: Scalar> Matrix<T, 2, 2> {
    /// The determinant.
    pub fn determinant(&self) -> (r: T)
        requires
            total::<T>(),
        ensures
            exact::<T>() ==> r == det2(self.columns()),
    {
        self.get(0, 0) * self.get(1, 1) - self.get(0, 1) * self.get(1, 0)
    }
}

impl<T: Scalar> Matrix<T, 3, 3> {
    /// The determinant.
    pub fn determinant(&self) -> (r: T)
        requires
            total::<T>(),
        ensures
            exact::<T>() ==> r == det3(self.columns()),
    {
        self.get(0, 0) * (self.get(1, 1) * self.get(2, 2) - self.get(1, 2) * self.get(2, 1))
            - self.get(0, 1) * (self.get(1, 0) * self.get(2, 2) - self.get(1, 2) * self.get(2, 0))
            + self.get(0, 2) * (self.get(1, 0) * self.get(2, 1) - self.get(1, 1) * self.get(2, 0))
    }
}

impl<T: Scalar> Matrix<T, 4, 4> {
    /// The determinant.
    pub fn determinant(&self) -> (r: T)
        requires
            total::<T>(),
        ensures
            exact::<T>() ==> r == det4(self.columns()),
    {
        let mut det: T = number(0);
        let unit: T = number(1);
        for col in 0..4usize
            invariant
                total::<T>(),
                embeds::<T>() ==> unit == one::<T>(),
                exact::<T>() ==> det == laplace(self.columns(), col as nat),
        {
            let mut sub: Matrix<T, 3, 3> = Matrix::zeros();
            for i in 0..3usize
                invariant
                    col < 4,
                    forall|p: int, q: int|
                        0 <= p < i && 0 <= q < 3 ==> sub.at(p, q) == entry(
                            minor(self.columns(), col as int),
                            p,
                            q,
                        ),
            {
                let mut minor_col: usize = 0;
                for n in 0..4usize
                    invariant
                        col < 4,
                        i < 3,
                        minor_col == if n <= col {
                            n
                        } else {
                            (n - 1) as usize
                        },
                        forall|p: int, q: int|
                            0 <= p < i && 0 <= q < 3 ==> sub.at(p, q) == entry(
                                minor(self.columns(), col as int),
                                p,
                                q,
                            ),
                        forall|q: int|
                            0 <= q < minor_col ==> sub.at(i as int, q) == entry(
                                minor(self.columns(), col as int),
                                i as int,
                                q,
                            ),
                {
                    if n != col {
                        sub.set(i, minor_col, self.get(i + 1, n));
                        minor_col += 1;
                    }
                }
            }
            let sign = if col % 2 == 0 {
                unit
            } else {
                unit.neg()
            };
            let minor_det = sub.determinant();
            proof {
                sub.shape();
                assert(sub.columns() =~~= minor(self.columns(), col as int)) by {
                    assert forall|j: int| 0 <= j < 3 implies #[trigger] sub.columns()[j] =~= minor(
                        self.columns(),
                        col as int,
                    )[j] by {
                        assert forall|i: int| 0 <= i < 3 implies sub.columns()[j][i] == minor(
                            self.columns(),
                            col as int,
                        )[j][i] by {
                            assert(sub.at(i, j) == entry(minor(self.columns(), col as int), i, j));
                        }
                    }
                }
            }
            det = det + sign * self.get(0, col) * minor_det;
        }
        det
    }
}

} // verus!
