//! The product of two matrices.
use crate::matrix::Matrix;
use crate::scalar::{exact, number, one, plain, total, zero, Scalar};
use core::ops::Mul;
use vstd::prelude::*;
use vstd::std_specs::ops::{AddSpec, MulSpec, MulSpecImpl};

verus! {

/// The sum of the first `k` products `x[i] * y[i]`, accumulated from zero,
/// the lowest index first.
pub open spec fn inner<T: Scalar>(x: Seq<T>, y: Seq<T>, k: nat) -> T
    decreases k,
{
    if k == 0 {
        zero::<T>()
    } else {
        inner(x, y, (k - 1) as nat).add_spec(x[k - 1].mul_spec(y[k - 1]))
    }
}

/// The inner product of `x` with a vector that is one at index `n` and zero
/// elsewhere picks `x[n]`, once the sum has passed index `n`.
pub proof fn inner_with_unit<T: Scalar>(x: Seq<T>, unit: Seq<T>, n: int, k: nat)
    requires
        0 <= n,
        k <= x.len(),
        k <= unit.len(),
        plain(zero::<T>()),
        forall|i: int| 0 <= i < k ==> plain(#[trigger] x[i]),
        forall|i: int|
            0 <= i < k ==> #[trigger] unit[i] == if i == n {
                one::<T>()
            } else {
                zero::<T>()
            },
    ensures
        inner(x, unit, k) == if k <= n {
            zero::<T>()
        } else {
            x[n]
        },
    decreases k,
{
    if k > 0 {
        inner_with_unit(x, unit, n, (k - 1) as nat);
        assert(plain(x[k - 1]));
        assert(unit[k - 1] == if k - 1 == n {
            one::<T>()
        } else {
            zero::<T>()
        });
        if k - 1 > n {
            assert(plain(x[n]));
        }
    }
}

impl<T: Scalar, const M: usize, const N: usize> Matrix<T, M, N> {
    /// The product of a matrix with the identity is the matrix itself,
    /// where the entries of the matrix, and zero, are plain.
    pub proof fn product_with_identity(self, identity: Matrix<T, N, N>, product: Self)
        requires
            forall|m: int, n: int|
                0 <= m < N && 0 <= n < N ==> identity.at(m, n) == if m == n {
                    one::<T>()
                } else {
                    zero::<T>()
                },
            product.is_product(self, identity),
            plain(zero::<T>()),
            forall|m: int, n: int| 0 <= m < M && 0 <= n < N ==> plain(self.at(m, n)),
        ensures
            product == self,
    {
        identity.shape();
        assert forall|m: int, n: int| 0 <= m < M && 0 <= n < N implies product.at(m, n)
            == self.at(m, n) by {
            let x = self.row(m);
            let unit = identity.columns()[n];
            assert forall|i: int| 0 <= i < N implies plain(#[trigger] x[i]) by {
                assert(x[i] == self.at(m, i));
            }
            assert forall|i: int| 0 <= i < N implies #[trigger] unit[i] == if i == n {
                one::<T>()
            } else {
                zero::<T>()
            } by {
                assert(unit[i] == identity.at(i, n));
            }
            inner_with_unit(x, unit, n, N as nat);
            assert(x[n] == self.at(m, n));
        }
        product.same_entries(self);
    }

    /// `self` is the product of `a` and `b`: the entry in row `m` of column
    /// `n` is the inner product of row `m` of `a` with column `n` of `b`.
    pub open spec fn is_product<const D: usize>(
        self,
        a: Matrix<T, M, D>,
        b: Matrix<T, D, N>,
    ) -> bool {
        forall|m: int, n: int|
            0 <= m < M && 0 <= n < N ==> self.at(m, n) == inner(
                a.row(m),
                b.columns()[n],
                D as nat,
            )
    }
}

impl<T: Scalar, const M: usize, const N: usize, const D: usize> MulSpecImpl<Matrix<T, D, N>> for Matrix<T, M, D> {
    open spec fn obeys_mul_spec() -> bool {
        exact::<T>()
    }

    open spec fn mul_req(self, rhs: Matrix<T, D, N>) -> bool {
        total::<T>()
    }

    open spec fn mul_spec(self, rhs: Matrix<T, D, N>) -> Matrix<T, M, N> {
        choose|r: Matrix<T, M, N>| r.is_product(self, rhs)
    }
}

impl<T: Scalar, const M: usize, const N: usize, const D: usize> Mul<Matrix<T, D, N>> for Matrix<T, M, D> {
    type Output = Matrix<T, M, N>;

    /// The matrix product.
    fn mul(self, rhs: Matrix<T, D, N>) -> (r: Matrix<T, M, N>)
        ensures
            exact::<T>() ==> r.is_product(self, rhs),
    {
        let mut out: Matrix<T, M, N> = Matrix::zeros();
        for n in 0..N
            invariant
                total::<T>(),
                forall|i: int, j: int|
                    0 <= i < M && 0 <= j < n && exact::<T>() ==> out.at(i, j) == inner(
                        self.row(i),
                        rhs.columns()[j],
                        D as nat,
                    ),
        {
            for m in 0..M
                invariant
                    total::<T>(),
                    n < N,
                    forall|i: int, j: int|
                        0 <= i < M && 0 <= j < n && exact::<T>() ==> out.at(i, j) == inner(
                            self.row(i),
                            rhs.columns()[j],
                            D as nat,
                        ),
                    forall|i: int|
                        0 <= i < m && exact::<T>() ==> out.at(i, n as int) == inner(
                            self.row(i),
                            rhs.columns()[n as int],
                            D as nat,
                        ),
            {
                let mut acc: T = number(0);
                for d in 0..D
                    invariant
                        total::<T>(),
                        n < N,
                        m < M,
                        exact::<T>() ==> acc == inner(
                            self.row(m as int),
                            rhs.columns()[n as int],
                            d as nat,
                        ),
                {
                    acc = acc + self.get(m, d) * rhs.get(d, n);
                }
                out.set(m, n, acc);
            }
        }
        proof {
            if exact::<T>() {
                let chosen = choose|r: Matrix<T, M, N>| r.is_product(self, rhs);
                assert(out.is_product(self, rhs));
                chosen.same_entries(out);
            }
        }
        out
    }
}

} // verus!
