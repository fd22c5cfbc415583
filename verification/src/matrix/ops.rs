//! Entry-wise arithmetic on matrices: sum, difference, negation, and the
//! product and quotient by a scalar.
use crate::matrix::Matrix;
use crate::scalar::{exact, total, Scalar};
use core::ops::{Add, AddAssign, Div, DivAssign, Mul, MulAssign, Neg, Sub, SubAssign};
use vstd::prelude::*;
use vstd::std_specs::ops::{
    AddSpec, AddSpecImpl, DivSpec, DivSpecImpl, MulSpec, MulSpecImpl, NegSpec, NegSpecImpl,
    SubSpec, SubSpecImpl,
};

verus! {

impl<T: Scalar, const M: usize, const N: usize> Matrix<T, M, N> {
    /// `self` is the entry-wise sum of `a` and `b`.
    pub open spec fn is_sum(self, a: Self, b: Self) -> bool {
        forall|m: int, n: int|
            0 <= m < M && 0 <= n < N ==> self.at(m, n) == a.at(m, n).add_spec(b.at(m, n))
    }

    /// `self` is the entry-wise difference of `a` and `b`.
    pub open spec fn is_difference(self, a: Self, b: Self) -> bool {
        forall|m: int, n: int|
            0 <= m < M && 0 <= n < N ==> self.at(m, n) == a.at(m, n).sub_spec(b.at(m, n))
    }

    /// Each entry of `self` is the negated entry of `a`.
    pub open spec fn is_negation(self, a: Self) -> bool {
        forall|m: int, n: int| 0 <= m < M && 0 <= n < N ==> self.at(m, n) == a.at(m, n).neg_spec()
    }

    /// Each entry of `self` is `factor` times the entry of `a`, the factor on
    /// the left.
    pub open spec fn is_scaled(self, a: Self, factor: T) -> bool {
        forall|m: int, n: int|
            0 <= m < M && 0 <= n < N ==> self.at(m, n) == factor.mul_spec(a.at(m, n))
    }

    /// Each entry of `self` is the entry of `a` divided by `divisor`.
    pub open spec fn is_quotient(self, a: Self, divisor: T) -> bool {
        forall|m: int, n: int|
            0 <= m < M && 0 <= n < N ==> self.at(m, n) == a.at(m, n).div_spec(divisor)
    }

    /// A matrix added to `self` and taken off again gives `self` back,
    /// where the same holds of each pair of entries. Over a scalar that
    /// rounds, entries that differ much in magnitude are not such.
    pub proof fn sum_then_difference(self, b: Self, sum: Self, back: Self)
        requires
            sum.is_sum(self, b),
            back.is_difference(sum, b),
            forall|m: int, n: int|
                0 <= m < M && 0 <= n < N ==> self.at(m, n).add_spec(b.at(m, n)).sub_spec(
                    b.at(m, n),
                ) == self.at(m, n),
        ensures
            back == self,
    {
        assert forall|m: int, n: int| 0 <= m < M && 0 <= n < N implies back.at(m, n) == self.at(
            m,
            n,
        ) by {
            assert(sum.at(m, n) == self.at(m, n).add_spec(b.at(m, n)));
            assert(back.at(m, n) == sum.at(m, n).sub_spec(b.at(m, n)));
        }
        back.same_entries(self);
    }
}

impl<T: Scalar, const M: usize, const N: usize> AddSpecImpl for Matrix<T, M, N> {
    open spec fn obeys_add_spec() -> bool {
        exact::<T>()
    }

    open spec fn add_req(self, rhs: Self) -> bool {
        total::<T>()
    }

    open spec fn add_spec(self, rhs: Self) -> Self {
        choose|r: Self| r.is_sum(self, rhs)
    }
}

impl<T: Scalar, const M: usize, const N: usize> Add for Matrix<T, M, N> {
    type Output = Matrix<T, M, N>;

    /// The entry-wise sum.
    fn add(self, rhs: Self) -> (r: Self)
        ensures
            exact::<T>() ==> r.is_sum(self, rhs),
    {
        let mut out = self;
        for n in 0..N
            invariant
                total::<T>(),
                forall|i: int, j: int|
                    0 <= i < M && 0 <= j < n && exact::<T>() ==> out.at(i, j) == self.at(i, j).add_spec(rhs.at(i, j)),
        {
            for m in 0..M
                invariant
                    total::<T>(),
                    n < N,
                    forall|i: int, j: int|
                        0 <= i < M && 0 <= j < n && exact::<T>() ==> out.at(i, j) == self.at(i, j).add_spec(rhs.at(i, j)),
                    forall|i: int|
                        0 <= i < m && exact::<T>() ==> out.at(i, n as int) == self.at(i, n as int).add_spec(rhs.at(i, n as int)),
            {
                out.set(m, n, self.get(m, n) + rhs.get(m, n));
            }
        }
        proof {
            if exact::<T>() {
                let chosen = choose|r: Self| r.is_sum(self, rhs);
                assert(out.is_sum(self, rhs));
                chosen.same_entries(out);
            }
        }
        out
    }
}

impl<T: Scalar, const M: usize, const N: usize> SubSpecImpl for Matrix<T, M, N> {
    open spec fn obeys_sub_spec() -> bool {
        exact::<T>()
    }

    open spec fn sub_req(self, rhs: Self) -> bool {
        total::<T>()
    }

    open spec fn sub_spec(self, rhs: Self) -> Self {
        choose|r: Self| r.is_difference(self, rhs)
    }
}

impl<T: Scalar, const M: usize, const N: usize> Sub for Matrix<T, M, N> {
    type Output = Matrix<T, M, N>;

    /// The entry-wise difference.
    fn sub(self, rhs: Self) -> (r: Self)
        ensures
            exact::<T>() ==> r.is_difference(self, rhs),
    {
        let mut out = self;
        for n in 0..N
            invariant
                total::<T>(),
                forall|i: int, j: int|
                    0 <= i < M && 0 <= j < n && exact::<T>() ==> out.at(i, j) == self.at(i, j).sub_spec(rhs.at(i, j)),
        {
            for m in 0..M
                invariant
                    total::<T>(),
                    n < N,
                    forall|i: int, j: int|
                        0 <= i < M && 0 <= j < n && exact::<T>() ==> out.at(i, j) == self.at(i, j).sub_spec(rhs.at(i, j)),
                    forall|i: int|
                        0 <= i < m && exact::<T>() ==> out.at(i, n as int) == self.at(i, n as int).sub_spec(rhs.at(i, n as int)),
            {
                out.set(m, n, self.get(m, n) - rhs.get(m, n));
            }
        }
        proof {
            if exact::<T>() {
                let chosen = choose|r: Self| r.is_difference(self, rhs);
                assert(out.is_difference(self, rhs));
                chosen.same_entries(out);
            }
        }
        out
    }
}

impl<T: Scalar, const M: usize, const N: usize> MulSpecImpl<T> for Matrix<T, M, N> {
    open spec fn obeys_mul_spec() -> bool {
        exact::<T>()
    }

    open spec fn mul_req(self, rhs: T) -> bool {
        total::<T>()
    }

    open spec fn mul_spec(self, rhs: T) -> Self {
        choose|r: Self| r.is_scaled(self, rhs)
    }
}

impl<T: Scalar, const M: usize, const N: usize> Mul<T> for Matrix<T, M, N> {
    type Output = Matrix<T, M, N>;

    /// Every entry multiplied by the scalar `rhs`, the scalar on the left.
    fn mul(self, rhs: T) -> (r: Self)
        ensures
            exact::<T>() ==> r.is_scaled(self, rhs),
    {
        let mut out = self;
        for n in 0..N
            invariant
                total::<T>(),
                forall|i: int, j: int|
                    0 <= i < M && 0 <= j < n && exact::<T>() ==> out.at(i, j) == rhs.mul_spec(self.at(i, j)),
        {
            for m in 0..M
                invariant
                    total::<T>(),
                    n < N,
                    forall|i: int, j: int|
                        0 <= i < M && 0 <= j < n && exact::<T>() ==> out.at(i, j) == rhs.mul_spec(self.at(i, j)),
                    forall|i: int|
                        0 <= i < m && exact::<T>() ==> out.at(i, n as int) == rhs.mul_spec(self.at(i, n as int)),
            {
                out.set(m, n, rhs * self.get(m, n));
            }
        }
        proof {
            if exact::<T>() {
                let chosen = choose|r: Self| r.is_scaled(self, rhs);
                assert(out.is_scaled(self, rhs));
                chosen.same_entries(out);
            }
        }
        out
    }
}

impl<T: Scalar, const M: usize, const N: usize> DivSpecImpl<T> for Matrix<T, M, N> {
    open spec fn obeys_div_spec() -> bool {
        exact::<T>()
    }

    open spec fn div_req(self, rhs: T) -> bool {
        total::<T>()
    }

    open spec fn div_spec(self, rhs: T) -> Self {
        choose|r: Self| r.is_quotient(self, rhs)
    }
}

impl<T: Scalar, const M: usize, const N: usize> Div<T> for Matrix<T, M, N> {
    type Output = Matrix<T, M, N>;

    /// Every entry divided by the scalar `rhs`.
    fn div(self, rhs: T) -> (r: Self)
        ensures
            exact::<T>() ==> r.is_quotient(self, rhs),
    {
        let mut out = self;
        for n in 0..N
            invariant
                total::<T>(),
                forall|i: int, j: int|
                    0 <= i < M && 0 <= j < n && exact::<T>() ==> out.at(i, j) == self.at(i, j).div_spec(rhs),
        {
            for m in 0..M
                invariant
                    total::<T>(),
                    n < N,
                    forall|i: int, j: int|
                        0 <= i < M && 0 <= j < n && exact::<T>() ==> out.at(i, j) == self.at(i, j).div_spec(rhs),
                    forall|i: int|
                        0 <= i < m && exact::<T>() ==> out.at(i, n as int) == self.at(i, n as int).div_spec(rhs),
            {
                out.set(m, n, self.get(m, n) / rhs);
            }
        }
        proof {
            if exact::<T>() {
                let chosen = choose|r: Self| r.is_quotient(self, rhs);
                assert(out.is_quotient(self, rhs));
                chosen.same_entries(out);
            }
        }
        out
    }
}

impl<T: Scalar, const M: usize, const N: usize> NegSpecImpl for Matrix<T, M, N> {
    open spec fn obeys_neg_spec() -> bool {
        exact::<T>()
    }

    open spec fn neg_req(self) -> bool {
        total::<T>()
    }

    open spec fn neg_spec(self) -> Self {
        choose|r: Self| r.is_negation(self)
    }
}

impl<T: Scalar, const M: usize, const N: usize> Neg for Matrix<T, M, N> {
    type Output = Matrix<T, M, N>;

    /// Every entry negated.
    fn neg(self) -> (r: Self)
        ensures
            exact::<T>() ==> r.is_negation(self),
    {
        let mut out = self;
        for n in 0..N
            invariant
                total::<T>(),
                forall|i: int, j: int|
                    0 <= i < M && 0 <= j < n && exact::<T>() ==> out.at(i, j) == self.at(
                        i,
                        j,
                    ).neg_spec(),
        {
            for m in 0..M
                invariant
                    total::<T>(),
                    n < N,
                    forall|i: int, j: int|
                        0 <= i < M && 0 <= j < n && exact::<T>() ==> out.at(i, j) == self.at(
                            i,
                            j,
                        ).neg_spec(),
                    forall|i: int|
                        0 <= i < m && exact::<T>() ==> out.at(i, n as int) == self.at(
                            i,
                            n as int,
                        ).neg_spec(),
            {
                out.set(m, n, self.get(m, n).neg());
            }
        }
        proof {
            if exact::<T>() {
                let chosen = choose|r: Self| r.is_negation(self);
                assert(out.is_negation(self));
                chosen.same_entries(out);
            }
        }
        out
    }
}

impl<T: Scalar, const M: usize, const N: usize> AddAssign for Matrix<T, M, N> {
    /// Adds `rhs` to the receiver, entry by entry.
    fn add_assign(&mut self, rhs: Self)
        requires
            total::<T>(),
        ensures
            exact::<T>() ==> final(self).is_sum(*old(self), rhs),
    {
        *self = *self + rhs;
    }
}

impl<T: Scalar, const M: usize, const N: usize> SubAssign for Matrix<T, M, N> {
    /// Subtracts `rhs` from the receiver, entry by entry.
    fn sub_assign(&mut self, rhs: Self)
        requires
            total::<T>(),
        ensures
            exact::<T>() ==> final(self).is_difference(*old(self), rhs),
    {
        *self = *self - rhs;
    }
}

impl<T: Scalar, const M: usize, const N: usize> MulAssign<T> for Matrix<T, M, N> {
    /// Multiplies every entry of the receiver by `rhs`.
    fn mul_assign(&mut self, rhs: T)
        requires
            total::<T>(),
        ensures
            exact::<T>() ==> final(self).is_scaled(*old(self), rhs),
    {
        *self = *self * rhs;
    }
}

impl<T: Scalar, const M: usize, const N: usize> DivAssign<T> for Matrix<T, M, N> {
    /// Divides every entry of the receiver by `rhs`.
    fn div_assign(&mut self, rhs: T)
        requires
            total::<T>(),
        ensures
            exact::<T>() ==> final(self).is_quotient(*old(self), rhs),
    {
        *self = *self / rhs;
    }
}

} // verus!
