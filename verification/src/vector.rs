//! Vectors: matrices of a single column.
use crate::elementary::{is_epsilon, is_sqrt, Elementary};
use crate::matrix::product::inner;
use crate::matrix::Matrix;
use crate::scalar::{abs, absolute, at_most, exact, less_or_equal, number, total, zero, Scalar};
use core::ops::{Index, IndexMut};
use vstd::prelude::*;
use vstd::std_specs::convert::FromSpecImpl;
use vstd::std_specs::ops::{AddSpec, DivSpec, MulSpec, NegSpec, SubSpec};

pub mod vec2;
pub mod vec3;
pub mod vec4;

verus! {

/// A vector of `M` components.
pub type Vector<T, const M: usize> = Matrix<T, M, 1>;

/// The inner product of two vectors given by their components.
pub open spec fn dot_of<T: Scalar>(a: Seq<T>, b: Seq<T>) -> T {
    inner(a, b, a.len())
}

/// The component-wise sum of two vectors.
pub open spec fn sum_of<T: Scalar>(a: Seq<T>, b: Seq<T>) -> Seq<T> {
    Seq::new(a.len(), |i: int| a[i].add_spec(b[i]))
}

/// The component-wise difference of two vectors.
pub open spec fn difference_of<T: Scalar>(a: Seq<T>, b: Seq<T>) -> Seq<T> {
    Seq::new(a.len(), |i: int| a[i].sub_spec(b[i]))
}

/// The vector with every component negated.
pub open spec fn negation_of<T: Scalar>(a: Seq<T>) -> Seq<T> {
    Seq::new(a.len(), |i: int| a[i].neg_spec())
}

/// The vector with every component multiplied by `factor`, the factor on
/// the left.
pub open spec fn scaled<T: Scalar>(a: Seq<T>, factor: T) -> Seq<T> {
    Seq::new(a.len(), |i: int| factor.mul_spec(a[i]))
}

/// The vector with every component divided by `divisor`.
pub open spec fn quotient_of<T: Scalar>(a: Seq<T>, divisor: T) -> Seq<T> {
    Seq::new(a.len(), |i: int| a[i].div_spec(divisor))
}

/// The component-wise product of two vectors.
pub open spec fn product_of<T: Scalar>(a: Seq<T>, b: Seq<T>) -> Seq<T> {
    Seq::new(a.len(), |i: int| a[i].mul_spec(b[i]))
}

/// The 2D perp-dot product `x₁y₂ − y₁x₂`.
pub open spec fn cross2<T: Scalar>(a: Seq<T>, b: Seq<T>) -> T {
    a[0].mul_spec(b[1]).sub_spec(a[1].mul_spec(b[0]))
}

/// The components of the 3D cross product.
pub open spec fn cross3<T: Scalar>(a: Seq<T>, b: Seq<T>) -> Seq<T> {
    seq![
        a[1].mul_spec(b[2]).sub_spec(a[2].mul_spec(b[1])),
        a[2].mul_spec(b[0]).sub_spec(a[0].mul_spec(b[2])),
        a[0].mul_spec(b[1]).sub_spec(a[1].mul_spec(b[0])),
    ]
}

impl<T, const M: usize> Matrix<T, M, 1> {
    /// The components, first to last.
    pub open spec fn components(self) -> Seq<T> {
        self.columns()[0]
    }

    /// Component `i`.
    pub open spec fn nth(self, i: int) -> T {
        self.at(i, 0)
    }
}

impl<T: Copy, const M: usize> vstd::std_specs::core::IndexSpecImpl<usize> for Matrix<T, M, 1> {
    open spec fn index_req(&self, index: &usize) -> bool {
        *index < M
    }
}

impl<T: Copy, const M: usize> Index<usize> for Matrix<T, M, 1> {
    type Output = T;

    /// Component `index`.
    fn index(&self, index: usize) -> (r: &T)
        ensures
            *r == self.nth(index as int),
    {
        &self[(index, 0)]
    }
}

impl<T: Copy, const M: usize> IndexMut<usize> for Matrix<T, M, 1> {
    /// Component `index`, for writing.
    fn index_mut(&mut self, index: usize) -> (r: &mut T)
        requires
            index < M,
        ensures
            *r == old(self).nth(index as int),
            final(self).columns() == old(self).columns().update(
                0,
                old(self).columns()[0].update(index as int, *final(r)),
            ),
    {
        self.index_mut((index, 0))
    }
}

impl<T: Copy, const M: usize> FromSpecImpl<[T; M]> for Matrix<T, M, 1> {
    open spec fn obeys_from_spec() -> bool {
        true
    }

    open spec fn from_spec(array: [T; M]) -> Self {
        Self::of_columns([array])
    }
}

impl<T: Copy, const M: usize> From<[T; M]> for Matrix<T, M, 1> {
    /// The vector with the components of `array`.
    fn from(array: [T; M]) -> (r: Self)
        ensures
            r.components() == array@,
    {
        let columns = [array];
        let r = Matrix::from(columns);
        proof {
            r.shape();
            assert(columns@[0] == array);
            assert forall|i: int| 0 <= i < M implies r.components()[i] == array@[i] by {
                assert(r.at(i, 0) == columns@[0]@[i]);
            }
            assert(r.components() =~= array@);
        }
        r
    }
}

impl<T: Copy, const M: usize> FromSpecImpl<Matrix<T, M, 1>> for [T; M] {
    open spec fn obeys_from_spec() -> bool {
        true
    }

    open spec fn from_spec(value: Matrix<T, M, 1>) -> Self {
        choose|array: [T; M]| array@ == value.components()
    }
}

impl<T: Copy, const M: usize> From<Matrix<T, M, 1>> for [T; M] {
    /// The components of `value` as an array.
    fn from(value: Matrix<T, M, 1>) -> (r: Self)
        ensures
            r@ == value.components(),
    {
        let r = value.column(0);
        proof {
            let chosen = choose|array: [T; M]| array@ == value.components();
            assert(chosen@ == r@);
            assert(chosen =~= r);
        }
        r
    }
}

impl<T: Scalar, const M: usize> Matrix<T, M, 1> {
    /// `self` is `a` normalised by the magnitude `magnitude`: the zero
    /// vector where the magnitude is at most `epsilon`, else `a` divided by
    /// it.
    pub open spec fn is_normalized(self, a: Self, magnitude: T, epsilon: T) -> bool {
        if at_most(absolute(magnitude), epsilon) {
            forall|i: int| 0 <= i < M ==> self.nth(i) == zero::<T>()
        } else {
            self.is_quotient(a, magnitude)
        }
    }

    /// `self` is a result of normalising `a` with the square root and the
    /// machine epsilon of `env`.
    pub open spec fn is_direction_of<E: Elementary<T>>(self, a: Self, env: &E) -> bool {
        exists|magnitude: T, epsilon: T|
            {
                &&& is_sqrt(env, dot_of(a.components(), a.components()), magnitude)
                &&& is_epsilon(env, epsilon)
                &&& self.is_normalized(a, magnitude, epsilon)
            }
    }

    /// The inner product: the sum of the products of the components.
    pub fn dot(&self, other: &Self) -> (r: T)
        requires
            total::<T>(),
        ensures
            exact::<T>() ==> r == dot_of(self.components(), other.components()),
    {
        let mut acc: T = number(0);
        proof {
            self.shape();
        }
        for m in 0..M
            invariant
                total::<T>(),
                self.components().len() == M,
                exact::<T>() ==> acc == inner(self.components(), other.components(), m as nat),
        {
            acc = acc + self.get(m, 0) * other.get(m, 0);
        }
        acc
    }

    /// The length: the square root of the inner product with itself.
    pub fn magnitude<E: Elementary<T>>(&self, env: &E) -> (r: T)
        requires
            total::<T>(),
        ensures
            exact::<T>() ==> is_sqrt(env, dot_of(self.components(), self.components()), r),
    {
        env.sqrt(self.dot(self))
    }

    /// The vector divided by `magnitude`, or the zero vector where the
    /// magnitude is at most `epsilon`.
    pub fn normalize_with(&self, magnitude: T, epsilon: T) -> (r: Self)
        requires
            total::<T>(),
        ensures
            exact::<T>() ==> r.is_normalized(*self, magnitude, epsilon),
    {
        if less_or_equal(abs(magnitude), epsilon) {
            Self::zeros()
        } else {
            *self / magnitude
        }
    }

    /// The vector of length one in the direction of `self`, or the zero
    /// vector where the length of `self` is at most machine epsilon.
    pub fn normalize<E: Elementary<T>>(&self, env: &E) -> (r: Self)
        requires
            total::<T>(),
        ensures
            exact::<T>() ==> r.is_direction_of(*self, env),
    {
        let magnitude = self.magnitude(env);
        let epsilon = env.epsilon();
        let r = self.normalize_with(magnitude, epsilon);
        assert(exact::<T>() ==> is_sqrt(
            env,
            dot_of(self.components(), self.components()),
            magnitude,
        ) && is_epsilon(env, epsilon) && r.is_normalized(*self, magnitude, epsilon));
        r
    }
}

impl<T: Scalar> Matrix<T, 2, 1> {
    /// The 2D perp-dot product `x₁y₂ − y₁x₂`.
    pub fn cross(&self, other: &Self) -> (r: T)
        requires
            total::<T>(),
        ensures
            exact::<T>() ==> r == cross2(self.components(), other.components()),
    {
        self.get(0, 0) * other.get(1, 0) - self.get(1, 0) * other.get(0, 0)
    }
}

impl<T: Scalar> Matrix<T, 3, 1> {
    /// The 3D cross product.
    pub fn cross(&self, other: &Self) -> (r: Self)
        requires
            total::<T>(),
        ensures
            exact::<T>() ==> r.components() == cross3(self.components(), other.components()),
    {
        let r = Matrix::from(
            [
                self.get(1, 0) * other.get(2, 0) - self.get(2, 0) * other.get(1, 0),
                self.get(2, 0) * other.get(0, 0) - self.get(0, 0) * other.get(2, 0),
                self.get(0, 0) * other.get(1, 0) - self.get(1, 0) * other.get(0, 0),
            ],
        );
        proof {
            if exact::<T>() {
                assert(r.components() =~= cross3(self.components(), other.components()));
            }
        }
        r
    }
}

} // verus!
