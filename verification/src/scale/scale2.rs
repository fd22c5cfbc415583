//! Scalings in two dimensions.
use crate::matrix::Matrix;
use crate::scalar::{embeds, exact, one, total, Scalar};
use crate::scale::{
    from_homogeneous_matrix, is_diagonal_of, is_scaling, scale_round_trip, scale_vector,
    to_homogeneous_matrix,
};
use crate::vector::vec2::Vec2;
use crate::vector::{product_of, scaled};
use core::ops::{Deref, Mul, MulAssign};
use vstd::prelude::*;
use vstd::std_specs::convert::FromSpecImpl;
use vstd::std_specs::ops::MulSpec;

verus! {

/// A scaling by one factor for each of two axes.
#[derive(Clone, Copy, Debug)]
pub struct Scale2<T> {
    vector: Vec2<T>,
}

impl<T> Scale2<T> {
    /// The scale factors, one for each axis.
    pub closed spec fn factors(self) -> Vec2<T> {
        self.vector
    }

    /// The scaling by the components of `vector`.
    pub closed spec fn wrap(vector: Vec2<T>) -> Self {
        Scale2 { vector }
    }
}

impl<T: Scalar> Scale2<T> {
    /// The scaling by the given factors.
    pub fn new(x: T, y: T) -> (r: Self)
        ensures
            r.factors().components() == seq![x, y],
    {
        Scale2 { vector: Vec2::new(x, y) }
    }

    /// The homogeneous matrix: the identity with the factors on the
    /// diagonal.
    pub fn homogeneous_matrix(&self) -> (r: Matrix<T, 3, 3>)
        ensures
            is_diagonal_of(self.factors().vector(), r),
            embeds::<T>() ==> is_scaling(r, self.factors().vector()),
    {
        to_homogeneous_matrix(self.vector.into())
    }

    /// The vector scaled factor by factor.
    pub fn scale(&self, vector: Vec2<T>) -> (r: Vec2<T>)
        requires
            total::<T>(),
        ensures
            exact::<T>() ==> r.components() == product_of(
                vector.components(),
                self.factors().components(),
            ),
    {
        Vec2::from(scale_vector(vector.into(), self.vector.into()))
    }
}

impl<T: Scalar> Default for Scale2<T> {
    /// The scaling that leaves every vector as it is.
    fn default() -> (r: Self)
        ensures
            embeds::<T>() ==> r.factors().components() == seq![one::<T>(), one::<T>()],
    {
        Scale2 { vector: Vec2::ones() }
    }
}

impl<T: Scalar> FromSpecImpl<Vec2<T>> for Scale2<T> {
    open spec fn obeys_from_spec() -> bool {
        true
    }

    open spec fn from_spec(vector: Vec2<T>) -> Self {
        Self::wrap(vector)
    }
}

impl<T: Scalar> From<Vec2<T>> for Scale2<T> {
    /// The scaling by the components of `vector`.
    fn from(vector: Vec2<T>) -> (r: Self)
        ensures
            r.factors() == vector,
    {
        Scale2 { vector }
    }
}

impl<T: Scalar> FromSpecImpl<[T; 2]> for Scale2<T> {
    open spec fn obeys_from_spec() -> bool {
        true
    }

    open spec fn from_spec(array: [T; 2]) -> Self {
        Self::wrap(Vec2::wrap(Matrix::of_columns([array])))
    }
}

impl<T: Scalar> From<[T; 2]> for Scale2<T> {
    /// The scaling by the entries of `array`.
    fn from(array: [T; 2]) -> (r: Self)
        ensures
            r.factors().components() == array@,
    {
        Scale2 { vector: Vec2::from(array) }
    }
}

impl<T: Scalar> FromSpecImpl<Matrix<T, 2, 1>> for Scale2<T> {
    open spec fn obeys_from_spec() -> bool {
        true
    }

    open spec fn from_spec(vector: Matrix<T, 2, 1>) -> Self {
        Self::wrap(Vec2::wrap(vector))
    }
}

impl<T: Scalar> From<Matrix<T, 2, 1>> for Scale2<T> {
    /// The scaling by the components of `vector`.
    fn from(vector: Matrix<T, 2, 1>) -> (r: Self)
        ensures
            r.factors().vector() == vector,
    {
        Scale2 { vector: Vec2::from(vector) }
    }
}

impl<T: Scalar> FromSpecImpl<Matrix<T, 3, 3>> for Scale2<T> {
    open spec fn obeys_from_spec() -> bool {
        true
    }

    open spec fn from_spec(matrix: Matrix<T, 3, 3>) -> Self {
        Self::wrap(Vec2::wrap(choose|factors: Matrix<T, 2, 1>| is_diagonal_of(factors, matrix)))
    }
}

impl<T: Scalar> From<Matrix<T, 3, 3>> for Scale2<T> {
    /// The scaling that `matrix` holds on its diagonal.
    fn from(matrix: Matrix<T, 3, 3>) -> (r: Self)
        ensures
            is_diagonal_of(r.factors().vector(), matrix),
    {
        let factors = from_homogeneous_matrix::<T, 2, 3>(&matrix);
        proof {
            let chosen = choose|factors: Matrix<T, 2, 1>| is_diagonal_of(factors, matrix);
            scale_round_trip(factors, matrix, chosen);
        }
        Scale2 { vector: Vec2::from(factors) }
    }
}

impl<T> Deref for Scale2<T> {
    type Target = Vec2<T>;

    /// The factors, for reading them by name.
    fn deref(&self) -> (r: &Vec2<T>)
        ensures
            *r == self.factors(),
    {
        &self.vector
    }
}

impl<T: Scalar> vstd::std_specs::ops::MulSpecImpl<Vec2<T>> for Scale2<T> {
    open spec fn obeys_mul_spec() -> bool {
        exact::<T>()
    }

    open spec fn mul_req(self, rhs: Vec2<T>) -> bool {
        total::<T>()
    }

    open spec fn mul_spec(self, rhs: Vec2<T>) -> Vec2<T> {
        Vec2::of(rhs.components()[0].mul_spec(self.factors().components()[0]), rhs.components()[1].mul_spec(self.factors().components()[1]))
    }
}

impl<T: Scalar> Mul<Vec2<T>> for Scale2<T> {
    type Output = Vec2<T>;

    /// The vector `rhs` scaled factor by factor.
    fn mul(self, rhs: Vec2<T>) -> (r: Vec2<T>)
        ensures
            exact::<T>() ==> r.components() == product_of(
                rhs.components(),
                self.factors().components(),
            ),
    {
        let r = self.scale(rhs);
        proof {
            if exact::<T>() {
                rhs.arity();
                Vec2::of_components(rhs.components()[0].mul_spec(self.factors().components()[0]), rhs.components()[1].mul_spec(self.factors().components()[1]));
                assert(r.components() =~= Vec2::of(rhs.components()[0].mul_spec(self.factors().components()[0]), rhs.components()[1].mul_spec(self.factors().components()[1])).components());
                r.same_components(Vec2::of(rhs.components()[0].mul_spec(self.factors().components()[0]), rhs.components()[1].mul_spec(self.factors().components()[1])));
            }
        }
        r
    }
}

impl<T: Scalar> vstd::std_specs::ops::MulSpecImpl<T> for Scale2<T> {
    open spec fn obeys_mul_spec() -> bool {
        exact::<T>()
    }

    open spec fn mul_req(self, rhs: T) -> bool {
        total::<T>()
    }

    open spec fn mul_spec(self, rhs: T) -> Self {
        Self::wrap(MulSpec::mul_spec(self.factors(), rhs))
    }
}

impl<T: Scalar> Mul<T> for Scale2<T> {
    type Output = Scale2<T>;

    /// The scaling with every factor multiplied by `rhs`.
    fn mul(self, rhs: T) -> (r: Self)
        ensures
            exact::<T>() ==> r.factors().components() == scaled(self.factors().components(), rhs),
    {
        Scale2 { vector: self.vector * rhs }
    }
}

impl<T: Scalar> MulAssign<T> for Scale2<T> {
    /// Multiplies every factor by `rhs`.
    fn mul_assign(&mut self, rhs: T)
        requires
            total::<T>(),
        ensures
            exact::<T>() ==> final(self).factors().components() == scaled(
                old(self).factors().components(),
                rhs,
            ),
    {
        *self = *self * rhs;
    }
}

} // verus!
