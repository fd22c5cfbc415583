//! Scalings in three dimensions.
use crate::matrix::Matrix;
use crate::scalar::{embeds, exact, one, total, Scalar};
use crate::scale::{
    from_homogeneous_matrix, is_diagonal_of, is_scaling, scale_round_trip, scale_vector,
    to_homogeneous_matrix,
};
use crate::vector::vec3::Vec3;
use crate::vector::{product_of, scaled};
use core::ops::{Deref, Mul, MulAssign};
use vstd::prelude::*;
use vstd::std_specs::convert::FromSpecImpl;
use vstd::std_specs::ops::MulSpec;

verus! {

/// A scaling by one factor for each of three axes.
#[derive(Clone, Copy, Debug)]
pub struct Scale3<T> {
    vector: Vec3<T>,
}

impl<T> Scale3<T> {
    /// The scale factors, one for each axis.
    pub closed spec fn factors(self) -> Vec3<T> {
        self.vector
    }

    /// The scaling by the components of `vector`.
    pub closed spec fn wrap(vector: Vec3<T>) -> Self {
        Scale3 { vector }
    }
}

impl<T: Scalar> Scale3<T> {
    /// The scaling by the given factors.
    pub fn new(x: T, y: T, z: T) -> (r: Self)
        ensures
            r.factors().components() == seq![x, y, z],
    {
        Scale3 { vector: Vec3::new(x, y, z) }
    }

    /// The homogeneous matrix: the identity with the factors on the
    /// diagonal.
    pub fn homogeneous_matrix(&self) -> (r: Matrix<T, 4, 4>)
        ensures
            is_diagonal_of(self.factors().vector(), r),
            embeds::<T>() ==> is_scaling(r, self.factors().vector()),
    {
        to_homogeneous_matrix(self.vector.into())
    }

    /// The vector scaled factor by factor.
    pub fn scale(&self, vector: Vec3<T>) -> (r: Vec3<T>)
        requires
            total::<T>(),
        ensures
            exact::<T>() ==> r.components() == product_of(
                vector.components(),
                self.factors().components(),
            ),
    {
        Vec3::from(scale_vector(vector.into(), self.vector.into()))
    }
}

impl<T: Scalar> Default for Scale3<T> {
    /// The scaling that leaves every vector as it is.
    fn default() -> (r: Self)
        ensures
            embeds::<T>() ==> r.factors().components() == seq![one::<T>(), one::<T>(), one::<T>()],
    {
        Scale3 { vector: Vec3::ones() }
    }
}

impl<T: Scalar> FromSpecImpl<Vec3<T>> for Scale3<T> {
    open spec fn obeys_from_spec() -> bool {
        true
    }

    open spec fn from_spec(vector: Vec3<T>) -> Self {
        Self::wrap(vector)
    }
}

impl<T: Scalar> From<Vec3<T>> for Scale3<T> {
    /// The scaling by the components of `vector`.
    fn from(vector: Vec3<T>) -> (r: Self)
        ensures
            r.factors() == vector,
    {
        Scale3 { vector }
    }
}

impl<T: Scalar> FromSpecImpl<[T; 3]> for Scale3<T> {
    open spec fn obeys_from_spec() -> bool {
        true
    }

    open spec fn from_spec(array: [T; 3]) -> Self {
        Self::wrap(Vec3::wrap(Matrix::of_columns([array])))
    }
}

impl<T: Scalar> From<[T; 3]> for Scale3<T> {
    /// The scaling by the entries of `array`.
    fn from(array: [T; 3]) -> (r: Self)
        ensures
            r.factors().components() == array@,
    {
        Scale3 { vector: Vec3::from(array) }
    }
}

impl<T: Scalar> FromSpecImpl<Matrix<T, 3, 1>> for Scale3<T> {
    open spec fn obeys_from_spec() -> bool {
        true
    }

    open spec fn from_spec(vector: Matrix<T, 3, 1>) -> Self {
        Self::wrap(Vec3::wrap(vector))
    }
}

impl<T: Scalar> From<Matrix<T, 3, 1>> for Scale3<T> {
    /// The scaling by the components of `vector`.
    fn from(vector: Matrix<T, 3, 1>) -> (r: Self)
        ensures
            r.factors().vector() == vector,
    {
        Scale3 { vector: Vec3::from(vector) }
    }
}

impl<T: Scalar> FromSpecImpl<Matrix<T, 4, 4>> for Scale3<T> {
    open spec fn obeys_from_spec() -> bool {
        true
    }

    open spec fn from_spec(matrix: Matrix<T, 4, 4>) -> Self {
        Self::wrap(Vec3::wrap(choose|factors: Matrix<T, 3, 1>| is_diagonal_of(factors, matrix)))
    }
}

impl<T: Scalar> From<Matrix<T, 4, 4>> for Scale3<T> {
    /// The scaling that `matrix` holds on its diagonal.
    fn from(matrix: Matrix<T, 4, 4>) -> (r: Self)
        ensures
            is_diagonal_of(r.factors().vector(), matrix),
    {
        let factors = from_homogeneous_matrix::<T, 3, 4>(&matrix);
        proof {
            let chosen = choose|factors: Matrix<T, 3, 1>| is_diagonal_of(factors, matrix);
            scale_round_trip(factors, matrix, chosen);
        }
        Scale3 { vector: Vec3::from(factors) }
    }
}

impl<T> Deref for Scale3<T> {
    type Target = Vec3<T>;

    /// The factors, for reading them by name.
    fn deref(&self) -> (r: &Vec3<T>)
        ensures
            *r == self.factors(),
    {
        &self.vector
    }
}

impl<T: Scalar> vstd::std_specs::ops::MulSpecImpl<Vec3<T>> for Scale3<T> {
    open spec fn obeys_mul_spec() -> bool {
        exact::<T>()
    }

    open spec fn mul_req(self, rhs: Vec3<T>) -> bool {
        total::<T>()
    }

    open spec fn mul_spec(self, rhs: Vec3<T>) -> Vec3<T> {
        Vec3::of(rhs.components()[0].mul_spec(self.factors().components()[0]), rhs.components()[1].mul_spec(self.factors().components()[1]), rhs.components()[2].mul_spec(self.factors().components()[2]))
    }
}

impl<T: Scalar> Mul<Vec3<T>> for Scale3<T> {
    type Output = Vec3<T>;

    /// The vector `rhs` scaled factor by factor.
    fn mul(self, rhs: Vec3<T>) -> (r: Vec3<T>)
        ensures
            exact::<T>() ==> r.components() == product_of(
                rhs.components(),
                self.factors().components(),
            ),
    {
        let r = self.scale(rhs);
        proof {
            if exact::<T>() {
                rhs.arity();
                Vec3::of_components(rhs.components()[0].mul_spec(self.factors().components()[0]), rhs.components()[1].mul_spec(self.factors().components()[1]), rhs.components()[2].mul_spec(self.factors().components()[2]));
                assert(r.components() =~= Vec3::of(rhs.components()[0].mul_spec(self.factors().components()[0]), rhs.components()[1].mul_spec(self.factors().components()[1]), rhs.components()[2].mul_spec(self.factors().components()[2])).components());
                r.same_components(Vec3::of(rhs.components()[0].mul_spec(self.factors().components()[0]), rhs.components()[1].mul_spec(self.factors().components()[1]), rhs.components()[2].mul_spec(self.factors().components()[2])));
            }
        }
        r
    }
}

impl<T: Scalar> vstd::std_specs::ops::MulSpecImpl<T> for Scale3<T> {
    open spec fn obeys_mul_spec() -> bool {
        exact::<T>()
    }

    open spec fn mul_req(self, rhs: T) -> bool {
        total::<T>()
    }

    open spec fn mul_spec(self, rhs: T) -> Self {
        Self::wrap(MulSpec::mul_spec(self.factors(), rhs))
    }
}

impl<T: Scalar> Mul<T> for Scale3<T> {
    type Output = Scale3<T>;

    /// The scaling with every factor multiplied by `rhs`.
    fn mul(self, rhs: T) -> (r: Self)
        ensures
            exact::<T>() ==> r.factors().components() == scaled(self.factors().components(), rhs),
    {
        Scale3 { vector: self.vector * rhs }
    }
}

impl<T: Scalar> MulAssign<T> for Scale3<T> {
    /// Multiplies every factor by `rhs`.
    fn mul_assign(&mut self, rhs: T)
        requires
            total::<T>(),
        ensures
            exact::<T>() ==> final(self).factors().components() == scaled(
                old(self).factors().components(),
                rhs,
            ),
    {
        *self = *self * rhs;
    }
}

} // verus!
