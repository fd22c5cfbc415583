//! Translations in two dimensions.
use crate::matrix::Matrix;
use crate::scalar::{embeds, exact, total, zero, Scalar};
use crate::translation::{
    from_homogeneous_matrix, is_offset_of, is_translation, to_homogeneous_matrix,
    translation_round_trip,
};
use crate::vector::vec2::Vec2;
use crate::vector::{difference_of, sum_of};
use core::ops::{AddAssign, Deref, Mul, SubAssign};
use vstd::prelude::*;
use vstd::std_specs::convert::FromSpecImpl;
use vstd::std_specs::ops::AddSpec;

verus! {

/// A translation by an offset of two components.
#[derive(Clone, Copy, Debug)]
pub struct Translation2<T> {
    vector: Vec2<T>,
}

impl<T> Translation2<T> {
    /// The offset by which the translation moves a point.
    pub closed spec fn offset(self) -> Vec2<T> {
        self.vector
    }

    /// The translation by `vector`.
    pub closed spec fn wrap(vector: Vec2<T>) -> Self {
        Translation2 { vector }
    }
}

impl<T: Scalar> Translation2<T> {
    /// The translation by the given offset.
    pub fn new(x: T, y: T) -> (r: Self)
        ensures
            r.offset().components() == seq![x, y],
    {
        Translation2 { vector: Vec2::new(x, y) }
    }

    /// The homogeneous matrix: the identity with the offset in the last
    /// column.
    pub fn homogeneous_matrix(&self) -> (r: Matrix<T, 3, 3>)
        ensures
            is_offset_of(self.offset().vector(), r),
            embeds::<T>() ==> is_translation(r, self.offset().vector()),
    {
        to_homogeneous_matrix(self.vector.into())
    }

    /// The point `vector` moved by the offset.
    pub fn translate(&self, vector: &Vec2<T>) -> (r: Vec2<T>)
        requires
            total::<T>(),
        ensures
            exact::<T>() ==> r == AddSpec::add_spec(*vector, self.offset()),
            exact::<T>() ==> r.components() == sum_of(
                vector.components(),
                self.offset().components(),
            ),
    {
        *vector + self.vector
    }
}

impl<T: Scalar> Default for Translation2<T> {
    /// The translation that moves nothing.
    fn default() -> (r: Self)
        ensures
            embeds::<T>() ==> r.offset().components() == seq![zero::<T>(), zero::<T>()],
    {
        Translation2 { vector: Vec2::zeros() }
    }
}

impl<T: Scalar> FromSpecImpl<Vec2<T>> for Translation2<T> {
    open spec fn obeys_from_spec() -> bool {
        true
    }

    open spec fn from_spec(vector: Vec2<T>) -> Self {
        Self::wrap(vector)
    }
}

impl<T: Scalar> From<Vec2<T>> for Translation2<T> {
    /// The translation by `vector`.
    fn from(vector: Vec2<T>) -> (r: Self)
        ensures
            r.offset() == vector,
    {
        Translation2 { vector }
    }
}

impl<T: Scalar> FromSpecImpl<Translation2<T>> for Vec2<T> {
    open spec fn obeys_from_spec() -> bool {
        true
    }

    open spec fn from_spec(translation: Translation2<T>) -> Self {
        translation.offset()
    }
}

impl<T: Scalar> From<Translation2<T>> for Vec2<T> {
    /// The offset of `translation`.
    fn from(translation: Translation2<T>) -> (r: Self) {
        translation.vector
    }
}

impl<T: Scalar> FromSpecImpl<[T; 2]> for Translation2<T> {
    open spec fn obeys_from_spec() -> bool {
        true
    }

    open spec fn from_spec(array: [T; 2]) -> Self {
        Self::wrap(Vec2::wrap(Matrix::of_columns([array])))
    }
}

impl<T: Scalar> From<[T; 2]> for Translation2<T> {
    /// The translation by the entries of `array`.
    fn from(array: [T; 2]) -> (r: Self)
        ensures
            r.offset().components() == array@,
    {
        Translation2 { vector: Vec2::from(array) }
    }
}

impl<T: Scalar> FromSpecImpl<Matrix<T, 2, 1>> for Translation2<T> {
    open spec fn obeys_from_spec() -> bool {
        true
    }

    open spec fn from_spec(vector: Matrix<T, 2, 1>) -> Self {
        Self::wrap(Vec2::wrap(vector))
    }
}

impl<T: Scalar> From<Matrix<T, 2, 1>> for Translation2<T> {
    /// The translation by `vector`.
    fn from(vector: Matrix<T, 2, 1>) -> (r: Self)
        ensures
            r.offset().vector() == vector,
    {
        Translation2 { vector: Vec2::from(vector) }
    }
}

impl<T: Scalar> FromSpecImpl<Matrix<T, 3, 3>> for Translation2<T> {
    open spec fn obeys_from_spec() -> bool {
        true
    }

    open spec fn from_spec(matrix: Matrix<T, 3, 3>) -> Self {
        Self::wrap(Vec2::wrap(choose|offset: Matrix<T, 2, 1>| is_offset_of(offset, matrix)))
    }
}

impl<T: Scalar> From<Matrix<T, 3, 3>> for Translation2<T> {
    /// The translation that `matrix` holds in its last column.
    fn from(matrix: Matrix<T, 3, 3>) -> (r: Self)
        ensures
            is_offset_of(r.offset().vector(), matrix),
    {
        let offset = from_homogeneous_matrix::<T, 2, 3>(&matrix);
        proof {
            let chosen = choose|offset: Matrix<T, 2, 1>| is_offset_of(offset, matrix);
            translation_round_trip(offset, matrix, chosen);
        }
        Translation2 { vector: Vec2::from(offset) }
    }
}

impl<T> Deref for Translation2<T> {
    type Target = Vec2<T>;

    /// The offset, for reading it by name.
    fn deref(&self) -> (r: &Vec2<T>)
        ensures
            *r == self.offset(),
    {
        &self.vector
    }
}

impl<T: Scalar> vstd::std_specs::ops::MulSpecImpl<Vec2<T>> for Translation2<T> {
    open spec fn obeys_mul_spec() -> bool {
        exact::<T>()
    }

    open spec fn mul_req(self, rhs: Vec2<T>) -> bool {
        total::<T>()
    }

    open spec fn mul_spec(self, rhs: Vec2<T>) -> Vec2<T> {
        AddSpec::add_spec(rhs, self.offset())
    }
}

impl<T: Scalar> Mul<Vec2<T>> for Translation2<T> {
    type Output = Vec2<T>;

    /// The point `rhs` moved by the offset.
    fn mul(self, rhs: Vec2<T>) -> (r: Vec2<T>)
        ensures
            exact::<T>() ==> r.components() == sum_of(
                rhs.components(),
                self.offset().components(),
            ),
    {
        self.translate(&rhs)
    }
}

impl<T: Scalar> AddAssign<Vec2<T>> for Translation2<T> {
    /// Adds `rhs` to the offset.
    fn add_assign(&mut self, rhs: Vec2<T>)
        requires
            total::<T>(),
        ensures
            exact::<T>() ==> final(self).offset().components() == sum_of(
                old(self).offset().components(),
                rhs.components(),
            ),
    {
        self.vector = self.vector + rhs;
    }
}

impl<T: Scalar> SubAssign<Vec2<T>> for Translation2<T> {
    /// Subtracts `rhs` from the offset.
    fn sub_assign(&mut self, rhs: Vec2<T>)
        requires
            total::<T>(),
        ensures
            exact::<T>() ==> final(self).offset().components() == difference_of(
                old(self).offset().components(),
                rhs.components(),
            ),
    {
        self.vector = self.vector - rhs;
    }
}

} // verus!
