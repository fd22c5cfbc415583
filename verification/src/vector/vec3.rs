//! Three-component vectors with named components.
use crate::elementary::{is_sqrt, Elementary};
use crate::matrix::Matrix;
use crate::scalar::{embeds, exact, one, total, zero, Scalar};
use crate::vector::{
    cross3, difference_of, dot_of, negation_of, quotient_of, scaled, sum_of, vec2::Vec2, vec4::Vec4,
    Vector,
};
use core::ops::{Add, AddAssign, Div, DivAssign, Mul, MulAssign, Neg, Sub, SubAssign};
use vstd::prelude::*;
use vstd::std_specs::convert::FromSpecImpl;
use vstd::std_specs::ops::{AddSpec, DivSpec, MulSpec, NegSpec, SubSpec};

verus! {

/// The components of a [`Vec3`] under their names.
#[derive(Clone, Copy, Debug)]
pub struct Vector3<T> {
    pub x: T,
    pub y: T,
    pub z: T,
}

/// A vector of three components, `x`, `y`, `z`.
#[derive(Clone, Copy, Debug)]
pub struct Vec3<T> {
    vector: Vector<T, 3>,
}

impl<T> Vec3<T> {
    /// The vector as a one-column matrix.
    pub closed spec fn vector(self) -> Vector<T, 3> {
        self.vector
    }

    /// The `Vec3` that holds `vector`.
    pub closed spec fn wrap(vector: Vector<T, 3>) -> Self {
        Vec3 { vector }
    }

    /// The components, `x` first.
    pub open spec fn components(self) -> Seq<T> {
        self.vector().components()
    }

    /// The vector with the given components.
    pub open spec fn of(x: T, y: T, z: T) -> Self {
        Self::wrap(Matrix::of_columns([[x, y, z]]))
    }

    /// The components of `of(..)` are its arguments.
    pub proof fn of_components(x: T, y: T, z: T)
        ensures
            Self::of(x, y, z).components() == seq![x, y, z],
    {
        let data = [[x, y, z]];
        let vector = Matrix::<T, 3, 1>::of_columns(data);
        Matrix::<T, 3, 1>::of_columns_entries(data);
        vector.shape();
        assert forall|i: int| 0 <= i < 3 implies vector.components()[i] == seq![x, y, z][i] by {
            assert(vector.at(i, 0) == data@[0]@[i]);
        }
        assert(vector.components() =~= seq![x, y, z]);
    }

    /// Two vectors with the same components are the same vector.
    pub proof fn same_components(self, other: Self)
        requires
            self.components() == other.components(),
        ensures
            self == other,
    {
        assert forall|m: int, n: int| 0 <= m < 3 && 0 <= n < 1 implies self.vector.at(m, n)
            == other.vector.at(m, n) by {
            assert(self.components()[m] == other.components()[m]);
        }
        self.vector.same_entries(other.vector);
    }

    /// A vector has three components.
    pub proof fn arity(self)
        ensures
            self.components().len() == 3,
    {
        self.vector.shape();
    }
}

impl<T: Copy> Vec3<T> {
    /// The vector with the given components.
    pub fn new(x: T, y: T, z: T) -> (r: Self)
        ensures
            r.components() == seq![x, y, z],
    {
        Vec3::from([x, y, z])
    }

    /// The `x` component.
    pub fn x(&self) -> (r: T)
        ensures
            r == self.components()[0],
    {
        self.vector.get(0, 0)
    }

    /// The `y` component.
    pub fn y(&self) -> (r: T)
        ensures
            r == self.components()[1],
    {
        self.vector.get(1, 0)
    }

    /// The `z` component.
    pub fn z(&self) -> (r: T)
        ensures
            r == self.components()[2],
    {
        self.vector.get(2, 0)
    }

    /// The components under their names.
    pub fn named(&self) -> (r: Vector3<T>)
        ensures
            r.x == self.components()[0],
            r.y == self.components()[1],
            r.z == self.components()[2],
    {
        Vector3 { x: self.x(), y: self.y(), z: self.z() }
    }

    /// The components in order, borrowed from the vector.
    pub fn as_flattened(&self) -> (r: &[T])
        ensures
            r@ == self.components(),
    {
        let flat = self.vector.as_flattened();
        proof {
            self.vector.shape();
            assert forall|i: int| 0 <= i < 3 implies flat@[i] == self.components()[i] by {
                assert(flat@[0 * 3 + i] == self.vector.at(i, 0));
            }
            assert(flat@ =~= self.components());
        }
        flat
    }

    /// The vector `(x, y)`.
    pub fn xy(&self) -> (r: Vec2<T>)
        ensures
            r.components() == seq![self.components()[0], self.components()[1]],
    {
        Vec2::new(self.x(), self.y())
    }

    /// The vector `(y, z)`.
    pub fn yz(&self) -> (r: Vec2<T>)
        ensures
            r.components() == seq![self.components()[1], self.components()[2]],
    {
        Vec2::new(self.y(), self.z())
    }

    /// The vector `(x, z)`.
    pub fn xz(&self) -> (r: Vec2<T>)
        ensures
            r.components() == seq![self.components()[0], self.components()[2]],
    {
        Vec2::new(self.x(), self.z())
    }

    /// The vector `(x, y, z, w)` with the given `w`.
    pub fn xyzw(&self, w: T) -> (r: Vec4<T>)
        ensures
            r.components() == seq![
                self.components()[0],
                self.components()[1],
                self.components()[2],
                w,
            ],
    {
        Vec4::new(self.x(), self.y(), self.z(), w)
    }
}

impl<T: Scalar> Vec3<T> {
    /// The zero vector.
    pub fn zeros() -> (r: Self)
        ensures
            embeds::<T>() ==> r.components() == seq![zero::<T>(), zero::<T>(), zero::<T>()],
    {
        let r = Vec3::from(Vector::zeros());
        proof {
            r.vector.shape();
            if embeds::<T>() {
                assert forall|i: int| 0 <= i < 3 implies r.components()[i] == zero::<T>() by {
                    assert(r.vector.at(i, 0) == zero::<T>());
                }
                assert(r.components() =~= seq![zero::<T>(), zero::<T>(), zero::<T>()]);
            }
        }
        r
    }

    /// The vector of ones.
    pub fn ones() -> (r: Self)
        ensures
            embeds::<T>() ==> r.components() == seq![one::<T>(), one::<T>(), one::<T>()],
    {
        let r = Vec3::from(Vector::ones());
        proof {
            r.vector.shape();
            if embeds::<T>() {
                assert forall|i: int| 0 <= i < 3 implies r.components()[i] == one::<T>() by {
                    assert(r.vector.at(i, 0) == one::<T>());
                }
                assert(r.components() =~= seq![one::<T>(), one::<T>(), one::<T>()]);
            }
        }
        r
    }

    /// The inner product.
    pub fn dot(&self, other: &Self) -> (r: T)
        requires
            total::<T>(),
        ensures
            exact::<T>() ==> r == dot_of(self.components(), other.components()),
    {
        self.vector.dot(&other.vector)
    }

    /// The cross product.
    pub fn cross(&self, other: &Self) -> (r: Self)
        requires
            total::<T>(),
        ensures
            exact::<T>() ==> r.components() == cross3(self.components(), other.components()),
    {
        Vec3::from(self.vector.cross(&other.vector))
    }

    /// The length.
    pub fn magnitude<E: Elementary<T>>(&self, env: &E) -> (r: T)
        requires
            total::<T>(),
        ensures
            exact::<T>() ==> is_sqrt(env, dot_of(self.components(), self.components()), r),
    {
        self.vector.magnitude(env)
    }

    /// The vector divided by `magnitude`, or the zero vector where the
    /// magnitude is at most `epsilon`.
    pub fn normalize_with(&self, magnitude: T, epsilon: T) -> (r: Self)
        requires
            total::<T>(),
        ensures
            exact::<T>() ==> r.vector().is_normalized(self.vector(), magnitude, epsilon),
    {
        Vec3::from(self.vector.normalize_with(magnitude, epsilon))
    }

    /// The vector of length one in the direction of `self`, or the zero
    /// vector where the length of `self` is at most machine epsilon.
    pub fn normalize<E: Elementary<T>>(&self, env: &E) -> (r: Self)
        requires
            total::<T>(),
        ensures
            exact::<T>() ==> r.vector().is_direction_of(self.vector(), env),
    {
        Vec3::from(self.vector.normalize(env))
    }
}

impl<T: Copy> FromSpecImpl<Matrix<T, 3, 1>> for Vec3<T> {
    open spec fn obeys_from_spec() -> bool {
        true
    }

    open spec fn from_spec(vector: Matrix<T, 3, 1>) -> Self {
        Self::wrap(vector)
    }
}

impl<T: Copy> From<Matrix<T, 3, 1>> for Vec3<T> {
    /// The vector that holds the one-column matrix `vector`.
    fn from(vector: Matrix<T, 3, 1>) -> (r: Self)
        ensures
            r.vector() == vector,
    {
        Vec3 { vector }
    }
}

impl<T: Copy> FromSpecImpl<Vec3<T>> for Matrix<T, 3, 1> {
    open spec fn obeys_from_spec() -> bool {
        true
    }

    open spec fn from_spec(value: Vec3<T>) -> Self {
        value.vector()
    }
}

impl<T: Copy> From<Vec3<T>> for Matrix<T, 3, 1> {
    /// The vector as a one-column matrix.
    fn from(value: Vec3<T>) -> (r: Self) {
        value.vector
    }
}

impl<T: Copy> FromSpecImpl<[T; 3]> for Vec3<T> {
    open spec fn obeys_from_spec() -> bool {
        true
    }

    open spec fn from_spec(array: [T; 3]) -> Self {
        Self::wrap(Matrix::of_columns([array]))
    }
}

impl<T: Copy> From<[T; 3]> for Vec3<T> {
    /// The vector with the components of `array`.
    fn from(array: [T; 3]) -> (r: Self)
        ensures
            r.components() == array@,
    {
        Vec3 { vector: Matrix::from(array) }
    }
}

impl<T: Copy> FromSpecImpl<Vector3<T>> for Vec3<T> {
    open spec fn obeys_from_spec() -> bool {
        true
    }

    open spec fn from_spec(named: Vector3<T>) -> Self {
        Self::wrap(Matrix::of_columns([[named.x, named.y, named.z]]))
    }
}

impl<T: Copy> From<Vector3<T>> for Vec3<T> {
    /// The vector with the named components.
    fn from(named: Vector3<T>) -> (r: Self)
        ensures
            r.components() == seq![named.x, named.y, named.z],
    {
        Vec3::from([named.x, named.y, named.z])
    }
}

impl<T: Copy> AsRef<[T]> for Vec3<T> {
    /// The components in order.
    fn as_ref(&self) -> (r: &[T])
        ensures
            r@ == self.components(),
    {
        self.as_flattened()
    }
}

impl<T: Scalar> Default for Vec3<T> {
    /// The zero vector.
    fn default() -> (r: Self)
        ensures
            embeds::<T>() ==> r.components() == seq![zero::<T>(), zero::<T>(), zero::<T>()],
    {
        Self::zeros()
    }
}

impl<T: Scalar> vstd::std_specs::ops::AddSpecImpl for Vec3<T> {
    open spec fn obeys_add_spec() -> bool {
        exact::<T>()
    }

    open spec fn add_req(self, rhs: Self) -> bool {
        total::<T>()
    }

    open spec fn add_spec(self, rhs: Self) -> Self {
        Self::wrap(AddSpec::add_spec(self.vector(), rhs.vector()))
    }
}

impl<T: Scalar> Add for Vec3<T> {
    type Output = Vec3<T>;

    /// The component-wise sum.
    fn add(self, rhs: Self) -> (r: Self)
        ensures
            exact::<T>() ==> r.components() == sum_of(self.components(), rhs.components()),
    {
        let r = Vec3 { vector: self.vector + rhs.vector };
        proof {
            if exact::<T>() {
                r.vector.shape();
                self.vector.shape();
                assert forall|i: int| 0 <= i < 3 implies r.components()[i] == sum_of(
                    self.components(),
                    rhs.components(),
                )[i] by {
                    assert(r.vector.is_sum(self.vector, rhs.vector));
                    assert(r.vector.at(i, 0) == r.components()[i]);
                }
                assert(r.components() =~= sum_of(self.components(), rhs.components()));
            }
        }
        r
    }
}

impl<T: Scalar> vstd::std_specs::ops::SubSpecImpl for Vec3<T> {
    open spec fn obeys_sub_spec() -> bool {
        exact::<T>()
    }

    open spec fn sub_req(self, rhs: Self) -> bool {
        total::<T>()
    }

    open spec fn sub_spec(self, rhs: Self) -> Self {
        Self::wrap(SubSpec::sub_spec(self.vector(), rhs.vector()))
    }
}

impl<T: Scalar> Sub for Vec3<T> {
    type Output = Vec3<T>;

    /// The component-wise difference.
    fn sub(self, rhs: Self) -> (r: Self)
        ensures
            exact::<T>() ==> r.components() == difference_of(self.components(), rhs.components()),
    {
        let r = Vec3 { vector: self.vector - rhs.vector };
        proof {
            if exact::<T>() {
                r.vector.shape();
                self.vector.shape();
                assert forall|i: int| 0 <= i < 3 implies r.components()[i] == difference_of(
                    self.components(),
                    rhs.components(),
                )[i] by {
                    assert(r.vector.is_difference(self.vector, rhs.vector));
                    assert(r.vector.at(i, 0) == r.components()[i]);
                }
                assert(r.components() =~= difference_of(self.components(), rhs.components()));
            }
        }
        r
    }
}

impl<T: Scalar> vstd::std_specs::ops::MulSpecImpl<T> for Vec3<T> {
    open spec fn obeys_mul_spec() -> bool {
        exact::<T>()
    }

    open spec fn mul_req(self, rhs: T) -> bool {
        total::<T>()
    }

    open spec fn mul_spec(self, rhs: T) -> Self {
        Self::wrap(MulSpec::mul_spec(self.vector(), rhs))
    }
}

impl<T: Scalar> Mul<T> for Vec3<T> {
    type Output = Vec3<T>;

    /// Every component multiplied by the scalar `rhs`, the scalar on the left.
    fn mul(self, rhs: T) -> (r: Self)
        ensures
            exact::<T>() ==> r.components() == scaled(self.components(), rhs),
    {
        let r = Vec3 { vector: self.vector * rhs };
        proof {
            if exact::<T>() {
                r.vector.shape();
                self.vector.shape();
                assert forall|i: int| 0 <= i < 3 implies r.components()[i] == scaled(
                    self.components(),
                    rhs,
                )[i] by {
                    assert(r.vector.is_scaled(self.vector, rhs));
                    assert(r.vector.at(i, 0) == r.components()[i]);
                }
                assert(r.components() =~= scaled(self.components(), rhs));
            }
        }
        r
    }
}

impl<T: Scalar> vstd::std_specs::ops::DivSpecImpl<T> for Vec3<T> {
    open spec fn obeys_div_spec() -> bool {
        exact::<T>()
    }

    open spec fn div_req(self, rhs: T) -> bool {
        total::<T>()
    }

    open spec fn div_spec(self, rhs: T) -> Self {
        Self::wrap(DivSpec::div_spec(self.vector(), rhs))
    }
}

impl<T: Scalar> Div<T> for Vec3<T> {
    type Output = Vec3<T>;

    /// Every component divided by the scalar `rhs`.
    fn div(self, rhs: T) -> (r: Self)
        ensures
            exact::<T>() ==> r.components() == quotient_of(self.components(), rhs),
    {
        let r = Vec3 { vector: self.vector / rhs };
        proof {
            if exact::<T>() {
                r.vector.shape();
                self.vector.shape();
                assert forall|i: int| 0 <= i < 3 implies r.components()[i] == quotient_of(
                    self.components(),
                    rhs,
                )[i] by {
                    assert(r.vector.is_quotient(self.vector, rhs));
                    assert(r.vector.at(i, 0) == r.components()[i]);
                }
                assert(r.components() =~= quotient_of(self.components(), rhs));
            }
        }
        r
    }
}

impl<T: Scalar> vstd::std_specs::ops::NegSpecImpl for Vec3<T> {
    open spec fn obeys_neg_spec() -> bool {
        exact::<T>()
    }

    open spec fn neg_req(self) -> bool {
        total::<T>()
    }

    open spec fn neg_spec(self) -> Self {
        Self::wrap(NegSpec::neg_spec(self.vector()))
    }
}

impl<T: Scalar> Neg for Vec3<T> {
    type Output = Vec3<T>;

    /// Every component negated.
    fn neg(self) -> (r: Self)
        ensures
            exact::<T>() ==> r.components() == negation_of(self.components()),
    {
        let r = Vec3 { vector: self.vector.neg() };
        proof {
            if exact::<T>() {
                r.vector.shape();
                self.vector.shape();
                assert forall|i: int| 0 <= i < 3 implies r.components()[i] == negation_of(
                    self.components(),
                )[i] by {
                    assert(r.vector.is_negation(self.vector));
                    assert(r.vector.at(i, 0) == r.components()[i]);
                }
                assert(r.components() =~= negation_of(self.components()));
            }
        }
        r
    }
}

impl<T: Scalar> vstd::std_specs::ops::MulSpecImpl<Vec3<T>> for Matrix<T, 3, 3> {
    open spec fn obeys_mul_spec() -> bool {
        exact::<T>()
    }

    open spec fn mul_req(self, rhs: Vec3<T>) -> bool {
        total::<T>()
    }

    open spec fn mul_spec(self, rhs: Vec3<T>) -> Vec3<T> {
        Vec3::wrap(MulSpec::mul_spec(self, rhs.vector()))
    }
}

impl<T: Scalar> Mul<Vec3<T>> for Matrix<T, 3, 3> {
    type Output = Vec3<T>;

    /// The product of the matrix with the vector `rhs`.
    fn mul(self, rhs: Vec3<T>) -> (r: Vec3<T>)
        ensures
            exact::<T>() ==> r.vector().is_product(self, rhs.vector()),
    {
        Vec3 { vector: self * rhs.vector }
    }
}

impl<T: Scalar> AddAssign for Vec3<T> {
    /// Adds `rhs` to the receiver.
    fn add_assign(&mut self, rhs: Self)
        requires
            total::<T>(),
        ensures
            exact::<T>() ==> final(self).components() == sum_of(
                old(self).components(),
                rhs.components(),
            ),
    {
        *self = *self + rhs;
    }
}

impl<T: Scalar> SubAssign for Vec3<T> {
    /// Subtracts `rhs` from the receiver.
    fn sub_assign(&mut self, rhs: Self)
        requires
            total::<T>(),
        ensures
            exact::<T>() ==> final(self).components() == difference_of(
                old(self).components(),
                rhs.components(),
            ),
    {
        *self = *self - rhs;
    }
}

impl<T: Scalar> MulAssign<T> for Vec3<T> {
    /// Multiplies every component of the receiver by `rhs`.
    fn mul_assign(&mut self, rhs: T)
        requires
            total::<T>(),
        ensures
            exact::<T>() ==> final(self).components() == scaled(old(self).components(), rhs),
    {
        *self = *self * rhs;
    }
}

impl<T: Scalar> DivAssign<T> for Vec3<T> {
    /// Divides every component of the receiver by `rhs`.
    fn div_assign(&mut self, rhs: T)
        requires
            total::<T>(),
        ensures
            exact::<T>() ==> final(self).components() == quotient_of(old(self).components(), rhs),
    {
        *self = *self / rhs;
    }
}

} // verus!
