//! Quaternions: a vector part and a scalar part, of any magnitude.
use crate::elementary::{is_cos, is_epsilon, is_sin, is_sqrt, Elementary};
use crate::matrix::product::inner;
use crate::scalar::{
    abs, absolute, at_most, below, embeds, exact, half, less, less_or_equal, number, one, plain,
    total, zero, Scalar,
};
use crate::vector::vec3::Vec3;
use crate::vector::{cross3, dot_of};
use core::ops::{Div, Mul, Neg};
use vstd::prelude::*;
use vstd::std_specs::convert::FromSpecImpl;
use vstd::std_specs::ops::{AddSpec, DivSpec, MulSpec, NegSpec, SubSpec};

pub mod unit;

verus! {

/// A quaternion with vector part `vector` and scalar part `scalar`.
#[derive(Clone, Copy, Debug)]
pub struct Quaternion<T> {
    pub vector: Vec3<T>,
    pub scalar: T,
}

/// The vector part of a quaternion given by its four parts.
pub open spec fn vector_part<T>(q: Seq<T>) -> Seq<T> {
    seq![q[0], q[1], q[2]]
}

/// The parts of the identity: a zero vector and the scalar one.
pub open spec fn identity_parts<T: Scalar>() -> Seq<T> {
    seq![zero::<T>(), zero::<T>(), zero::<T>(), one::<T>()]
}

/// The conjugate: the vector part negated.
pub open spec fn conjugated<T: Scalar>(q: Seq<T>) -> Seq<T> {
    seq![q[0].neg_spec(), q[1].neg_spec(), q[2].neg_spec(), q[3]]
}

/// The squared magnitude `|vector|² + scalar²`.
pub open spec fn norm_squared<T: Scalar>(q: Seq<T>) -> T {
    dot_of(vector_part(q), vector_part(q)).add_spec(q[3].mul_spec(q[3]))
}

/// The four-dimensional inner product: that of the vector parts plus the
/// product of the scalars.
pub open spec fn dot4<T: Scalar>(a: Seq<T>, b: Seq<T>) -> T {
    dot_of(vector_part(a), vector_part(b)).add_spec(a[3].mul_spec(b[3]))
}

/// Every part divided by `divisor`.
pub open spec fn divided<T: Scalar>(q: Seq<T>, divisor: T) -> Seq<T> {
    seq![
        q[0].div_spec(divisor),
        q[1].div_spec(divisor),
        q[2].div_spec(divisor),
        q[3].div_spec(divisor),
    ]
}

/// The inverse `conjugate / magnitude²`, or the identity where the squared
/// magnitude is below `epsilon`.
pub open spec fn inverted<T: Scalar>(q: Seq<T>, epsilon: T) -> Seq<T> {
    if below(absolute(norm_squared(q)), epsilon) {
        identity_parts::<T>()
    } else {
        divided(conjugated(q), norm_squared(q))
    }
}

/// The quaternion divided by `magnitude`, or the identity where the
/// magnitude is at most `epsilon`.
pub open spec fn normalized<T: Scalar>(q: Seq<T>, magnitude: T, epsilon: T) -> Seq<T> {
    if at_most(absolute(magnitude), epsilon) {
        identity_parts::<T>()
    } else {
        divided(q, magnitude)
    }
}

/// The Hamilton product `a · b`: the vector part is
/// `a.v × b.v + a.s · b.v + b.s · a.v`, the scalar part `a.s · b.s − a.v · b.v`.
pub open spec fn hamilton<T: Scalar>(a: Seq<T>, b: Seq<T>) -> Seq<T> {
    let cross = cross3(vector_part(a), vector_part(b));
    seq![
        cross[0].add_spec(a[3].mul_spec(b[0])).add_spec(b[3].mul_spec(a[0])),
        cross[1].add_spec(a[3].mul_spec(b[1])).add_spec(b[3].mul_spec(a[1])),
        cross[2].add_spec(a[3].mul_spec(b[2])).add_spec(b[3].mul_spec(a[2])),
        a[3].mul_spec(b[3]).sub_spec(dot_of(vector_part(a), vector_part(b))),
    ]
}

/// The Hamilton product of a quaternion with the identity is the quaternion
/// itself, where its parts, and zero, are plain.
pub proof fn hamilton_with_identity<T: Scalar>(q: Seq<T>)
    requires
        q.len() == 4,
        plain(zero::<T>()),
        forall|i: int| 0 <= i < 4 ==> plain(#[trigger] q[i]),
    ensures
        hamilton(q, identity_parts::<T>()) == q,
{
    let e = identity_parts::<T>();
    let v = vector_part(q);
    let u = vector_part(e);
    assert(plain(q[0]) && plain(q[1]) && plain(q[2]) && plain(q[3]));
    assert(inner(v, u, 0) == zero::<T>());
    assert(inner(v, u, 1) == zero::<T>());
    assert(inner(v, u, 2) == zero::<T>());
    assert(inner(v, u, 3) == zero::<T>());
    assert(dot_of(v, u) == zero::<T>());
    assert(hamilton(q, e) =~= q);
}

/// The rotation about `axis` whose half angle has the given sine and
/// cosine: the vector part is `sine · axis`, the scalar part `cosine`.
pub open spec fn half_angle<T: Scalar>(axis: Seq<T>, sine: T, cosine: T) -> Seq<T> {
    seq![sine.mul_spec(axis[0]), sine.mul_spec(axis[1]), sine.mul_spec(axis[2]), cosine]
}

/// The unit vector along axis `k`: 0 for x, 1 for y, 2 for z.
pub open spec fn axis_unit<T: Scalar>(k: int) -> Seq<T> {
    Seq::new(
        3,
        |i: int|
            if i == k {
                one::<T>()
            } else {
                zero::<T>()
            },
    )
}

impl<T> Quaternion<T> {
    /// The four parts: the vector part `x`, `y`, `z`, then the scalar.
    pub open spec fn parts(self) -> Seq<T> {
        seq![
            self.vector.components()[0],
            self.vector.components()[1],
            self.vector.components()[2],
            self.scalar,
        ]
    }

    /// The quaternion with the four parts `p`.
    pub open spec fn of_parts(p: Seq<T>) -> Self {
        Quaternion { vector: Vec3::of(p[0], p[1], p[2]), scalar: p[3] }
    }

    /// A quaternion is known by its parts.
    pub proof fn same_parts(self, other: Self)
        requires
            self.parts() == other.parts(),
        ensures
            self == other,
    {
        self.vector.arity();
        other.vector.arity();
        assert(self.parts()[0] == other.parts()[0]);
        assert(self.parts()[1] == other.parts()[1]);
        assert(self.parts()[2] == other.parts()[2]);
        assert(self.parts()[3] == other.parts()[3]);
        assert(self.vector.components() =~= other.vector.components());
        self.vector.same_components(other.vector);
    }

    /// The parts of `of_parts(p)` are `p`.
    pub proof fn parts_of_parts(p: Seq<T>)
        requires
            p.len() == 4,
        ensures
            Self::of_parts(p).parts() == p,
    {
        Vec3::of_components(p[0], p[1], p[2]);
        assert(Self::of_parts(p).parts() =~= p);
    }
}

impl<T: Scalar> Quaternion<T> {
    /// `self` is a result of taking the rotation by `angle` about the unit
    /// vector `axis`, with the sine and cosine of `env`.
    pub open spec fn is_rotation_about<E: Elementary<T>>(
        self,
        axis: Seq<T>,
        angle: T,
        env: &E,
    ) -> bool {
        exists|sine: T, cosine: T|
            {
                &&& is_sin(env, half(angle), sine)
                &&& is_cos(env, half(angle), cosine)
                &&& self.parts() == half_angle(axis, sine, cosine)
            }
    }

    /// `self` is a result of normalising `q` with the square root and the
    /// machine epsilon of `env`.
    pub open spec fn is_versor_of<E: Elementary<T>>(self, q: Self, env: &E) -> bool {
        exists|magnitude: T, epsilon: T|
            {
                &&& is_sqrt(env, norm_squared(q.parts()), magnitude)
                &&& is_epsilon(env, epsilon)
                &&& self.parts() == normalized(q.parts(), magnitude, epsilon)
            }
    }

    /// The quaternion with the given vector and scalar part.
    pub fn new(vector: Vec3<T>, scalar: T) -> (r: Self)
        ensures
            r.vector == vector,
            r.scalar == scalar,
    {
        Quaternion { vector, scalar }
    }

    /// The identity: a zero vector part and the scalar one.
    pub fn identity() -> (r: Self)
        ensures
            embeds::<T>() ==> r.parts() == identity_parts::<T>(),
    {
        let r = Quaternion { vector: Vec3::zeros(), scalar: number(1) };
        assert(embeds::<T>() ==> r.parts() =~= identity_parts::<T>());
        r
    }

    /// The conjugate: the vector part negated.
    pub fn conjugate(&self) -> (r: Self)
        requires
            total::<T>(),
        ensures
            exact::<T>() ==> r.parts() == conjugated(self.parts()),
    {
        let r = Quaternion { vector: self.vector.neg(), scalar: self.scalar };
        proof {
            self.vector.arity();
            assert(exact::<T>() ==> r.parts() =~= conjugated(self.parts()));
        }
        r
    }

    /// The squared magnitude `|vector|² + scalar²`.
    pub fn magnitude_squared(&self) -> (r: T)
        requires
            total::<T>(),
        ensures
            exact::<T>() ==> r == norm_squared(self.parts()),
    {
        proof {
            self.vector.arity();
            assert(vector_part(self.parts()) =~= self.vector.components());
        }
        self.vector.dot(&self.vector) + self.scalar * self.scalar
    }

    /// The magnitude: the square root of `|vector|² + scalar²`.
    pub fn magnitude<E: Elementary<T>>(&self, env: &E) -> (r: T)
        requires
            total::<T>(),
        ensures
            exact::<T>() ==> is_sqrt(env, norm_squared(self.parts()), r),
    {
        env.sqrt(self.magnitude_squared())
    }

    /// The inverse `conjugate / magnitude²`, or the identity where the
    /// squared magnitude is below `epsilon`.
    pub fn inverse_with(&self, epsilon: T) -> (r: Self)
        requires
            total::<T>(),
        ensures
            exact::<T>() ==> r.parts() == inverted(self.parts(), epsilon),
    {
        let squared = self.magnitude_squared();
        if less(abs(squared), epsilon) {
            Self::identity()
        } else {
            let negated = self.vector.neg();
            let r = Quaternion { vector: negated / squared, scalar: self.scalar / squared };
            proof {
                self.vector.arity();
                negated.arity();
                assert(exact::<T>() ==> r.parts() =~= inverted(self.parts(), epsilon));
            }
            r
        }
    }

    /// The inverse `conjugate / magnitude²`, or the identity where the
    /// squared magnitude is below machine epsilon.
    pub fn inverse<E: Elementary<T>>(&self, env: &E) -> (r: Self)
        requires
            total::<T>(),
        ensures
            exact::<T>() ==> exists|epsilon: T|
                is_epsilon(env, epsilon) && r.parts() == inverted(self.parts(), epsilon),
    {
        let epsilon = env.epsilon();
        let r = self.inverse_with(epsilon);
        assert(exact::<T>() ==> is_epsilon(env, epsilon) && r.parts() == inverted(
            self.parts(),
            epsilon,
        ));
        r
    }

    /// The quaternion divided by `magnitude`, or the identity where the
    /// magnitude is at most `epsilon`.
    pub fn normalize_with(&self, magnitude: T, epsilon: T) -> (r: Self)
        requires
            total::<T>(),
        ensures
            exact::<T>() ==> r.parts() == normalized(self.parts(), magnitude, epsilon),
    {
        if less_or_equal(abs(magnitude), epsilon) {
            Self::identity()
        } else {
            *self / magnitude
        }
    }

    /// The quaternion of magnitude one in the direction of `self`, or the
    /// identity where the magnitude of `self` is at most machine epsilon.
    pub fn normalize<E: Elementary<T>>(&self, env: &E) -> (r: Self)
        requires
            total::<T>(),
        ensures
            exact::<T>() ==> r.is_versor_of(*self, env),
    {
        let magnitude = self.magnitude(env);
        let epsilon = env.epsilon();
        let r = self.normalize_with(magnitude, epsilon);
        assert(exact::<T>() ==> is_sqrt(env, norm_squared(self.parts()), magnitude) && is_epsilon(
            env,
            epsilon,
        ) && r.parts() == normalized(self.parts(), magnitude, epsilon));
        r
    }

    /// The four-dimensional inner product.
    pub fn dot(&self, other: &Self) -> (r: T)
        requires
            total::<T>(),
        ensures
            exact::<T>() ==> r == dot4(self.parts(), other.parts()),
    {
        proof {
            self.vector.arity();
            other.vector.arity();
            assert(vector_part(self.parts()) =~= self.vector.components());
            assert(vector_part(other.parts()) =~= other.vector.components());
        }
        self.vector.dot(&other.vector) + self.scalar * other.scalar
    }

    /// The rotation about the unit vector `axis` whose half angle has the
    /// given sine and cosine.
    pub fn from_half_angle(axis: Vec3<T>, sine: T, cosine: T) -> (r: Self)
        requires
            total::<T>(),
        ensures
            exact::<T>() ==> r.parts() == half_angle(axis.components(), sine, cosine),
    {
        let r = Quaternion { vector: axis * sine, scalar: cosine };
        proof {
            axis.arity();
            assert(exact::<T>() ==> r.parts() =~= half_angle(axis.components(), sine, cosine));
        }
        r
    }

    /// The rotation by `angle` about the x axis.
    pub fn from_x_axis<E: Elementary<T>>(angle: T, env: &E) -> (r: Self)
        requires
            total::<T>(),
        ensures
            exact::<T>() ==> r.is_rotation_about(axis_unit::<T>(0), angle, env),
    {
        let axis = Vec3::new(number(1), number(0), number(0));
        assert(exact::<T>() ==> axis.components() =~= axis_unit::<T>(0));
        Self::about_unit(axis, angle, env)
    }

    /// The rotation by `angle` about the y axis.
    pub fn from_y_axis<E: Elementary<T>>(angle: T, env: &E) -> (r: Self)
        requires
            total::<T>(),
        ensures
            exact::<T>() ==> r.is_rotation_about(axis_unit::<T>(1), angle, env),
    {
        let axis = Vec3::new(number(0), number(1), number(0));
        assert(exact::<T>() ==> axis.components() =~= axis_unit::<T>(1));
        Self::about_unit(axis, angle, env)
    }

    /// The rotation by `angle` about the z axis.
    pub fn from_z_axis<E: Elementary<T>>(angle: T, env: &E) -> (r: Self)
        requires
            total::<T>(),
        ensures
            exact::<T>() ==> r.is_rotation_about(axis_unit::<T>(2), angle, env),
    {
        let axis = Vec3::new(number(0), number(0), number(1));
        assert(exact::<T>() ==> axis.components() =~= axis_unit::<T>(2));
        Self::about_unit(axis, angle, env)
    }

    /// The rotation by `angle` about `axis`, which is taken as it is.
    fn about_unit<E: Elementary<T>>(axis: Vec3<T>, angle: T, env: &E) -> (r: Self)
        requires
            total::<T>(),
        ensures
            exact::<T>() ==> r.is_rotation_about(axis.components(), angle, env),
    {
        let half_angle: T = angle / number(2);
        let sine = env.sin(half_angle);
        let cosine = env.cos(half_angle);
        let r = Self::from_half_angle(axis, sine, cosine);
        assert(exact::<T>() ==> is_sin(env, half(angle), sine) && is_cos(env, half(angle), cosine)
            && r.parts() == crate::quaternion::half_angle(axis.components(), sine, cosine));
        r
    }

    /// The rotation by `angle` about the direction of `axis`.
    pub fn from_axis_angle<E: Elementary<T>>(axis: Vec3<T>, angle: T, env: &E) -> (r: Self)
        requires
            total::<T>(),
        ensures
            exact::<T>() ==> exists|direction: Vec3<T>|
                {
                    &&& direction.vector().is_direction_of(axis.vector(), env)
                    &&& r.is_rotation_about(direction.components(), angle, env)
                },
    {
        let direction = axis.normalize(env);
        let r = Self::about_unit(direction, angle, env);
        assert(exact::<T>() ==> direction.vector().is_direction_of(axis.vector(), env)
            && r.is_rotation_about(direction.components(), angle, env));
        r
    }

    /// The rotation that turns by `z` about the z axis, then by `x` about
    /// the x axis, then by `y` about the y axis: the product `qy · qx · qz`.
    pub fn from_euler_angles_yxz<E: Elementary<T>>(x: T, y: T, z: T, env: &E) -> (r: Self)
        requires
            total::<T>(),
        ensures
            exact::<T>() ==> exists|qx: Self, qy: Self, qz: Self|
                {
                    &&& qx.is_rotation_about(axis_unit::<T>(0), x, env)
                    &&& qy.is_rotation_about(axis_unit::<T>(1), y, env)
                    &&& qz.is_rotation_about(axis_unit::<T>(2), z, env)
                    &&& r.parts() == hamilton(hamilton(qy.parts(), qx.parts()), qz.parts())
                },
    {
        let qx = Self::from_x_axis(x, env);
        let qy = Self::from_y_axis(y, env);
        let qz = Self::from_z_axis(z, env);
        let r = qy * qx * qz;
        assert(exact::<T>() ==> qx.is_rotation_about(axis_unit::<T>(0), x, env)
            && qy.is_rotation_about(axis_unit::<T>(1), y, env) && qz.is_rotation_about(
            axis_unit::<T>(2),
            z,
            env,
        ) && r.parts() == hamilton(hamilton(qy.parts(), qx.parts()), qz.parts()));
        r
    }
}

impl<T: Scalar> Default for Quaternion<T> {
    /// The identity.
    fn default() -> (r: Self)
        ensures
            embeds::<T>() ==> r.parts() == identity_parts::<T>(),
    {
        Self::identity()
    }
}

impl<T: Scalar> FromSpecImpl<Vec3<T>> for Quaternion<T> {
    open spec fn obeys_from_spec() -> bool {
        embeds::<T>()
    }

    open spec fn from_spec(vector: Vec3<T>) -> Self {
        Quaternion { vector, scalar: zero::<T>() }
    }
}

impl<T: Scalar> From<Vec3<T>> for Quaternion<T> {
    /// The quaternion with vector part `vector` and scalar part zero.
    fn from(vector: Vec3<T>) -> (r: Self)
        ensures
            r.vector == vector,
            embeds::<T>() ==> r.scalar == zero::<T>(),
    {
        Quaternion { vector, scalar: number(0) }
    }
}

impl<T: Scalar> FromSpecImpl<[T; 4]> for Quaternion<T> {
    open spec fn obeys_from_spec() -> bool {
        true
    }

    open spec fn from_spec(value: [T; 4]) -> Self {
        Self::of_parts(value@)
    }
}

impl<T: Scalar> From<[T; 4]> for Quaternion<T> {
    /// The quaternion with the parts `x`, `y`, `z`, `w` of `value`.
    fn from(value: [T; 4]) -> (r: Self)
        ensures
            r.parts() == value@,
    {
        let r = Quaternion { vector: Vec3::from([value[0], value[1], value[2]]), scalar: value[3] };
        proof {
            assert(r.parts() =~= value@);
            Self::parts_of_parts(value@);
            r.same_parts(Self::of_parts(value@));
        }
        r
    }
}

impl<T: Scalar> vstd::std_specs::ops::MulSpecImpl for Quaternion<T> {
    open spec fn obeys_mul_spec() -> bool {
        exact::<T>()
    }

    open spec fn mul_req(self, rhs: Self) -> bool {
        total::<T>()
    }

    open spec fn mul_spec(self, rhs: Self) -> Self {
        Self::of_parts(hamilton(self.parts(), rhs.parts()))
    }
}

impl<T: Scalar> Mul for Quaternion<T> {
    type Output = Quaternion<T>;

    /// The Hamilton product. It does not commute.
    fn mul(self, rhs: Self) -> (r: Self)
        ensures
            exact::<T>() ==> r.parts() == hamilton(self.parts(), rhs.parts()),
    {
        let vector_part = self.vector.cross(&rhs.vector);
        let scalar_part = self.scalar * rhs.scalar - self.vector.dot(&rhs.vector);
        let r = Quaternion {
            vector: vector_part + rhs.vector * self.scalar + self.vector * rhs.scalar,
            scalar: scalar_part,
        };
        proof {
            if exact::<T>() {
                self.vector.arity();
                rhs.vector.arity();
                assert(crate::quaternion::vector_part(self.parts()) =~= self.vector.components());
                assert(crate::quaternion::vector_part(rhs.parts()) =~= rhs.vector.components());
                assert(r.parts() =~= hamilton(self.parts(), rhs.parts()));
                Self::parts_of_parts(hamilton(self.parts(), rhs.parts()));
                r.same_parts(Self::of_parts(hamilton(self.parts(), rhs.parts())));
            }
        }
        r
    }
}

impl<T: Scalar> vstd::std_specs::ops::DivSpecImpl<T> for Quaternion<T> {
    open spec fn obeys_div_spec() -> bool {
        exact::<T>()
    }

    open spec fn div_req(self, rhs: T) -> bool {
        total::<T>()
    }

    open spec fn div_spec(self, rhs: T) -> Self {
        Self::of_parts(divided(self.parts(), rhs))
    }
}

impl<T: Scalar> Div<T> for Quaternion<T> {
    type Output = Quaternion<T>;

    /// Every part divided by the scalar `rhs`.
    fn div(self, rhs: T) -> (r: Self)
        ensures
            exact::<T>() ==> r.parts() == divided(self.parts(), rhs),
    {
        let r = Quaternion { vector: self.vector / rhs, scalar: self.scalar / rhs };
        proof {
            if exact::<T>() {
                self.vector.arity();
                assert(r.parts() =~= divided(self.parts(), rhs));
                Self::parts_of_parts(divided(self.parts(), rhs));
                r.same_parts(Self::of_parts(divided(self.parts(), rhs)));
            }
        }
        r
    }
}

} // verus!
