//! Unit quaternions: rotations in three dimensions.
//!
//! Every constructor normalises what it builds, so a value of this type has
//! magnitude one as far as the scalar type can tell.
use crate::elementary::{
    is_acos, is_asin, is_atan2, is_epsilon, is_frac_pi_2, is_sin, is_sqrt, Elementary,
};
use crate::matrix::square::entry;
use crate::matrix::Matrix;
use crate::quaternion::{conjugated, dot4, hamilton, identity_parts, vector_part, Quaternion};
use crate::scalar::{
    above, abs, absolute, at_least, below, embeds, exact, greater, greater_or_equal, less, number,
    numeral, one, total, two, zero, Scalar,
};
use crate::vector::vec3::Vec3;
use crate::vector::quotient_of;
use core::ops::{Deref, Neg};
use vstd::prelude::*;
use vstd::std_specs::convert::FromSpecImpl;
use vstd::std_specs::ops::{AddSpec, DivSpec, MulSpec, NegSpec, SubSpec};

verus! {

/// A quaternion of magnitude one.
#[derive(Clone, Copy, Debug)]
pub struct UnitQuaternion<T> {
    quat: Quaternion<T>,
}

/// The scalar one quarter.
pub open spec fn quarter<T: Scalar>() -> T {
    one::<T>().div_spec(numeral::<T>(4))
}

/// The closeness above which an interpolation is taken along the chord:
/// 0.9995.
pub open spec fn closeness<T: Scalar>() -> T {
    numeral::<T>(9995).div_spec(numeral::<T>(10000))
}

/// The trace of the 3×3 matrix with columns `c`.
pub open spec fn trace<T: Scalar>(c: Seq<Seq<T>>) -> T {
    entry(c, 0, 0).add_spec(entry(c, 1, 1)).add_spec(entry(c, 2, 2))
}

/// The branch by which a rotation matrix is turned into a quaternion: 0
/// where the trace is positive, else 1, 2 or 3 for the largest of the
/// diagonal entries (0,0), (1,1), (2,2).
pub open spec fn branch<T: Scalar>(c: Seq<Seq<T>>) -> int {
    if above(trace(c), zero::<T>()) {
        0
    } else if above(entry(c, 0, 0), entry(c, 1, 1)) && above(entry(c, 0, 0), entry(c, 2, 2)) {
        1
    } else if above(entry(c, 1, 1), entry(c, 2, 2)) {
        2
    } else {
        3
    }
}

/// The value whose square root scales the branch `k`.
pub open spec fn radicand<T: Scalar>(c: Seq<Seq<T>>, k: int) -> T {
    if k == 0 {
        trace(c).add_spec(one::<T>())
    } else if k == 1 {
        one::<T>().add_spec(entry(c, 0, 0)).sub_spec(entry(c, 1, 1)).sub_spec(entry(c, 2, 2))
    } else if k == 2 {
        one::<T>().add_spec(entry(c, 1, 1)).sub_spec(entry(c, 0, 0)).sub_spec(entry(c, 2, 2))
    } else {
        one::<T>().add_spec(entry(c, 2, 2)).sub_spec(entry(c, 0, 0)).sub_spec(entry(c, 1, 1))
    }
}

/// The parts `x`, `y`, `z`, `w` that branch `k` derives from the matrix with
/// columns `c` and the square root `root` of its radicand, before they are
/// normalised.
pub open spec fn rotation_parts<T: Scalar>(c: Seq<Seq<T>>, k: int, root: T) -> Seq<T> {
    let s = root.mul_spec(two::<T>());
    let large = quarter::<T>().mul_spec(s);
    if k == 0 {
        seq![
            entry(c, 2, 1).sub_spec(entry(c, 1, 2)).div_spec(s),
            entry(c, 0, 2).sub_spec(entry(c, 2, 0)).div_spec(s),
            entry(c, 1, 0).sub_spec(entry(c, 0, 1)).div_spec(s),
            large,
        ]
    } else if k == 1 {
        seq![
            large,
            entry(c, 0, 1).add_spec(entry(c, 1, 0)).div_spec(s),
            entry(c, 0, 2).add_spec(entry(c, 2, 0)).div_spec(s),
            entry(c, 2, 1).sub_spec(entry(c, 1, 2)).div_spec(s),
        ]
    } else if k == 2 {
        seq![
            entry(c, 0, 1).add_spec(entry(c, 1, 0)).div_spec(s),
            large,
            entry(c, 1, 2).add_spec(entry(c, 2, 1)).div_spec(s),
            entry(c, 0, 2).sub_spec(entry(c, 2, 0)).div_spec(s),
        ]
    } else {
        seq![
            entry(c, 0, 2).add_spec(entry(c, 2, 0)).div_spec(s),
            entry(c, 1, 2).add_spec(entry(c, 2, 1)).div_spec(s),
            large,
            entry(c, 1, 0).sub_spec(entry(c, 0, 1)).div_spec(s),
        ]
    }
}

/// The entry in row `m` of column `n` of the 4×4 rotation matrix of the
/// quaternion with parts `q`.
pub open spec fn rotation_entry<T: Scalar>(q: Seq<T>, m: int, n: int) -> T {
    let x = q[0];
    let y = q[1];
    let z = q[2];
    let w = q[3];
    let xx = x.mul_spec(x);
    let yy = y.mul_spec(y);
    let zz = z.mul_spec(z);
    let xy = x.mul_spec(y);
    let xz = x.mul_spec(z);
    let yz = y.mul_spec(z);
    let wx = w.mul_spec(x);
    let wy = w.mul_spec(y);
    let wz = w.mul_spec(z);
    if m == 0 && n == 0 {
        one::<T>().sub_spec(two::<T>().mul_spec(yy.add_spec(zz)))
    } else if m == 1 && n == 0 {
        two::<T>().mul_spec(xy.add_spec(wz))
    } else if m == 2 && n == 0 {
        two::<T>().mul_spec(xz.sub_spec(wy))
    } else if m == 0 && n == 1 {
        two::<T>().mul_spec(xy.sub_spec(wz))
    } else if m == 1 && n == 1 {
        one::<T>().sub_spec(two::<T>().mul_spec(xx.add_spec(zz)))
    } else if m == 2 && n == 1 {
        two::<T>().mul_spec(yz.add_spec(wx))
    } else if m == 0 && n == 2 {
        two::<T>().mul_spec(xz.add_spec(wy))
    } else if m == 1 && n == 2 {
        two::<T>().mul_spec(yz.sub_spec(wx))
    } else if m == 2 && n == 2 {
        one::<T>().sub_spec(two::<T>().mul_spec(xx.add_spec(yy)))
    } else if m == 3 && n == 3 {
        one::<T>()
    } else {
        zero::<T>()
    }
}

/// The half-angle sine that a unit quaternion with scalar part `w` has by
/// Pythagoras, before the square root: `1 − w²`.
pub open spec fn sine_squared<T: Scalar>(w: T) -> T {
    one::<T>().sub_spec(w.mul_spec(w))
}

/// The axis for the half-angle sine `sine`: the x axis where the sine is
/// below `epsilon`, else the vector part divided by it.
pub open spec fn axis_of<T: Scalar>(q: Seq<T>, sine: T, epsilon: T) -> Seq<T> {
    if below(sine, epsilon) {
        seq![one::<T>(), zero::<T>(), zero::<T>()]
    } else {
        quotient_of(vector_part(q), sine)
    }
}

/// The argument of the arc sine that gives the pitch: `2(wx − yz)`.
pub open spec fn pitch_sine<T: Scalar>(q: Seq<T>) -> T {
    two::<T>().mul_spec(q[3].mul_spec(q[0]).sub_spec(q[1].mul_spec(q[2])))
}

/// The two arguments of the arc tangent that gives the yaw:
/// `2(wy + xz)` and `1 − 2(x² + y²)`.
pub open spec fn yaw_terms<T: Scalar>(q: Seq<T>) -> (T, T) {
    (
        two::<T>().mul_spec(q[3].mul_spec(q[1]).add_spec(q[0].mul_spec(q[2]))),
        one::<T>().sub_spec(
            two::<T>().mul_spec(q[0].mul_spec(q[0]).add_spec(q[1].mul_spec(q[1]))),
        ),
    )
}

/// The two arguments of the arc tangent that gives the roll:
/// `2(wz + xy)` and `1 − 2(x² + z²)`.
pub open spec fn roll_terms<T: Scalar>(q: Seq<T>) -> (T, T) {
    (
        two::<T>().mul_spec(q[3].mul_spec(q[2]).add_spec(q[0].mul_spec(q[1]))),
        one::<T>().sub_spec(
            two::<T>().mul_spec(q[0].mul_spec(q[0]).add_spec(q[2].mul_spec(q[2]))),
        ),
    )
}

/// `pitch` is a pitch for the arc sine argument `sine`: a quarter turn with
/// the sign of `sine` where its magnitude is at least one (gimbal lock),
/// else its arc sine.
pub open spec fn is_pitch<T: Scalar, E: Elementary<T>>(env: &E, sine: T, pitch: T) -> bool {
    if at_least(absolute(sine), one::<T>()) {
        exists|turn: T|
            is_frac_pi_2(env, turn) && pitch == if below(sine, zero::<T>()) {
                turn.neg_spec()
            } else {
                turn
            }
    } else {
        is_asin(env, sine, pitch)
    }
}

/// Every part negated.
pub open spec fn negated<T: Scalar>(q: Seq<T>) -> Seq<T> {
    seq![q[0].neg_spec(), q[1].neg_spec(), q[2].neg_spec(), q[3].neg_spec()]
}

/// The end point `b` as it enters an interpolation from `a`: negated where
/// the inner product of the two is negative, so that the shorter arc is
/// taken.
pub open spec fn near_side<T: Scalar>(a: Seq<T>, b: Seq<T>) -> Seq<T> {
    if below(dot4(a, b), zero::<T>()) {
        negated(b)
    } else {
        b
    }
}

/// The inner product of `a` with the near side of `b`.
pub open spec fn near_dot<T: Scalar>(a: Seq<T>, b: Seq<T>) -> T {
    if below(dot4(a, b), zero::<T>()) {
        dot4(a, b).neg_spec()
    } else {
        dot4(a, b)
    }
}

/// The point at `t` on the chord from `a` to `b`, before it is normalised:
/// `a + (b − a) · t`.
pub open spec fn chord<T: Scalar>(a: Seq<T>, b: Seq<T>, t: T) -> Seq<T> {
    seq![
        a[0].add_spec(t.mul_spec(b[0].sub_spec(a[0]))),
        a[1].add_spec(t.mul_spec(b[1].sub_spec(a[1]))),
        a[2].add_spec(t.mul_spec(b[2].sub_spec(a[2]))),
        a[3].add_spec(b[3].sub_spec(a[3]).mul_spec(t)),
    ]
}

/// The weighted sum `a · wa + b · wb`, before it is normalised.
pub open spec fn blend<T: Scalar>(a: Seq<T>, b: Seq<T>, wa: T, wb: T) -> Seq<T> {
    seq![
        wa.mul_spec(a[0]).add_spec(wb.mul_spec(b[0])),
        wa.mul_spec(a[1]).add_spec(wb.mul_spec(b[1])),
        wa.mul_spec(a[2]).add_spec(wb.mul_spec(b[2])),
        a[3].mul_spec(wa).add_spec(b[3].mul_spec(wb)),
    ]
}

/// `raw` is a point that interpolates from `a` to `b` at `t`, before it is
/// normalised: the point on the chord where the two are closer than
/// [`closeness`], else the point on the arc, with weights
/// `sin(θ₀ − θ₀t) / sin θ₀` and `sin(θ₀t) / sin θ₀` for the angle
/// `θ₀ = acos(a · b)`.
pub open spec fn is_between<T: Scalar, E: Elementary<T>>(
    env: &E,
    a: Seq<T>,
    b: Seq<T>,
    t: T,
    raw: Seq<T>,
) -> bool {
    let near = near_side(a, b);
    let cosine = near_dot(a, b);
    if above(cosine, closeness::<T>()) {
        raw == chord(a, near, t)
    } else {
        exists|angle: T, sine: T, sine_a: T, sine_b: T|
            {
                &&& is_acos(env, cosine, angle)
                &&& is_sin(env, angle, sine)
                &&& is_sin(env, angle.sub_spec(angle.mul_spec(t)), sine_a)
                &&& is_sin(env, angle.mul_spec(t), sine_b)
                &&& raw == blend(a, near, sine_a.div_spec(sine), sine_b.div_spec(sine))
            }
    }
}

/// An interpolation from a quaternion to itself stays at the quaternion,
/// whatever `t`, before it is normalised. It holds of a quaternion that is
/// closer to itself than [`closeness`], as one of magnitude one is, and
/// whose parts take part in sums and differences as numbers do: a part
/// that is infinite or no number does not.
pub proof fn between_itself<T: Scalar, E: Elementary<T>>(env: &E, q: Seq<T>, t: T, raw: Seq<T>)
    requires
        q.len() == 4,
        is_between(env, q, q, t, raw),
        above(dot4(q, q), closeness::<T>()),
        !below(dot4(q, q), zero::<T>()),
        t.mul_spec(zero::<T>()) == zero::<T>(),
        zero::<T>().mul_spec(t) == zero::<T>(),
        forall|i: int|
            0 <= i < 4 ==> (#[trigger] q[i]).sub_spec(q[i]) == zero::<T>() && q[i].add_spec(
                zero::<T>(),
            ) == q[i],
    ensures
        raw == q,
{
    assert(near_side(q, q) == q);
    assert(q[0].sub_spec(q[0]) == zero::<T>() && q[0].add_spec(zero::<T>()) == q[0]);
    assert(q[1].sub_spec(q[1]) == zero::<T>() && q[1].add_spec(zero::<T>()) == q[1]);
    assert(q[2].sub_spec(q[2]) == zero::<T>() && q[2].add_spec(zero::<T>()) == q[2]);
    assert(q[3].sub_spec(q[3]) == zero::<T>() && q[3].add_spec(zero::<T>()) == q[3]);
    assert(chord(q, q, t) =~= q);
}

impl<T> UnitQuaternion<T> {
    /// The quaternion that the value holds.
    pub closed spec fn quaternion(self) -> Quaternion<T> {
        self.quat
    }

    /// The four parts `x`, `y`, `z`, `w`.
    pub open spec fn parts(self) -> Seq<T> {
        self.quaternion().parts()
    }
}

impl<T: Scalar> UnitQuaternion<T> {
    /// `self` is a result of normalising the quaternion with the parts
    /// `raw`.
    pub open spec fn is_unit_of<E: Elementary<T>>(self, raw: Seq<T>, env: &E) -> bool {
        self.quaternion().is_versor_of(Quaternion::of_parts(raw), env)
    }

    /// The unit quaternion in the direction of `quat`.
    pub fn from_quaternion<E: Elementary<T>>(quat: &Quaternion<T>, env: &E) -> (r: Self)
        requires
            total::<T>(),
        ensures
            exact::<T>() ==> r.is_unit_of(quat.parts(), env),
    {
        let r = UnitQuaternion { quat: quat.normalize(env) };
        proof {
            quat.vector.arity();
            Quaternion::parts_of_parts(quat.parts());
            quat.same_parts(Quaternion::of_parts(quat.parts()));
        }
        r
    }

    /// The unit quaternion in the direction of the quaternion with the
    /// given vector and scalar part.
    pub fn new_normalized<E: Elementary<T>>(vector: Vec3<T>, scalar: T, env: &E) -> (r: Self)
        requires
            total::<T>(),
        ensures
            exact::<T>() ==> r.is_unit_of(Quaternion { vector, scalar }.parts(), env),
    {
        Self::from_quaternion(&Quaternion { vector, scalar }, env)
    }

    /// The unit quaternion in the direction of the quaternion with the
    /// parts `x`, `y`, `z`, `w` of `array`.
    pub fn from_array<E: Elementary<T>>(array: &[T; 4], env: &E) -> (r: Self)
        requires
            total::<T>(),
        ensures
            exact::<T>() ==> r.is_unit_of(array@, env),
    {
        let vector = Vec3::new(array[0], array[1], array[2]);
        let scalar = array[3];
        let r = Self::new_normalized(vector, scalar, env);
        assert(Quaternion { vector, scalar }.parts() =~= array@);
        r
    }

    /// The identity rotation.
    pub fn identity() -> (r: Self)
        ensures
            embeds::<T>() ==> r.parts() == identity_parts::<T>(),
    {
        UnitQuaternion { quat: Quaternion::identity() }
    }

    /// The conjugate, which for a unit quaternion is the opposite rotation.
    pub fn conjugate<E: Elementary<T>>(&self, env: &E) -> (r: Self)
        requires
            total::<T>(),
        ensures
            exact::<T>() ==> r.is_unit_of(conjugated(self.parts()), env),
    {
        Self::from_quaternion(&self.quat.conjugate(), env)
    }

    /// The opposite rotation: the conjugate.
    pub fn inverse<E: Elementary<T>>(&self, env: &E) -> (r: Self)
        requires
            total::<T>(),
        ensures
            exact::<T>() ==> r.is_unit_of(conjugated(self.parts()), env),
    {
        self.conjugate(env)
    }

    /// The rotation by `angle` about the x axis.
    pub fn from_x_axis<E: Elementary<T>>(angle: T, env: &E) -> (r: Self)
        requires
            total::<T>(),
        ensures
            exact::<T>() ==> exists|raw: Quaternion<T>|
                {
                    &&& raw.is_rotation_about(crate::quaternion::axis_unit::<T>(0), angle, env)
                    &&& r.is_unit_of(raw.parts(), env)
                },
    {
        let raw = Quaternion::from_x_axis(angle, env);
        let r = Self::from_quaternion(&raw, env);
        assert(exact::<T>() ==> raw.is_rotation_about(
            crate::quaternion::axis_unit::<T>(0),
            angle,
            env,
        ) && r.is_unit_of(raw.parts(), env));
        r
    }

    /// The rotation by `angle` about the y axis.
    pub fn from_y_axis<E: Elementary<T>>(angle: T, env: &E) -> (r: Self)
        requires
            total::<T>(),
        ensures
            exact::<T>() ==> exists|raw: Quaternion<T>|
                {
                    &&& raw.is_rotation_about(crate::quaternion::axis_unit::<T>(1), angle, env)
                    &&& r.is_unit_of(raw.parts(), env)
                },
    {
        let raw = Quaternion::from_y_axis(angle, env);
        let r = Self::from_quaternion(&raw, env);
        assert(exact::<T>() ==> raw.is_rotation_about(
            crate::quaternion::axis_unit::<T>(1),
            angle,
            env,
        ) && r.is_unit_of(raw.parts(), env));
        r
    }

    /// The rotation by `angle` about the z axis.
    pub fn from_z_axis<E: Elementary<T>>(angle: T, env: &E) -> (r: Self)
        requires
            total::<T>(),
        ensures
            exact::<T>() ==> exists|raw: Quaternion<T>|
                {
                    &&& raw.is_rotation_about(crate::quaternion::axis_unit::<T>(2), angle, env)
                    &&& r.is_unit_of(raw.parts(), env)
                },
    {
        let raw = Quaternion::from_z_axis(angle, env);
        let r = Self::from_quaternion(&raw, env);
        assert(exact::<T>() ==> raw.is_rotation_about(
            crate::quaternion::axis_unit::<T>(2),
            angle,
            env,
        ) && r.is_unit_of(raw.parts(), env));
        r
    }

    /// The rotation by `angle` about the direction of `axis`.
    pub fn from_axis_angle<E: Elementary<T>>(axis: Vec3<T>, angle: T, env: &E) -> (r: Self)
        requires
            total::<T>(),
        ensures
            exact::<T>() ==> exists|direction: Vec3<T>, raw: Quaternion<T>|
                {
                    &&& direction.vector().is_direction_of(axis.vector(), env)
                    &&& raw.is_rotation_about(direction.components(), angle, env)
                    &&& r.is_unit_of(raw.parts(), env)
                },
    {
        let raw = Quaternion::from_axis_angle(axis, angle, env);
        let r = Self::from_quaternion(&raw, env);
        proof {
            if exact::<T>() {
                let direction = choose|direction: Vec3<T>|
                    direction.vector().is_direction_of(axis.vector(), env)
                        && raw.is_rotation_about(direction.components(), angle, env);
                assert(direction.vector().is_direction_of(axis.vector(), env)
                    && raw.is_rotation_about(direction.components(), angle, env) && r.is_unit_of(
                    raw.parts(),
                    env,
                ));
            }
        }
        r
    }

    /// The rotation that turns by `z` about the z axis, then by `x` about
    /// the x axis, then by `y` about the y axis.
    pub fn from_euler_angles<E: Elementary<T>>(x: T, y: T, z: T, env: &E) -> (r: Self)
        requires
            total::<T>(),
        ensures
            exact::<T>() ==> exists|qx: Quaternion<T>, qy: Quaternion<T>, qz: Quaternion<T>|
                {
                    &&& qx.is_rotation_about(crate::quaternion::axis_unit::<T>(0), x, env)
                    &&& qy.is_rotation_about(crate::quaternion::axis_unit::<T>(1), y, env)
                    &&& qz.is_rotation_about(crate::quaternion::axis_unit::<T>(2), z, env)
                    &&& r.is_unit_of(hamilton(hamilton(qy.parts(), qx.parts()), qz.parts()), env)
                },
    {
        let raw = Quaternion::from_euler_angles_yxz(x, y, z, env);
        let r = Self::from_quaternion(&raw, env);
        proof {
            if exact::<T>() {
                let (qx, qy, qz) = choose|qx: Quaternion<T>, qy: Quaternion<T>, qz: Quaternion<T>|
                    {
                        &&& qx.is_rotation_about(crate::quaternion::axis_unit::<T>(0), x, env)
                        &&& qy.is_rotation_about(crate::quaternion::axis_unit::<T>(1), y, env)
                        &&& qz.is_rotation_about(crate::quaternion::axis_unit::<T>(2), z, env)
                        &&& raw.parts() == hamilton(hamilton(qy.parts(), qx.parts()), qz.parts())
                    };
                assert(qx.is_rotation_about(crate::quaternion::axis_unit::<T>(0), x, env)
                    && qy.is_rotation_about(crate::quaternion::axis_unit::<T>(1), y, env)
                    && qz.is_rotation_about(crate::quaternion::axis_unit::<T>(2), z, env)
                    && r.is_unit_of(
                    hamilton(hamilton(qy.parts(), qx.parts()), qz.parts()),
                    env,
                ));
            }
        }
        r
    }

    /// The branch for `matrix` and the value whose square root scales it.
    pub fn rotation_radicand(matrix: &Matrix<T, 3, 3>) -> (r: (u8, T))
        requires
            total::<T>(),
        ensures
            r.0 <= 3,
            exact::<T>() ==> r.0 == branch(matrix.columns()),
            exact::<T>() ==> r.1 == radicand(matrix.columns(), r.0 as int),
    {
        let m00 = matrix.get(0, 0);
        let m11 = matrix.get(1, 1);
        let m22 = matrix.get(2, 2);
        let unit: T = number(1);
        let sum = m00 + m11 + m22;
        if greater(sum, number(0)) {
            (0, sum + unit)
        } else if greater(m00, m11) && greater(m00, m22) {
            (1, unit + m00 - m11 - m22)
        } else if greater(m11, m22) {
            (2, unit + m11 - m00 - m22)
        } else {
            (3, unit + m22 - m00 - m11)
        }
    }

    /// The quaternion that branch `k` derives from `matrix` and the square
    /// root `root` of its radicand, not yet normalised.
    pub fn rotation_with(matrix: &Matrix<T, 3, 3>, k: u8, root: T) -> (r: Quaternion<T>)
        requires
            total::<T>(),
            k <= 3,
        ensures
            exact::<T>() ==> r.parts() == rotation_parts(matrix.columns(), k as int, root),
    {
        let m = matrix;
        let fourth: T = number::<T>(1) / number::<T>(4);
        let s = root * number(2);
        let large = fourth * s;
        let (x, y, z, w) = if k == 0 {
            (
                (m.get(2, 1) - m.get(1, 2)) / s,
                (m.get(0, 2) - m.get(2, 0)) / s,
                (m.get(1, 0) - m.get(0, 1)) / s,
                large,
            )
        } else if k == 1 {
            (
                large,
                (m.get(0, 1) + m.get(1, 0)) / s,
                (m.get(0, 2) + m.get(2, 0)) / s,
                (m.get(2, 1) - m.get(1, 2)) / s,
            )
        } else if k == 2 {
            (
                (m.get(0, 1) + m.get(1, 0)) / s,
                large,
                (m.get(1, 2) + m.get(2, 1)) / s,
                (m.get(0, 2) - m.get(2, 0)) / s,
            )
        } else {
            (
                (m.get(0, 2) + m.get(2, 0)) / s,
                (m.get(1, 2) + m.get(2, 1)) / s,
                large,
                (m.get(1, 0) - m.get(0, 1)) / s,
            )
        };
        let r = Quaternion { vector: Vec3::new(x, y, z), scalar: w };
        assert(exact::<T>() ==> r.parts() =~= rotation_parts(matrix.columns(), k as int, root));
        r
    }

    /// The rotation of an orthonormal 3×3 rotation matrix, by the trace
    /// method with four branches.
    pub fn from_rotation_matrix<E: Elementary<T>>(matrix: &Matrix<T, 3, 3>, env: &E) -> (r: Self)
        requires
            total::<T>(),
        ensures
            exact::<T>() ==> exists|root: T|
                {
                    &&& is_sqrt(
                        env,
                        radicand(matrix.columns(), branch(matrix.columns())),
                        root,
                    )
                    &&& r.is_unit_of(
                        rotation_parts(matrix.columns(), branch(matrix.columns()), root),
                        env,
                    )
                },
    {
        let (k, value) = Self::rotation_radicand(matrix);
        let root = env.sqrt(value);
        let raw = Self::rotation_with(matrix, k, root);
        let r = Self::from_quaternion(&raw, env);
        assert(exact::<T>() ==> is_sqrt(
            env,
            radicand(matrix.columns(), branch(matrix.columns())),
            root,
        ) && r.is_unit_of(rotation_parts(matrix.columns(), branch(matrix.columns()), root), env));
        r
    }

    /// The rotation of the upper left 3×3 block of a homogeneous matrix.
    pub fn from_homogeneous_matrix<E: Elementary<T>>(matrix: &Matrix<T, 4, 4>, env: &E) -> (r:
        Self)
        requires
            total::<T>(),
        ensures
            exact::<T>() ==> exists|block: Matrix<T, 3, 3>, root: T|
                {
                    &&& forall|m: int, n: int|
                        0 <= m < 3 && 0 <= n < 3 ==> block.at(m, n) == matrix.at(m, n)
                    &&& is_sqrt(env, radicand(block.columns(), branch(block.columns())), root)
                    &&& r.is_unit_of(
                        rotation_parts(block.columns(), branch(block.columns()), root),
                        env,
                    )
                },
    {
        let block = matrix.view::<3, 3>(0, 0);
        let r = Self::from_rotation_matrix(&block, env);
        proof {
            if exact::<T>() {
                let root = choose|root: T|
                    is_sqrt(env, radicand(block.columns(), branch(block.columns())), root)
                        && r.is_unit_of(
                        rotation_parts(block.columns(), branch(block.columns()), root),
                        env,
                    );
                assert((forall|m: int, n: int|
                    0 <= m < 3 && 0 <= n < 3 ==> block.at(m, n) == matrix.at(m, n)) && is_sqrt(
                    env,
                    radicand(block.columns(), branch(block.columns())),
                    root,
                ) && r.is_unit_of(
                    rotation_parts(block.columns(), branch(block.columns()), root),
                    env,
                ));
            }
        }
        r
    }

    /// The vector `vector` turned by this rotation: the vector part of
    /// `q · (v, 0) · q*`.
    pub fn rotate_vector(&self, vector: Vec3<T>) -> (r: Vec3<T>)
        requires
            total::<T>(),
        ensures
            exact::<T>() ==> r.components() == vector_part(
                hamilton(
                    hamilton(
                        self.parts(),
                        seq![
                            vector.components()[0],
                            vector.components()[1],
                            vector.components()[2],
                            zero::<T>(),
                        ],
                    ),
                    conjugated(self.parts()),
                ),
            ),
    {
        let pure = Quaternion::from(vector);
        let conjugate = self.quat.conjugate();
        let rotated = self.quat * pure * conjugate;
        proof {
            if exact::<T>() {
                rotated.vector.arity();
                assert(pure.parts() =~= seq![
                    vector.components()[0],
                    vector.components()[1],
                    vector.components()[2],
                    zero::<T>(),
                ]);
                assert(rotated.vector.components() =~= vector_part(rotated.parts()));
            }
        }
        rotated.vector
    }

    /// The axis and the angle for the arc cosine `arc` of the scalar part,
    /// the half-angle sine `sine` and the threshold `epsilon`.
    pub fn axis_angle_with(&self, arc: T, sine: T, epsilon: T) -> (r: (Vec3<T>, T))
        requires
            total::<T>(),
        ensures
            exact::<T>() ==> r.0.components() == axis_of(self.parts(), sine, epsilon),
            exact::<T>() ==> r.1 == two::<T>().mul_spec(arc),
    {
        let double: T = number(2);
        let angle = double * arc;
        if less(sine, epsilon) {
            (Vec3::new(number(1), number(0), number(0)), angle)
        } else {
            let axis = self.quat.vector / sine;
            proof {
                self.quat.vector.arity();
                assert(vector_part(self.parts()) =~= self.quat.vector.components());
            }
            (axis, angle)
        }
    }

    /// The axis and the angle of the rotation: the angle is twice the arc
    /// cosine of the scalar part, the axis the vector part divided by the
    /// sine of half the angle, or the x axis where that sine is below
    /// machine epsilon.
    pub fn to_axis_angle<E: Elementary<T>>(&self, env: &E) -> (r: (Vec3<T>, T))
        requires
            total::<T>(),
        ensures
            exact::<T>() ==> exists|arc: T, sine: T, epsilon: T|
                {
                    &&& is_acos(env, self.parts()[3], arc)
                    &&& is_sqrt(env, sine_squared(self.parts()[3]), sine)
                    &&& is_epsilon(env, epsilon)
                    &&& r.0.components() == axis_of(self.parts(), sine, epsilon)
                    &&& r.1 == two::<T>().mul_spec(arc)
                },
    {
        let w = self.quat.scalar;
        let arc = env.acos(w);
        let unit: T = number(1);
        let sine = env.sqrt(unit - w * w);
        let epsilon = env.epsilon();
        let r = self.axis_angle_with(arc, sine, epsilon);
        assert(exact::<T>() ==> is_acos(env, self.parts()[3], arc) && is_sqrt(
            env,
            sine_squared(self.parts()[3]),
            sine,
        ) && is_epsilon(env, epsilon) && r.0.components() == axis_of(self.parts(), sine, epsilon)
            && r.1 == two::<T>().mul_spec(arc));
        r
    }

    /// The arguments from which the Euler angles are taken: that of the arc
    /// sine for the pitch, and the two pairs of the arc tangents for the yaw
    /// and the roll.
    pub fn euler_arguments(&self) -> (r: (T, (T, T), (T, T)))
        requires
            total::<T>(),
        ensures
            exact::<T>() ==> r.0 == pitch_sine(self.parts()),
            exact::<T>() ==> r.1 == yaw_terms(self.parts()),
            exact::<T>() ==> r.2 == roll_terms(self.parts()),
    {
        let qx = self.quat.vector.x();
        let qy = self.quat.vector.y();
        let qz = self.quat.vector.z();
        let qw = self.quat.scalar;
        let unit: T = number(1);
        let double: T = number(2);
        (
            double * (qw * qx - qy * qz),
            (double * (qw * qy + qx * qz), unit - double * (qx * qx + qy * qy)),
            (double * (qw * qz + qx * qy), unit - double * (qx * qx + qz * qz)),
        )
    }

    /// The Euler angles pitch (about x), yaw (about y) and roll (about z).
    /// At gimbal lock, where the arc sine argument reaches magnitude one,
    /// the pitch is a quarter turn with the sign of the argument.
    pub fn to_euler_angles<E: Elementary<T>>(&self, env: &E) -> (r: Vec3<T>)
        requires
            total::<T>(),
        ensures
            exact::<T>() ==> exists|pitch: T, yaw: T, roll: T|
                {
                    &&& is_pitch(env, pitch_sine(self.parts()), pitch)
                    &&& is_atan2(
                        env,
                        yaw_terms(self.parts()).0,
                        yaw_terms(self.parts()).1,
                        yaw,
                    )
                    &&& is_atan2(
                        env,
                        roll_terms(self.parts()).0,
                        roll_terms(self.parts()).1,
                        roll,
                    )
                    &&& r.components() == seq![pitch, yaw, roll]
                },
    {
        let (sine, yaw_pair, roll_pair) = self.euler_arguments();
        let unit: T = number(1);
        let pitch = if greater_or_equal(abs(sine), unit) {
            let turn = env.frac_pi_2();
            let signed = if less(sine, number(0)) {
                turn.neg()
            } else {
                turn
            };
            assert(exact::<T>() ==> is_frac_pi_2(env, turn) && signed == if below(
                sine,
                zero::<T>(),
            ) {
                turn.neg_spec()
            } else {
                turn
            });
            signed
        } else {
            env.asin(sine)
        };

        let yaw = env.atan2(yaw_pair.0, yaw_pair.1);
        let roll = env.atan2(roll_pair.0, roll_pair.1);

        let r = Vec3::new(pitch, yaw, roll);
        assert(exact::<T>() ==> is_pitch(env, pitch_sine(self.parts()), pitch) && is_atan2(
            env,
            yaw_terms(self.parts()).0,
            yaw_terms(self.parts()).1,
            yaw,
        ) && is_atan2(env, roll_terms(self.parts()).0, roll_terms(self.parts()).1, roll)
            && r.components() == seq![pitch, yaw, roll]);
        r
    }

    /// The 4×4 rotation matrix.
    pub fn homogeneous_matrix(&self) -> (r: Matrix<T, 4, 4>)
        requires
            total::<T>(),
        ensures
            exact::<T>() ==> forall|m: int, n: int|
                0 <= m < 4 && 0 <= n < 4 ==> r.at(m, n) == rotation_entry(self.parts(), m, n),
    {
        let x = self.quat.vector.x();
        let y = self.quat.vector.y();
        let z = self.quat.vector.z();
        let w = self.quat.scalar;
        let nought: T = number(0);
        let unit: T = number(1);
        let double: T = number(2);

        let xx = x * x;
        let yy = y * y;
        let zz = z * z;
        let xy = x * y;
        let xz = x * z;
        let yz = y * z;
        let wx = w * x;
        let wy = w * y;
        let wz = w * z;

        let columns = [
            [unit - double * (yy + zz), double * (xy + wz), double * (xz - wy), nought],
            [double * (xy - wz), unit - double * (xx + zz), double * (yz + wx), nought],
            [double * (xz + wy), double * (yz - wx), unit - double * (xx + yy), nought],
            [nought, nought, nought, unit],
        ];
        let r = Matrix::from(columns);
        assert(exact::<T>() ==> forall|m: int, n: int|
            0 <= m < 4 && 0 <= n < 4 ==> r.at(m, n) == rotation_entry(self.parts(), m, n)) by {
            assert forall|m: int, n: int| 0 <= m < 4 && 0 <= n < 4 && exact::<T>() implies r.at(
                m,
                n,
            ) == rotation_entry(self.parts(), m, n) by {
                assert(r.at(m, n) == columns@[n]@[m]);
            }
        }
        r
    }

    /// The 3×3 rotation matrix: the upper left block of the 4×4 one.
    pub fn rotation_matrix(&self) -> (r: Matrix<T, 3, 3>)
        requires
            total::<T>(),
        ensures
            exact::<T>() ==> forall|m: int, n: int|
                0 <= m < 3 && 0 <= n < 3 ==> r.at(m, n) == rotation_entry(self.parts(), m, n),
    {
        self.homogeneous_matrix().view::<3, 3>(0, 0)
    }

    /// The end point `other` as it enters an interpolation from `self`,
    /// negated where the inner product of the two is negative, and the
    /// inner product of `self` with it.
    pub fn near_side_of(&self, other: &Self) -> (r: (Quaternion<T>, T))
        requires
            total::<T>(),
        ensures
            exact::<T>() ==> r.0.parts() == near_side(self.parts(), other.parts()),
            exact::<T>() ==> r.1 == near_dot(self.parts(), other.parts()),
    {
        let cosine = self.quat.dot(&other.quat);
        if less(cosine, number(0)) {
            let near = Quaternion { vector: other.quat.vector.neg(), scalar: other.quat.scalar.neg() };
            proof {
                other.quat.vector.arity();
                assert(exact::<T>() ==> near.parts() =~= near_side(self.parts(), other.parts()));
            }
            (near, cosine.neg())
        } else {
            (other.quat, cosine)
        }
    }

    /// The point between `self` and the near side of `other` at `t`, not
    /// yet normalised, where the two are close: the point on the chord.
    pub fn chord_to(&self, near: &Quaternion<T>, t: T) -> (r: Quaternion<T>)
        requires
            total::<T>(),
        ensures
            exact::<T>() ==> r.parts() == chord(self.parts(), near.parts(), t),
    {
        let r = Quaternion {
            vector: self.quat.vector + (near.vector - self.quat.vector) * t,
            scalar: self.quat.scalar + (near.scalar - self.quat.scalar) * t,
        };
        proof {
            self.quat.vector.arity();
            near.vector.arity();
            assert(exact::<T>() ==> r.parts() =~= chord(self.parts(), near.parts(), t));
        }
        r
    }

    /// The weighted sum `self · wa + near · wb`, not yet normalised.
    pub fn blend_with(&self, near: &Quaternion<T>, wa: T, wb: T) -> (r: Quaternion<T>)
        requires
            total::<T>(),
        ensures
            exact::<T>() ==> r.parts() == blend(self.parts(), near.parts(), wa, wb),
    {
        let r = Quaternion {
            vector: self.quat.vector * wa + near.vector * wb,
            scalar: self.quat.scalar * wa + near.scalar * wb,
        };
        proof {
            self.quat.vector.arity();
            near.vector.arity();
            assert(exact::<T>() ==> r.parts() =~= blend(self.parts(), near.parts(), wa, wb));
        }
        r
    }

    /// The rotation at `t` on the shorter arc from `self` to `other`:
    /// `self` at zero, `other` at one. Where the two are closer than
    /// [`closeness`] the point is taken on the chord.
    pub fn slerp<E: Elementary<T>>(&self, other: &Self, t: T, env: &E) -> (r: Self)
        requires
            total::<T>(),
        ensures
            exact::<T>() ==> exists|raw: Seq<T>|
                is_between(env, self.parts(), other.parts(), t, raw) && r.is_unit_of(raw, env),
    {
        let (near, cosine) = self.near_side_of(other);
        let threshold: T = number::<T>(9995) / number::<T>(10000);
        if greater(cosine, threshold) {
            let raw = self.chord_to(&near, t);
            let r = Self::from_quaternion(&raw, env);
            assert(exact::<T>() ==> is_between(env, self.parts(), other.parts(), t, raw.parts())
                && r.is_unit_of(raw.parts(), env));
            return r;
        }
        let angle = env.acos(cosine);
        let part = angle * t;
        let sine = env.sin(angle);
        let sine_a = env.sin(angle - part);
        let sine_b = env.sin(part);
        let raw = self.blend_with(&near, sine_a / sine, sine_b / sine);
        let r = Self::from_quaternion(&raw, env);
        proof {
            if exact::<T>() {
                assert(is_acos(env, near_dot(self.parts(), other.parts()), angle) && is_sin(
                    env,
                    angle,
                    sine,
                ) && is_sin(env, angle.sub_spec(angle.mul_spec(t)), sine_a) && is_sin(
                    env,
                    angle.mul_spec(t),
                    sine_b,
                ) && raw.parts() == blend(
                    self.parts(),
                    near_side(self.parts(), other.parts()),
                    sine_a.div_spec(sine),
                    sine_b.div_spec(sine),
                ));
                assert(is_between(env, self.parts(), other.parts(), t, raw.parts()));
                assert(r.is_unit_of(raw.parts(), env));
            }
        }
        r
    }

    /// The rotation `rhs` followed by `self`: the Hamilton product,
    /// normalised.
    pub fn times<E: Elementary<T>>(&self, rhs: &Self, env: &E) -> (r: Self)
        requires
            total::<T>(),
        ensures
            exact::<T>() ==> r.is_unit_of(hamilton(self.parts(), rhs.parts()), env),
    {
        Self::from_quaternion(&(self.quat * rhs.quat), env)
    }

    /// Replaces the rotation by itself after `rhs`: by `self.times(rhs)`.
    pub fn times_assign<E: Elementary<T>>(&mut self, rhs: &Self, env: &E)
        requires
            total::<T>(),
        ensures
            exact::<T>() ==> final(self).is_unit_of(
                hamilton(old(self).parts(), rhs.parts()),
                env,
            ),
    {
        *self = self.times(rhs, env);
    }
}

impl<T: Scalar> Default for UnitQuaternion<T> {
    /// The identity rotation.
    fn default() -> (r: Self)
        ensures
            embeds::<T>() ==> r.parts() == identity_parts::<T>(),
    {
        Self::identity()
    }
}

impl<T: Scalar> FromSpecImpl<UnitQuaternion<T>> for Quaternion<T> {
    open spec fn obeys_from_spec() -> bool {
        true
    }

    open spec fn from_spec(unit: UnitQuaternion<T>) -> Self {
        unit.quaternion()
    }
}

impl<T: Scalar> From<UnitQuaternion<T>> for Quaternion<T> {
    /// The quaternion that a unit quaternion holds.
    fn from(unit: UnitQuaternion<T>) -> (r: Self) {
        unit.quat
    }
}

impl<T> Deref for UnitQuaternion<T> {
    type Target = Quaternion<T>;

    /// The quaternion, for reading its vector and scalar part.
    fn deref(&self) -> (r: &Quaternion<T>)
        ensures
            *r == self.quaternion(),
    {
        &self.quat
    }
}

} // verus!
