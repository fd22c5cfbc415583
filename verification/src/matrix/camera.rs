//! Camera and projection matrices, 4×4 and right-handed.
use crate::elementary::{is_tan, Elementary};
use crate::matrix::Matrix;
use crate::scalar::{exact, half, number, one, total, two, zero, Scalar};
use crate::vector::vec3::Vec3;
use crate::vector::{cross3, difference_of, dot_of};
use vstd::prelude::*;
use vstd::std_specs::ops::{AddSpec, DivSpec, MulSpec, NegSpec, SubSpec};

verus! {

/// The entry in row `m` of column `n` of the orthographic projection for
/// the box `left..right`, `bottom..top`, `near..far`: the scale terms on
/// the diagonal, the translation terms in the last column, and a last row
/// of zeros before its final one.
pub open spec fn orthographic_entry<T: Scalar>(
    left: T,
    right: T,
    bottom: T,
    top: T,
    near: T,
    far: T,
    m: int,
    n: int,
) -> T {
    if m == 0 && n == 0 {
        two::<T>().div_spec(right.sub_spec(left))
    } else if m == 1 && n == 1 {
        two::<T>().div_spec(top.sub_spec(bottom))
    } else if m == 2 && n == 2 {
        two::<T>().neg_spec().div_spec(far.sub_spec(near))
    } else if m == 0 && n == 3 {
        right.add_spec(left).neg_spec().div_spec(right.sub_spec(left))
    } else if m == 1 && n == 3 {
        top.add_spec(bottom).neg_spec().div_spec(top.sub_spec(bottom))
    } else if m == 2 && n == 3 {
        far.add_spec(near).neg_spec().div_spec(far.sub_spec(near))
    } else if m == 3 && n == 3 {
        one::<T>()
    } else {
        zero::<T>()
    }
}

/// The entry in row `m` of column `n` of the perspective projection with
/// focal factor `f = 1 / tan(fov / 2)`.
pub open spec fn perspective_entry<T: Scalar>(aspect: T, f: T, near: T, far: T, m: int, n: int) -> T {
    if m == 0 && n == 0 {
        f.div_spec(aspect)
    } else if m == 1 && n == 1 {
        f
    } else if m == 2 && n == 2 {
        far.add_spec(near).div_spec(near.sub_spec(far))
    } else if m == 3 && n == 2 {
        one::<T>().neg_spec()
    } else if m == 2 && n == 3 {
        two::<T>().mul_spec(far).mul_spec(near).div_spec(near.sub_spec(far))
    } else {
        zero::<T>()
    }
}

/// The focal factor for the tangent of half the field of view.
pub open spec fn focal<T: Scalar>(tangent: T) -> T {
    one::<T>().div_spec(tangent)
}

/// The entry in row `m` of column `n` of the view matrix of a camera at
/// `eye` that looks along `forward` with `right` to its right. The first
/// three rows hold `right`, the true up `right × forward` and `−forward`;
/// the last column moves `eye` to the origin.
pub open spec fn view_entry<T: Scalar>(
    forward: Seq<T>,
    right: Seq<T>,
    eye: Seq<T>,
    m: int,
    n: int,
) -> T {
    let up = cross3(right, forward);
    if m == 0 && 0 <= n < 3 {
        right[n]
    } else if m == 1 && 0 <= n < 3 {
        up[n]
    } else if m == 2 && 0 <= n < 3 {
        forward[n].neg_spec()
    } else if m == 0 && n == 3 {
        dot_of(right, eye).neg_spec()
    } else if m == 1 && n == 3 {
        dot_of(up, eye).neg_spec()
    } else if m == 2 && n == 3 {
        dot_of(forward, eye)
    } else if m == 3 && n == 3 {
        one::<T>()
    } else {
        zero::<T>()
    }
}

impl<T: Scalar> Matrix<T, 4, 4> {
    /// `self` is the view matrix for `forward`, `right` and `eye`.
    pub open spec fn is_view(self, forward: Vec3<T>, right: Vec3<T>, eye: Vec3<T>) -> bool {
        forall|m: int, n: int|
            0 <= m < 4 && 0 <= n < 4 ==> self.at(m, n) == view_entry(
                forward.components(),
                right.components(),
                eye.components(),
                m,
                n,
            )
    }

    /// `self` is the perspective projection with focal factor `f`.
    pub open spec fn is_perspective(self, aspect: T, f: T, near: T, far: T) -> bool {
        forall|m: int, n: int|
            0 <= m < 4 && 0 <= n < 4 ==> self.at(m, n) == perspective_entry(
                aspect,
                f,
                near,
                far,
                m,
                n,
            )
    }

    /// The orthographic projection for the box `left..right`,
    /// `bottom..top`, `near..far`.
    pub fn orthographic(left: T, right: T, bottom: T, top: T, near: T, far: T) -> (r: Self)
        requires
            total::<T>(),
        ensures
            exact::<T>() ==> forall|m: int, n: int|
                0 <= m < 4 && 0 <= n < 4 ==> r.at(m, n) == orthographic_entry(
                    left,
                    right,
                    bottom,
                    top,
                    near,
                    far,
                    m,
                    n,
                ),
    {
        let double: T = number(2);
        let mut ortho = Self::zeros();
        ortho.set(0, 0, double / (right - left));
        ortho.set(1, 1, double / (top - bottom));
        ortho.set(2, 2, double.neg() / (far - near));
        ortho.set(0, 3, (right + left).neg() / (right - left));
        ortho.set(1, 3, (top + bottom).neg() / (top - bottom));
        ortho.set(2, 3, (far + near).neg() / (far - near));
        ortho.set(3, 3, number(1));
        ortho
    }

    /// The perspective projection for the tangent of half the vertical
    /// field of view.
    pub fn perspective_with(aspect: T, tangent: T, near: T, far: T) -> (r: Self)
        requires
            total::<T>(),
        ensures
            exact::<T>() ==> r.is_perspective(aspect, focal(tangent), near, far),
    {
        let unit: T = number(1);
        let double: T = number(2);
        let f = unit / tangent;
        let mut perspective = Self::zeros();
        perspective.set(0, 0, f / aspect);
        perspective.set(1, 1, f);
        perspective.set(2, 2, (far + near) / (near - far));
        perspective.set(3, 2, unit.neg());
        perspective.set(2, 3, (double * far * near) / (near - far));
        perspective
    }

    /// The perspective projection for the aspect ratio `aspect`, the
    /// vertical field of view `fov` in radians and the clipping planes
    /// `near` and `far`. The entry in row 3 of column 2 is minus one.
    pub fn perspective<E: Elementary<T>>(aspect: T, fov: T, near: T, far: T, env: &E) -> (r: Self)
        requires
            total::<T>(),
        ensures
            exact::<T>() ==> r.at(3, 2) == one::<T>().neg_spec(),
            exact::<T>() ==> exists|tangent: T|
                is_tan(env, half(fov), tangent) && r.is_perspective(
                    aspect,
                    focal(tangent),
                    near,
                    far,
                ),
    {
        let double: T = number(2);
        let tangent = env.tan(fov / double);
        let r = Self::perspective_with(aspect, tangent, near, far);
        assert(exact::<T>() ==> is_tan(env, half(fov), tangent) && r.is_perspective(
            aspect,
            focal(tangent),
            near,
            far,
        ));
        r
    }

    /// The view matrix of a camera at `eye` that looks along the unit
    /// vector `forward` with the unit vector `right` to its right.
    pub fn look_at_with(forward: Vec3<T>, right: Vec3<T>, eye: Vec3<T>) -> (r: Self)
        requires
            total::<T>(),
        ensures
            exact::<T>() ==> r.is_view(forward, right, eye),
    {
        let up = right.cross(&forward);
        let mut view = Self::identity();
        view.set(0, 0, right.x());
        view.set(0, 1, right.y());
        view.set(0, 2, right.z());
        view.set(1, 0, up.x());
        view.set(1, 1, up.y());
        view.set(1, 2, up.z());
        view.set(2, 0, forward.x().neg());
        view.set(2, 1, forward.y().neg());
        view.set(2, 2, forward.z().neg());
        view.set(0, 3, right.dot(&eye).neg());
        view.set(1, 3, up.dot(&eye).neg());
        view.set(2, 3, forward.dot(&eye));
        view
    }

    /// The view matrix of a camera at `eye` that looks at `target`, with
    /// `up` giving the upward direction: forward is the direction from
    /// `eye` to `target`, right the direction of `forward × up`.
    pub fn look_at<E: Elementary<T>>(eye: Vec3<T>, target: Vec3<T>, up: Vec3<T>, env: &E) -> (r:
        Self)
        requires
            total::<T>(),
        ensures
            exact::<T>() ==> exists|toward: Vec3<T>, forward: Vec3<T>, side: Vec3<T>, right: Vec3<T>|
                {
                    &&& toward.components() == difference_of(target.components(), eye.components())
                    &&& forward.vector().is_direction_of(toward.vector(), env)
                    &&& side.components() == cross3(forward.components(), up.components())
                    &&& right.vector().is_direction_of(side.vector(), env)
                    &&& r.is_view(forward, right, eye)
                },
    {
        let toward = target - eye;
        let forward = toward.normalize(env);
        let side = forward.cross(&up);
        let right = side.normalize(env);
        let r = Self::look_at_with(forward, right, eye);
        proof {
            if exact::<T>() {
                assert(toward.components() == difference_of(
                    target.components(),
                    eye.components(),
                ) && forward.vector().is_direction_of(toward.vector(), env)
                    && side.components() == cross3(forward.components(), up.components())
                    && right.vector().is_direction_of(side.vector(), env) && r.is_view(
                    forward,
                    right,
                    eye,
                ));
            }
        }
        r
    }
}

} // verus!
