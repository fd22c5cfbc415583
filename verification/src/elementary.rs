//! What the library asks of its surroundings: the constants and elementary
//! functions of the scalar type that no operator provides.
//!
//! The library is generic in its scalar and cannot compute a square root or
//! a sine itself. A caller hands in a value that can. Nothing is assumed of
//! what its methods return: a contract that depends on such a result says
//! that the result is one that the method gave for the stated argument, by
//! the predicates below.
use vstd::prelude::*;

verus! {

/// The constants and elementary functions of the scalar type `T`.
pub trait Elementary<T> {
    /// Machine epsilon: the magnitude below which a value counts as zero.
    fn epsilon(&self) -> T;

    /// A quarter turn, π/2.
    fn frac_pi_2(&self) -> T;

    /// The square root of `x`.
    fn sqrt(&self, x: T) -> T;

    /// The sine of the angle `x`, in radians.
    fn sin(&self, x: T) -> T;

    /// The cosine of the angle `x`, in radians.
    fn cos(&self, x: T) -> T;

    /// The tangent of the angle `x`, in radians.
    fn tan(&self, x: T) -> T;

    /// The angle whose sine is `x`.
    fn asin(&self, x: T) -> T;

    /// The angle whose cosine is `x`.
    fn acos(&self, x: T) -> T;

    /// The angle of the point `(x, y)` against the positive x axis.
    fn atan2(&self, y: T, x: T) -> T;
}

/// `r` is a value that `env` gave as machine epsilon.
pub open spec fn is_epsilon<T, E: Elementary<T>>(env: &E, r: T) -> bool {
    call_ensures(E::epsilon, (env,), r)
}

/// `r` is a value that `env` gave as the quarter turn.
pub open spec fn is_frac_pi_2<T, E: Elementary<T>>(env: &E, r: T) -> bool {
    call_ensures(E::frac_pi_2, (env,), r)
}

/// `r` is a value that `env` gave as the square root of `x`.
pub open spec fn is_sqrt<T, E: Elementary<T>>(env: &E, x: T, r: T) -> bool {
    call_ensures(E::sqrt, (env, x), r)
}

/// `r` is a value that `env` gave as the sine of `x`.
pub open spec fn is_sin<T, E: Elementary<T>>(env: &E, x: T, r: T) -> bool {
    call_ensures(E::sin, (env, x), r)
}

/// `r` is a value that `env` gave as the cosine of `x`.
pub open spec fn is_cos<T, E: Elementary<T>>(env: &E, x: T, r: T) -> bool {
    call_ensures(E::cos, (env, x), r)
}

/// `r` is a value that `env` gave as the tangent of `x`.
pub open spec fn is_tan<T, E: Elementary<T>>(env: &E, x: T, r: T) -> bool {
    call_ensures(E::tan, (env, x), r)
}

/// `r` is a value that `env` gave as the arc sine of `x`.
pub open spec fn is_asin<T, E: Elementary<T>>(env: &E, x: T, r: T) -> bool {
    call_ensures(E::asin, (env, x), r)
}

/// `r` is a value that `env` gave as the arc cosine of `x`.
pub open spec fn is_acos<T, E: Elementary<T>>(env: &E, x: T, r: T) -> bool {
    call_ensures(E::acos, (env, x), r)
}

/// `r` is a value that `env` gave as the angle of the point `(x, y)`.
pub open spec fn is_atan2<T, E: Elementary<T>>(env: &E, y: T, x: T, r: T) -> bool {
    call_ensures(E::atan2, (env, y, x), r)
}

} // verus!
