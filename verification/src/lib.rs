//! Fixed-dimension linear algebra for graphics and simulation: column-major
//! matrices and vectors of a size known at compile time, quaternion
//! rotations, and the camera transforms look-at, perspective and
//! orthographic.
//!
//! # Scalars
//!
//! The library is generic in its scalar. A [`Scalar`] is any copyable type
//! with the arithmetic operators, an order and a conversion from small
//! integers; the single and double precision numbers of the standard
//! library are scalars. Two predicates of [`scalar`] speak of the scalar
//! type in contracts:
//!
//! - `total::<T>()`: the operators of `T` accept every operand. Functions
//!   that calculate require it, so that no operation can fault.
//! - `exact::<T>()`: the operators of `T` are functions of their operands.
//!   What a function returns is stated under this condition, operation by
//!   operation and in the order in which the operations are made, since a
//!   scalar that rounds obeys none of the laws of a field.
//!
//! Neither predicate can be proved of a type of the standard library. The
//! operators of the integers fault on overflow and on a zero divisor, so
//! the integers are not total. Those of the floating-point numbers never
//! fault and are functions of their operands but for the bits of a result
//! that is no number, yet `vstd` gives them no specification, so that the
//! verifier can show neither predicate of them. Verified code can call a
//! function that requires `total::<T>()` with a scalar type of its own whose
//! operators it has specified, or where it is itself generic and requires
//! the same. Code that is not verified and uses floating-point scalars
//! relies on what is said of them here, not on a proof.
//!
//! # Elementary functions
//!
//! Square roots, trigonometric functions and the machine epsilon are no
//! operators. A function that needs one takes them from an
//! [`Elementary`] value that the caller passes. Nothing is assumed of
//! what such a value returns: a contract says for which argument it was
//! asked and what was done with the answer. The steps between the
//! questions are public functions of their own, which take the answers as
//! plain arguments.
//!
//! # Models
//!
//! A matrix is modelled by its columns, a sequence of sequences
//! ([`Matrix::columns`]); a vector by its components; a quaternion by its
//! four parts `x`, `y`, `z`, `w`.
pub mod elementary;
pub mod matrix;
pub mod quaternion;
pub mod scalar;
pub mod scale;
pub mod translation;
pub mod vector;

pub use elementary::Elementary;
pub use matrix::Matrix;
pub use quaternion::unit::UnitQuaternion;
pub use quaternion::Quaternion;
pub use scalar::Scalar;
pub use scale::scale2::Scale2;
pub use scale::scale3::Scale3;
pub use translation::translation2::Translation2;
pub use translation::translation3::Translation3;
pub use vector::vec2::{Vec2, Vector2};
pub use vector::vec3::{Vec3, Vector3};
pub use vector::vec4::{Vec4, Vector4};
pub use vector::Vector;
