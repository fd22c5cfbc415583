//! The scalar abstraction: what a matrix entry has to offer.
//!
//! Entries are any copyable type with the five arithmetic operators, an order
//! and an embedding of the small unsigned integers. Contracts speak of the
//! operators through the specification functions that `vstd` attaches to the
//! operator traits; they are conditional on [`exact`], which says that the
//! operators of `T` are functions of their operands.
use core::cmp::Ordering;
use core::ops::{Add, Div, Mul, Neg, Sub};
use vstd::prelude::*;
use vstd::std_specs::cmp::PartialOrdSpec;
use vstd::std_specs::convert::FromSpec;
use vstd::std_specs::ops::{AddSpec, DivSpec, MulSpec, NegSpec, SubSpec};

verus! {

/// A matrix entry: copyable, with `+ - * /`, unary minus, `<` and a
/// conversion from `i16`.
pub trait Scalar: Copy + Add<Output = Self> + Sub<Output = Self> + Mul<Output = Self> + Div<
    Output = Self,
> + Neg<Output = Self> + PartialOrd + From<i16> {

}

impl<
    T: Copy + Add<Output = T> + Sub<Output = T> + Mul<Output = T> + Div<Output = T> + Neg<
        Output = T,
    > + PartialOrd + From<i16>,
> Scalar for T {

}

/// Every operator of `T` accepts every operand: no operation of the library
/// can fault inside the scalar type.
pub open spec fn total<T: Scalar>() -> bool {
    &&& forall|x: T, y: T| #[trigger] x.add_req(y)
    &&& forall|x: T, y: T| #[trigger] x.sub_req(y)
    &&& forall|x: T, y: T| #[trigger] x.mul_req(y)
    &&& forall|x: T, y: T| #[trigger] x.div_req(y)
    &&& forall|x: T| #[trigger] x.neg_req()
}

/// The comparison of `T` follows its specification.
pub open spec fn ordered<T: Scalar>() -> bool {
    T::obeys_partial_cmp_spec()
}

/// The conversion from `i16` follows its specification.
pub open spec fn embeds<T: Scalar>() -> bool {
    <T as FromSpec<i16>>::obeys_from_spec()
}

/// The operators, the order and the embedding of `T` all follow their
/// specifications, so that each result is a function of the operands.
pub open spec fn exact<T: Scalar>() -> bool {
    &&& T::obeys_add_spec()
    &&& T::obeys_sub_spec()
    &&& T::obeys_mul_spec()
    &&& T::obeys_div_spec()
    &&& T::obeys_neg_spec()
    &&& ordered::<T>()
    &&& embeds::<T>()
}

/// The scalar that stands for the integer `k`.
pub open spec fn numeral<T: Scalar>(k: i16) -> T {
    T::from_spec(k)
}

/// The scalar zero.
pub open spec fn zero<T: Scalar>() -> T {
    numeral::<T>(0)
}

/// The scalar one.
pub open spec fn one<T: Scalar>() -> T {
    numeral::<T>(1)
}

/// The scalar two.
pub open spec fn two<T: Scalar>() -> T {
    numeral::<T>(2)
}

/// `x` behaves towards zero and one as a number does: one is neutral in a
/// product with it, zero is neutral in a sum or difference with it, and
/// its product with zero is zero. Of the values of a floating-point type
/// the finite ones but negative zero are such; an infinity is not, since
/// its product with zero is no number.
pub open spec fn plain<T: Scalar>(x: T) -> bool {
    &&& x.mul_spec(one::<T>()) == x
    &&& one::<T>().mul_spec(x) == x
    &&& x.mul_spec(zero::<T>()) == zero::<T>()
    &&& zero::<T>().add_spec(x) == x
    &&& x.add_spec(zero::<T>()) == x
    &&& x.sub_spec(zero::<T>()) == x
}

/// Half of `x`.
pub open spec fn half<T: Scalar>(x: T) -> T {
    x.div_spec(two::<T>())
}

/// `a < b`.
pub open spec fn below<T: Scalar>(a: T, b: T) -> bool {
    a.partial_cmp_spec(&b) == Some(Ordering::Less)
}

/// `a > b`.
pub open spec fn above<T: Scalar>(a: T, b: T) -> bool {
    a.partial_cmp_spec(&b) == Some(Ordering::Greater)
}

/// `a <= b`.
pub open spec fn at_most<T: Scalar>(a: T, b: T) -> bool {
    a.partial_cmp_spec(&b) matches Some(Ordering::Less | Ordering::Equal)
}

/// `a >= b`.
pub open spec fn at_least<T: Scalar>(a: T, b: T) -> bool {
    a.partial_cmp_spec(&b) matches Some(Ordering::Greater | Ordering::Equal)
}

/// The magnitude of `x`: `-x` where `x` lies below zero, else `x`.
pub open spec fn absolute<T: Scalar>(x: T) -> T {
    if below(x, zero::<T>()) {
        x.neg_spec()
    } else {
        x
    }
}

/// The scalar for the integer `k`.
pub fn number<T: Scalar>(k: i16) -> (r: T)
    ensures
        embeds::<T>() ==> r == numeral::<T>(k),
{
    T::from(k)
}

/// Whether `a < b`.
pub fn less<T: Scalar>(a: T, b: T) -> (r: bool)
    ensures
        ordered::<T>() ==> r == below(a, b),
{
    a < b
}

/// Whether `a > b`.
pub fn greater<T: Scalar>(a: T, b: T) -> (r: bool)
    ensures
        ordered::<T>() ==> r == above(a, b),
{
    a > b
}

/// Whether `a <= b`.
pub fn less_or_equal<T: Scalar>(a: T, b: T) -> (r: bool)
    ensures
        ordered::<T>() ==> r == at_most(a, b),
{
    a <= b
}

/// Whether `a >= b`.
pub fn greater_or_equal<T: Scalar>(a: T, b: T) -> (r: bool)
    ensures
        ordered::<T>() ==> r == at_least(a, b),
{
    a >= b
}

/// The magnitude of `x`.
pub fn abs<T: Scalar>(x: T) -> (r: T)
    requires
        total::<T>(),
    ensures
        exact::<T>() ==> r == absolute(x),
{
    let z: T = number(0);
    if x < z {
        x.neg()
    } else {
        x
    }
}

} // verus!
