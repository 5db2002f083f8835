//! Numeric traits of the library and the vocabulary in which contracts speak of
//! the arithmetic of a scalar type `T`.
//!
//! The library is generic over its scalar.  Its operators (`+`, `-`, `*`, `/`,
//! unary `-`, `==`, `<`) are those of `core::ops` and `core::cmp`, whose behaviour
//! vstd describes by `add_spec`, `mul_spec`, ... together with `obeys_*_spec`
//! (whether the implementation follows that description) and `*_req` (the
//! operands on which the operator is defined).  Contracts in this crate state
//! results in terms of those spec functions, under the hypothesis that `T` obeys
//! them.  A function that computes requires each of its operations to be defined:
//! either `T`'s operators accept all operands (as floating-point ones do), or `T`
//! obeys its specifications and the operands that the formula meets are accepted
//! (the `*_defined` predicates of `matrix` and `transform3d`).
use core::ops::{Add, Div, Mul, Neg, Sub};
use vstd::prelude::*;
use vstd::std_specs::cmp::PartialOrdSpec;
use vstd::std_specs::ops::{AddSpec, DivSpec, MulSpec, NegSpec, SubSpec};

verus! {

/// Types that have an additive identity.
pub trait Zero: Sized {
    /// The value that `zero` returns.
    spec fn spec_zero() -> Self;

    fn zero() -> (r: Self)
        ensures
            r == Self::spec_zero(),
    ;
}

/// Types that have a multiplicative identity.
pub trait One: Sized {
    /// The value that `one` returns.
    spec fn spec_one() -> Self;

    fn one() -> (r: Self)
        ensures
            r == Self::spec_one(),
    ;
}

/// Trigonometric functions on a scalar type (angles in radians).
pub trait Trig: Sized {
    spec fn spec_sin(self) -> Self;

    spec fn spec_cos(self) -> Self;

    spec fn spec_tan(self) -> Self;

    fn sin(self) -> (r: Self)
        ensures
            r == self.spec_sin(),
    ;

    fn cos(self) -> (r: Self)
        ensures
            r == self.spec_cos(),
    ;

    fn tan(self) -> (r: Self)
        ensures
            r == self.spec_tan(),
    ;
}

/// Approximate equality, with a tolerance of type `Eps`.
pub trait ApproxEq<Eps>: Sized {
    /// The default tolerance.
    spec fn spec_approx_epsilon() -> Eps;

    /// Whether `self` and `other` are equal up to `eps`.
    spec fn spec_approx_eq_eps(&self, other: &Self, eps: &Eps) -> bool;

    fn approx_epsilon() -> (r: Eps)
        ensures
            r == Self::spec_approx_epsilon(),
    ;

    fn approx_eq_eps(&self, other: &Self, eps: &Eps) -> (r: bool)
        ensures
            r == self.spec_approx_eq_eps(other, eps),
    ;

    /// Approximate equality with the default tolerance.
    fn approx_eq(&self, other: &Self) -> (r: bool)
        ensures
            r == self.spec_approx_eq_eps(other, &Self::spec_approx_epsilon()),
    {
        let eps = Self::approx_epsilon();
        self.approx_eq_eps(other, &eps)
    }
}

impl Zero for i32 {
    open spec fn spec_zero() -> i32 {
        0
    }

    fn zero() -> (r: i32) {
        0
    }
}

impl One for i32 {
    open spec fn spec_one() -> i32 {
        1
    }

    fn one() -> (r: i32) {
        1
    }
}

impl Zero for i64 {
    open spec fn spec_zero() -> i64 {
        0
    }

    fn zero() -> (r: i64) {
        0
    }
}

impl One for i64 {
    open spec fn spec_one() -> i64 {
        1
    }

    fn one() -> (r: i64) {
        1
    }
}

// ---------------------------------------------------------------------------
// Totality of the operators: every operand pair is accepted, as for
// floating-point scalars.  A function that evaluates a formula requires either
// this, or that `T` obeys its specifications and the formula's own operands are
// accepted (see the `*_defined` predicates).
// ---------------------------------------------------------------------------

/// `a + b` is defined for all `a`, `b`.
pub open spec fn add_defined<T: Add<Output = T>>() -> bool {
    forall|a: T, b: T| #[trigger] a.add_req(b)
}

/// `a - b` is defined for all `a`, `b`.
pub open spec fn sub_defined<T: Sub<Output = T>>() -> bool {
    forall|a: T, b: T| #[trigger] a.sub_req(b)
}

/// `a * b` is defined for all `a`, `b`.
pub open spec fn mul_defined<T: Mul<Output = T>>() -> bool {
    forall|a: T, b: T| #[trigger] a.mul_req(b)
}

/// `a / b` is defined for all `a`, `b` (as for floats, where `x / 0` is an infinity or NaN).
pub open spec fn div_defined<T: Div<Output = T>>() -> bool {
    forall|a: T, b: T| #[trigger] a.div_req(b)
}

/// `-a` is defined for all `a`.
pub open spec fn neg_defined<T: Neg<Output = T>>() -> bool {
    forall|a: T| #[trigger] a.neg_req()
}

// ---------------------------------------------------------------------------
// Short names for the results of the operators, as `T` specifies them.
// ---------------------------------------------------------------------------

/// `a + b`
pub open spec fn plus<T: Add<Output = T>>(a: T, b: T) -> T {
    a.add_spec(b)
}

/// `a - b`
pub open spec fn minus<T: Sub<Output = T>>(a: T, b: T) -> T {
    a.sub_spec(b)
}

/// `a * b`
pub open spec fn times<T: Mul<Output = T>>(a: T, b: T) -> T {
    a.mul_spec(b)
}

/// `a / b`
pub open spec fn quot<T: Div<Output = T>>(a: T, b: T) -> T {
    a.div_spec(b)
}

/// `-a`
pub open spec fn negated<T: Neg<Output = T>>(a: T) -> T {
    a.neg_spec()
}

/// `a * b * c` (evaluated left to right)
pub open spec fn times3<T: Mul<Output = T>>(a: T, b: T, c: T) -> T {
    times(times(a, b), c)
}

/// `a * b * c * d` (evaluated left to right)
pub open spec fn times4<T: Mul<Output = T>>(a: T, b: T, c: T, d: T) -> T {
    times(times(times(a, b), c), d)
}

/// `a * b * c` can be evaluated: both products are defined.
pub open spec fn times3_defined<T: Mul<Output = T>>(a: T, b: T, c: T) -> bool {
    a.mul_req(b) && times(a, b).mul_req(c)
}

/// `a * b * c * d` can be evaluated: the three products are defined.
pub open spec fn times4_defined<T: Mul<Output = T>>(a: T, b: T, c: T, d: T) -> bool {
    times3_defined(a, b, c) && times3(a, b, c).mul_req(d)
}

/// `+` and `*` are defined for all operands.
pub open spec fn add_mul_total<T: Add<Output = T> + Mul<Output = T>>() -> bool {
    add_defined::<T>() && mul_defined::<T>()
}

/// `+`, `-` and `*` are defined for all operands.
pub open spec fn ring_total<T: Add<Output = T> + Sub<Output = T> + Mul<Output = T>>() -> bool {
    add_defined::<T>() && sub_defined::<T>() && mul_defined::<T>()
}

/// `+`, `-`, `*` and `/` are defined for all operands.
pub open spec fn field_total<T: Add<Output = T> + Sub<Output = T> + Mul<Output = T> + Div<Output = T>>() -> bool {
    add_defined::<T>() && sub_defined::<T>() && mul_defined::<T>() && div_defined::<T>()
}

/// `<`, `>` and the other comparisons on `T` behave as `partial_cmp_spec` says.
pub open spec fn obeys_order<T: PartialOrd>() -> bool {
    T::obeys_partial_cmp_spec()
}

/// `+` and `*` on `T` behave as their specifications say.
pub open spec fn obeys_add_mul<T: Add<Output = T> + Mul<Output = T>>() -> bool {
    T::obeys_add_spec() && T::obeys_mul_spec()
}

/// `+`, `-` and `*` on `T` behave as their specifications say.
pub open spec fn obeys_ring<T: Add<Output = T> + Sub<Output = T> + Mul<Output = T>>() -> bool {
    T::obeys_add_spec() && T::obeys_sub_spec() && T::obeys_mul_spec()
}

/// `+`, `-`, `*` and `/` on `T` behave as their specifications say.
pub open spec fn obeys_field<T: Add<Output = T> + Sub<Output = T> + Mul<Output = T> + Div<
    Output = T,
>>() -> bool {
    T::obeys_add_spec() && T::obeys_sub_spec() && T::obeys_mul_spec() && T::obeys_div_spec()
}

} // verus!
