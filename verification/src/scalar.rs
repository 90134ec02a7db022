//! The numbers of a network, and what the contracts say about them.
//!
//! A [`Scalar`] supplies seven operations and promises nothing about them.
//! Contracts that speak of values are therefore stated for scalars whose
//! operations are functions of their operands ([`deterministic`]); for such
//! a scalar each operation has one result, named by the spec functions
//! below ([`sum`], [`product`], ...).
use vstd::prelude::*;

verus! {

/// A number type a network can compute with.
pub trait Scalar: Copy {
    /// The scalar that stands for the integer `n`.
    fn from_int(n: i32) -> Self;

    /// `self + rhs`.
    fn add(self, rhs: Self) -> Self;

    /// `self - rhs`.
    fn sub(self, rhs: Self) -> Self;

    /// `self * rhs`.
    fn mul(self, rhs: Self) -> Self;

    /// `self / rhs`.
    fn div(self, rhs: Self) -> Self;

    /// `e` raised to the power `self`.
    fn exp(self) -> Self;

    /// Whether `self < rhs`.
    fn less_than(self, rhs: Self) -> bool;
}

/// Every operation of `T` is a function: equal operands give equal results.
pub open spec fn deterministic<T: Scalar>() -> bool {
    &&& forall|n: i32, r1: T, r2: T|
        call_ensures(T::from_int, (n,), r1) && call_ensures(T::from_int, (n,), r2) ==> r1 == r2
    &&& forall|a: T, b: T, r1: T, r2: T|
        call_ensures(T::add, (a, b), r1) && call_ensures(T::add, (a, b), r2) ==> r1 == r2
    &&& forall|a: T, b: T, r1: T, r2: T|
        call_ensures(T::sub, (a, b), r1) && call_ensures(T::sub, (a, b), r2) ==> r1 == r2
    &&& forall|a: T, b: T, r1: T, r2: T|
        call_ensures(T::mul, (a, b), r1) && call_ensures(T::mul, (a, b), r2) ==> r1 == r2
    &&& forall|a: T, b: T, r1: T, r2: T|
        call_ensures(T::div, (a, b), r1) && call_ensures(T::div, (a, b), r2) ==> r1 == r2
    &&& forall|a: T, r1: T, r2: T|
        call_ensures(T::exp, (a,), r1) && call_ensures(T::exp, (a,), r2) ==> r1 == r2
    &&& forall|a: T, b: T, r1: bool, r2: bool|
        call_ensures(T::less_than, (a, b), r1) && call_ensures(T::less_than, (a, b), r2) ==> r1
            == r2
}

/// The scalar that `T::from_int(n)` returns.
pub open spec fn of_int<T: Scalar>(n: i32) -> T {
    choose|r: T| call_ensures(T::from_int, (n,), r)
}

/// The scalar that `a.add(b)` returns.
pub open spec fn sum<T: Scalar>(a: T, b: T) -> T {
    choose|r: T| call_ensures(T::add, (a, b), r)
}

/// The scalar that `a.sub(b)` returns.
pub open spec fn difference<T: Scalar>(a: T, b: T) -> T {
    choose|r: T| call_ensures(T::sub, (a, b), r)
}

/// The scalar that `a.mul(b)` returns.
pub open spec fn product<T: Scalar>(a: T, b: T) -> T {
    choose|r: T| call_ensures(T::mul, (a, b), r)
}

/// The scalar that `a.div(b)` returns.
pub open spec fn quotient<T: Scalar>(a: T, b: T) -> T {
    choose|r: T| call_ensures(T::div, (a, b), r)
}

/// The scalar that `a.exp()` returns.
pub open spec fn exponential<T: Scalar>(a: T) -> T {
    choose|r: T| call_ensures(T::exp, (a,), r)
}

/// The answer that `a.less_than(b)` returns.
pub open spec fn less<T: Scalar>(a: T, b: T) -> bool {
    choose|r: bool| call_ensures(T::less_than, (a, b), r)
}

/// The scalar 0.
pub open spec fn zero<T: Scalar>() -> T {
    of_int::<T>(0)
}

/// The scalar 1.
pub open spec fn one<T: Scalar>() -> T {
    of_int::<T>(1)
}

/// `-a`, computed as `0 - a`.
pub open spec fn negation<T: Scalar>(a: T) -> T {
    difference(zero::<T>(), a)
}

/// `|a|`: `-a` where `a < 0`, else `a`.
pub open spec fn magnitude<T: Scalar>(a: T) -> T {
    if less(a, zero::<T>()) {
        negation(a)
    } else {
        a
    }
}

/// The scalar for `n`.
pub fn number<T: Scalar>(n: i32) -> (r: T)
    ensures
        deterministic::<T>() ==> r == of_int::<T>(n),
{
    T::from_int(n)
}

/// `a + b`.
pub fn plus<T: Scalar>(a: T, b: T) -> (r: T)
    ensures
        deterministic::<T>() ==> r == sum(a, b),
{
    a.add(b)
}

/// `a - b`.
pub fn minus<T: Scalar>(a: T, b: T) -> (r: T)
    ensures
        deterministic::<T>() ==> r == difference(a, b),
{
    a.sub(b)
}

/// `a * b`.
pub fn times<T: Scalar>(a: T, b: T) -> (r: T)
    ensures
        deterministic::<T>() ==> r == product(a, b),
{
    a.mul(b)
}

/// `a / b`.
pub fn over<T: Scalar>(a: T, b: T) -> (r: T)
    ensures
        deterministic::<T>() ==> r == quotient(a, b),
{
    a.div(b)
}

/// `e` to the power `a`.
pub fn exp_of<T: Scalar>(a: T) -> (r: T)
    ensures
        deterministic::<T>() ==> r == exponential(a),
{
    a.exp()
}

/// Whether `a < b`.
pub fn below<T: Scalar>(a: T, b: T) -> (r: bool)
    ensures
        deterministic::<T>() ==> r == less(a, b),
{
    a.less_than(b)
}

/// `-a`.
pub fn negate<T: Scalar>(a: T) -> (r: T)
    ensures
        deterministic::<T>() ==> r == negation(a),
{
    minus(number::<T>(0), a)
}

/// `|a|`.
pub fn abs_of<T: Scalar>(a: T) -> (r: T)
    ensures
        deterministic::<T>() ==> r == magnitude(a),
{
    if below(a, number::<T>(0)) {
        negate(a)
    } else {
        a
    }
}

} // verus!
