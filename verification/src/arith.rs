//! The arithmetic on components that the library leaves to its caller, and
//! what the library makes of it.
//!
//! The library never computes with a component itself. Whatever has to be
//! computed is asked of an implementation of [`Arithmetic`], and the
//! contracts of the library say which of its operations was applied to
//! what. Nothing is assumed of an implementation.

use crate::color::Components;
use crate::convert::Step;
use vstd::prelude::*;

verus! {

/// Arithmetic on components of type `C`.
pub trait Arithmetic<C> {
    /// The number `numerator / denominator`.
    fn ratio(&self, numerator: i32, denominator: i32) -> C;

    /// The sum `a + b`.
    fn plus(&self, a: C, b: C) -> C;

    /// The difference `a - b`.
    fn minus(&self, a: C, b: C) -> C;

    /// The product `a * b`.
    fn times(&self, a: C, b: C) -> C;

    /// The quotient `a / b`.
    fn over(&self, a: C, b: C) -> C;

    /// The least number that is not negative and differs from `a` by a
    /// multiple of `b`.
    fn rem_euclid(&self, a: C, b: C) -> C;

    /// The square root of `a`.
    fn sqrt(&self, a: C) -> C;

    /// True if `a` is less than `b`.
    fn less(&self, a: C, b: C) -> bool;

    /// True if `a` is less than or equal to `b`.
    fn at_most(&self, a: C, b: C) -> bool;

    /// True if `a` is equal to `b`.
    fn same(&self, a: C, b: C) -> bool;

    /// True if `a` is not a number: the outcome of a conversion for a
    /// component that is powerless.
    fn is_nan(&self, a: C) -> bool;

    /// The components that the given elementary conversion makes of `from`.
    fn convert(&self, step: Step, from: Components<C>) -> Components<C>;
}

/// True if `out` is the number `numerator / denominator`.
pub open spec fn constant<C, A: Arithmetic<C>>(
    ops: &A,
    numerator: int,
    denominator: int,
    out: C,
) -> bool {
    exists|n: i32, d: i32|
        n == numerator && d == denominator && #[trigger] call_ensures(A::ratio, (ops, n, d), out)
}

/// The number `numerator / denominator`.
pub fn number<C, A: Arithmetic<C>>(ops: &A, numerator: i32, denominator: i32) -> (r: C)
    ensures
        constant(ops, numerator as int, denominator as int, r),
{
    ops.ratio(numerator, denominator)
}

/// The number zero.
pub fn zero<C, A: Arithmetic<C>>(ops: &A) -> (r: C)
    ensures
        constant(ops, 0, 1, r),
{
    number(ops, 0, 1)
}

/// The number one.
pub fn one<C, A: Arithmetic<C>>(ops: &A) -> (r: C)
    ensures
        constant(ops, 1, 1, r),
{
    number(ops, 1, 1)
}

/// True if `out` says whether `a` is zero.
pub open spec fn vanishes<C, A: Arithmetic<C>>(ops: &A, a: C, out: bool) -> bool {
    exists|zero: C| #[trigger] constant(ops, 0, 1, zero) && call_ensures(A::same, (ops, a, zero), out)
}

/// True if `a` is zero.
pub fn is_zero<C: Copy, A: Arithmetic<C>>(ops: &A, a: C) -> (r: bool)
    ensures
        vanishes(ops, a, r),
{
    let zero = zero(ops);
    ops.same(a, zero)
}

/// True if `out` says whether `a` lies between zero and one, both
/// included.
pub open spec fn unit<C, A: Arithmetic<C>>(ops: &A, a: C, out: bool) -> bool {
    exists|zero: C, one: C, low: bool, high: bool|
        {
            &&& #[trigger] constant(ops, 0, 1, zero)
            &&& #[trigger] constant(ops, 1, 1, one)
            &&& #[trigger] call_ensures(A::at_most, (ops, zero, a), low)
            &&& #[trigger] call_ensures(A::at_most, (ops, a, one), high)
            &&& out == (low && high)
        }
}

/// True if `a` lies between zero and one, both included.
pub fn in_unit<C: Copy, A: Arithmetic<C>>(ops: &A, a: C) -> (r: bool)
    ensures
        unit(ops, a, r),
{
    let zero = zero(ops);
    let one = one(ops);
    let low = ops.at_most(zero, a);
    let high = ops.at_most(a, one);
    low && high
}

/// True if `out` is `a` clamped to the range from zero to one: zero if `a`
/// is less than zero, one if `a` is greater than one, and else `a`.
pub open spec fn clamps<C, A: Arithmetic<C>>(ops: &A, a: C, out: C) -> bool {
    exists|zero: C, one: C, below: bool, above: bool|
        {
            &&& #[trigger] constant(ops, 0, 1, zero)
            &&& #[trigger] constant(ops, 1, 1, one)
            &&& #[trigger] call_ensures(A::less, (ops, a, zero), below)
            &&& #[trigger] call_ensures(A::less, (ops, one, a), above)
            &&& out == if below {
                zero
            } else if above {
                one
            } else {
                a
            }
        }
}

/// The number `a` clamped to the range from zero to one.
pub fn clamp_unit<C: Copy, A: Arithmetic<C>>(ops: &A, a: C) -> (r: C)
    ensures
        clamps(ops, a, r),
{
    let zero = zero(ops);
    let one = one(ops);
    let below = ops.less(a, zero);
    let above = ops.less(one, a);
    if below {
        zero
    } else if above {
        one
    } else {
        a
    }
}

/// True if `out` is the mean of `a` and `b`: half their sum.
pub open spec fn halfway<C, A: Arithmetic<C>>(ops: &A, a: C, b: C, out: C) -> bool {
    exists|two: C, sum: C|
        {
            &&& #[trigger] constant(ops, 2, 1, two)
            &&& #[trigger] call_ensures(A::plus, (ops, a, b), sum)
            &&& call_ensures(A::over, (ops, sum, two), out)
        }
}

/// The mean of `a` and `b`.
pub fn midpoint<C: Copy, A: Arithmetic<C>>(ops: &A, a: C, b: C) -> (r: C)
    ensures
        halfway(ops, a, b, r),
{
    let two = number(ops, 2, 1);
    let sum = ops.plus(a, b);
    ops.over(sum, two)
}

/// True if `out` is the square of the difference of `a` and `b`.
pub open spec fn squared_difference<C, A: Arithmetic<C>>(ops: &A, a: C, b: C, out: C) -> bool {
    exists|d: C| #[trigger] call_ensures(A::minus, (ops, a, b), d) && call_ensures(
        A::times,
        (ops, d, d),
        out,
    )
}

/// True if `out` is the distance between the two triples: the square root
/// of the sum of the squares of the differences of their components.
pub open spec fn distance<C, A: Arithmetic<C>>(
    ops: &A,
    reference: Components<C>,
    sample: Components<C>,
    out: C,
) -> bool {
    exists|d0: C, d1: C, d2: C, partial: C, sum: C|
        {
            &&& #[trigger] squared_difference(ops, sample.0, reference.0, d0)
            &&& #[trigger] squared_difference(ops, sample.1, reference.1, d1)
            &&& #[trigger] squared_difference(ops, sample.2, reference.2, d2)
            &&& #[trigger] call_ensures(A::plus, (ops, d0, d1), partial)
            &&& #[trigger] call_ensures(A::plus, (ops, partial, d2), sum)
            &&& call_ensures(A::sqrt, (ops, sum), out)
        }
}

/// The square of the difference of `a` and `b`.
fn square_of_difference<C: Copy, A: Arithmetic<C>>(ops: &A, a: C, b: C) -> (r: C)
    ensures
        squared_difference(ops, a, b, r),
{
    let d = ops.minus(a, b);
    ops.times(d, d)
}

/// The distance between two triples of components.
pub fn distance_between<C: Copy, A: Arithmetic<C>>(
    ops: &A,
    reference: Components<C>,
    sample: Components<C>,
) -> (r: C)
    ensures
        distance(ops, reference, sample, r),
{
    let d0 = square_of_difference(ops, sample.0, reference.0);
    let d1 = square_of_difference(ops, sample.1, reference.1);
    let d2 = square_of_difference(ops, sample.2, reference.2);
    let partial = ops.plus(d0, d1);
    let sum = ops.plus(partial, d2);
    ops.sqrt(sum)
}

} // verus!
