//! Interpolation between two colors in a color space: with alpha
//! premultiplied, with missing components carried through, and with the
//! hue taken round the hue circle the way that the hue interpolation method
//! names.

use crate::arith::{
    clamp_unit, clamps, constant, is_zero, number, one, vanishes, Arithmetic,
};
use crate::color::{Color, Components};
use crate::flags::{Channel, Flags};
use crate::space::{Role, Space};
use vstd::prelude::*;

verus! {

/// The method used for interpolating hue components.
#[derive(Clone, Copy, Debug, PartialEq, Eq, Structural)]
pub enum HueInterpolationMethod {
    /// Hue angles are interpolated to take the shorter of the two arcs
    /// between the starting and ending hues.
    Shorter,
    /// Hue angles are interpolated to take the longer of the two arcs
    /// between the starting and ending hues.
    Longer,
    /// Hue angles are interpolated so that, as they progress from the first
    /// color to the second, the angle is always increasing.
    Increasing,
    /// Hue angles are interpolated so that, as they progress from the first
    /// color to the second, the angle is always decreasing.
    Decreasing,
}

impl Default for HueInterpolationMethod {
    fn default() -> (r: Self)
        ensures
            r == HueInterpolationMethod::Shorter,
    {
        HueInterpolationMethod::Shorter
    }
}

/// Where the difference `right - left` of two hues lies, both hues taken
/// into the range from zero up to, but not including, a full turn.
#[derive(Clone, Copy, Debug, PartialEq, Eq, Structural)]
pub enum HueDelta {
    /// Less than minus half a turn.
    BelowMinusHalf,
    /// Exactly minus half a turn.
    MinusHalf,
    /// Between minus half a turn and zero, both excluded.
    Negative,
    /// Exactly zero.
    Zero,
    /// Between zero and half a turn, both excluded.
    Positive,
    /// Exactly half a turn.
    Half,
    /// More than half a turn.
    AboveHalf,
    /// None of these: the difference is no number.
    Unordered,
}

/// The side of an interpolation whose hue is raised by a full turn before
/// the two hues are interpolated linearly.
#[derive(Clone, Copy, Debug, PartialEq, Eq, Structural)]
pub enum HueShift {
    /// Both hues stay as they are.
    Neither,
    /// The left hue is raised by a full turn.
    Left,
    /// The right hue is raised by a full turn.
    Right,
}

impl HueDelta {
    /// The class of the difference `delta`, where `half` is half a turn in
    /// the unit of `delta`.
    pub open spec fn of(delta: int, half: int) -> HueDelta {
        if delta < -half {
            HueDelta::BelowMinusHalf
        } else if delta == -half {
            HueDelta::MinusHalf
        } else if delta < 0 {
            HueDelta::Negative
        } else if delta == 0 {
            HueDelta::Zero
        } else if delta < half {
            HueDelta::Positive
        } else if delta == half {
            HueDelta::Half
        } else {
            HueDelta::AboveHalf
        }
    }
}

impl HueShift {
    /// The left hue after the shift, where `half` is half a turn.
    pub open spec fn left(self, left: int, half: int) -> int {
        if self == HueShift::Left {
            left + 2 * half
        } else {
            left
        }
    }

    /// The right hue after the shift, where `half` is half a turn.
    pub open spec fn right(self, right: int, half: int) -> int {
        if self == HueShift::Right {
            right + 2 * half
        } else {
            right
        }
    }
}

impl HueInterpolationMethod {
    /// Which hue this method raises by a full turn, given the class of the
    /// difference between the two.
    pub open spec fn shift(self, delta: HueDelta) -> HueShift {
        match self {
            HueInterpolationMethod::Shorter => match delta {
                HueDelta::AboveHalf => HueShift::Left,
                HueDelta::BelowMinusHalf => HueShift::Right,
                _ => HueShift::Neither,
            },
            HueInterpolationMethod::Longer => match delta {
                HueDelta::Positive => HueShift::Left,
                HueDelta::Negative | HueDelta::Zero => HueShift::Right,
                _ => HueShift::Neither,
            },
            HueInterpolationMethod::Increasing => match delta {
                HueDelta::BelowMinusHalf | HueDelta::MinusHalf | HueDelta::Negative => HueShift::Right,
                _ => HueShift::Neither,
            },
            HueInterpolationMethod::Decreasing => match delta {
                HueDelta::Positive | HueDelta::Half | HueDelta::AboveHalf => HueShift::Left,
                _ => HueShift::Neither,
            },
        }
    }

    /// Decide which of two hues is raised by a full turn before they are
    /// interpolated linearly. `delta` is the class of the difference
    /// `right - left` of the two hues, each taken into the range from zero
    /// up to a full turn.
    ///
    /// - Shorter: the left hue if the difference is more than half a turn,
    ///   the right hue if it is less than minus half a turn.
    /// - Longer: the left hue if the difference is between zero and half a
    ///   turn, the right hue if it is zero or between minus half a turn and
    ///   zero.
    /// - Increasing: the right hue if it is less than the left.
    /// - Decreasing: the left hue if it is less than the right.
    pub fn shift_for(&self, delta: HueDelta) -> (r: HueShift)
        ensures
            r == self.shift(delta),
    {
        match self {
            HueInterpolationMethod::Shorter => {
                if matches!(delta, HueDelta::AboveHalf) {
                    HueShift::Left
                } else if matches!(delta, HueDelta::BelowMinusHalf) {
                    HueShift::Right
                } else {
                    HueShift::Neither
                }
            },
            HueInterpolationMethod::Longer => {
                if matches!(delta, HueDelta::Positive) {
                    HueShift::Left
                } else if matches!(delta, HueDelta::Negative | HueDelta::Zero) {
                    HueShift::Right
                } else {
                    HueShift::Neither
                }
            },
            HueInterpolationMethod::Increasing => {
                if matches!(
                    delta,
                    HueDelta::BelowMinusHalf | HueDelta::MinusHalf | HueDelta::Negative
                ) {
                    HueShift::Right
                } else {
                    HueShift::Neither
                }
            },
            HueInterpolationMethod::Decreasing => {
                if matches!(delta, HueDelta::Positive | HueDelta::Half | HueDelta::AboveHalf) {
                    HueShift::Left
                } else {
                    HueShift::Neither
                }
            },
        }
    }

    /// What each method achieves, for two hues `left` and `right` in the
    /// range from zero up to a full turn, in any unit in which half a turn
    /// is the whole number `half`.
    ///
    /// After the shift the two hues are at most a full turn apart, and
    /// - with the shorter arc, at most half a turn apart;
    /// - with the longer arc, at least half a turn apart;
    /// - increasing, the right hue is not below the left;
    /// - decreasing, the left hue is not below the right.
    pub proof fn lemma_adjusted_arc(self, left: int, right: int, half: int)
        requires
            half > 0,
            0 <= left < 2 * half,
            0 <= right < 2 * half,
        ensures
            ({
                let shift = self.shift(HueDelta::of(right - left, half));
                let arc = shift.right(right, half) - shift.left(left, half);
                &&& -2 * half <= arc <= 2 * half
                &&& self == HueInterpolationMethod::Shorter ==> -half <= arc <= half
                &&& self == HueInterpolationMethod::Longer ==> arc <= -half || half <= arc
                &&& self == HueInterpolationMethod::Increasing ==> 0 <= arc
                &&& self == HueInterpolationMethod::Decreasing ==> arc <= 0
            }),
    {
    }
}

/// Which side of an interpolation takes its alpha from the other side
/// because its own is missing.
#[derive(Clone, Copy, Debug, PartialEq, Eq, Structural)]
pub enum AlphaFill {
    /// Both sides have an alpha, or both have none: nothing is copied.
    Neither,
    /// The left side has no alpha and takes that of the right side.
    Left,
    /// The right side has no alpha and takes that of the left side.
    Right,
}

/// Which side takes the alpha of the other.
pub open spec fn alpha_fill_of(left: Flags, right: Flags) -> AlphaFill {
    if left.has(Channel::Alpha) && !right.has(Channel::Alpha) {
        AlphaFill::Left
    } else if !left.has(Channel::Alpha) && right.has(Channel::Alpha) {
        AlphaFill::Right
    } else {
        AlphaFill::Neither
    }
}

/// Decide which of the two sides of an interpolation, given by their
/// flags, takes the alpha of the other side: the one whose alpha is
/// missing, if the other has one.
pub fn alpha_fill(left: Flags, right: Flags) -> (r: AlphaFill)
    ensures
        r == alpha_fill_of(left, right),
{
    let left_missing = left.is_missing(Channel::Alpha);
    let right_missing = right.is_missing(Channel::Alpha);
    if left_missing && !right_missing {
        AlphaFill::Left
    } else if !left_missing && right_missing {
        AlphaFill::Right
    } else {
        AlphaFill::Neither
    }
}

/// True if `after` holds the flags of a side of an interpolation whose
/// flags were `before`, once a missing alpha was filled from the other
/// side: alpha is still missing only if it is missing on the other side
/// too, and the flags of the three components are as before.
pub open spec fn alpha_filled(before: Flags, other: Flags, after: Flags) -> bool {
    &&& after.has(Channel::Alpha) == (before.has(Channel::Alpha) && other.has(Channel::Alpha))
    &&& forall|c: Channel| c != Channel::Alpha ==> #[trigger] after.has(c) == before.has(c)
}

/// The flags of the two sides of an interpolation once a missing alpha was
/// filled from the other side: on a side that took the alpha of the other,
/// the flag of alpha is cleared. The flags of the three components stay,
/// so that it is still known which of them were missing.
pub fn fill_missing_alpha(left: Flags, right: Flags) -> (r: (Flags, Flags))
    ensures
        alpha_filled(left, right, r.0),
        alpha_filled(right, left, r.1),
        r.0.has(Channel::Alpha) == r.1.has(Channel::Alpha),
        left.wf() ==> r.0.wf(),
        right.wf() ==> r.1.wf(),
{
    let mut left = left;
    let mut right = right;
    match alpha_fill(left, right) {
        AlphaFill::Left => left.remove(Flags::only(Channel::Alpha)),
        AlphaFill::Right => right.remove(Flags::only(Channel::Alpha)),
        AlphaFill::Neither => {},
    }
    (left, right)
}

/// A color whose components were multiplied with its alpha.
#[derive(Clone, Copy, Debug)]
pub struct Premultiplied<C> {
    /// The components of the source color, each multiplied by its alpha,
    /// or none where the component is missing.
    pub components: Components<Option<C>>,
    /// The alpha of the source color.
    pub alpha: Option<C>,
}

/// True if `out` is the component `value` premultiplied with `alpha`: the
/// product of the two, and the value itself if it is a hue, if it is
/// missing or if there is no alpha.
pub open spec fn scaled<C, A: Arithmetic<C>>(
    ops: &A,
    value: Option<C>,
    alpha: Option<C>,
    is_hue: bool,
    out: Option<C>,
) -> bool {
    match (value, alpha) {
        (Some(v), Some(a)) => if is_hue {
            out == value
        } else {
            out matches Some(o) && call_ensures(A::times, (ops, v, a), o)
        },
        _ => out == value,
    }
}

/// True if `out` is the premultiplied component `value` divided by
/// `alpha`, which is known to be zero or not: the quotient of the two, and
/// the value itself if it is a hue, if it is missing, or if the alpha is
/// missing or zero.
pub open spec fn unscaled<C, A: Arithmetic<C>>(
    ops: &A,
    value: Option<C>,
    alpha: Option<C>,
    zero: bool,
    is_hue: bool,
    out: Option<C>,
) -> bool {
    match (value, alpha) {
        (Some(v), Some(a)) => if is_hue || zero {
            out == value
        } else {
            out matches Some(o) && call_ensures(A::over, (ops, v, a), o)
        },
        _ => out == value,
    }
}

/// True if `zero` says whether the alpha, if there is one, is zero.
pub open spec fn zero_known<C, A: Arithmetic<C>>(ops: &A, alpha: Option<C>, zero: bool) -> bool {
    match alpha {
        Some(a) => vanishes(ops, a, zero),
        None => true,
    }
}

/// True if `out` is `left * left_weight + right * right_weight`.
pub open spec fn blended<C, A: Arithmetic<C>>(
    ops: &A,
    left: C,
    left_weight: C,
    right: C,
    right_weight: C,
    out: C,
) -> bool {
    exists|l: C, r: C|
        {
            &&& #[trigger] call_ensures(A::times, (ops, left, left_weight), l)
            &&& #[trigger] call_ensures(A::times, (ops, right, right_weight), r)
            &&& call_ensures(A::plus, (ops, l, r), out)
        }
}

/// True if `out` is the hue taken into the range from zero up to a full
/// turn of 360 degrees.
pub open spec fn wrapped<C, A: Arithmetic<C>>(ops: &A, hue: C, out: C) -> bool {
    exists|turn: C| #[trigger] constant(ops, 360, 1, turn) && call_ensures(
        A::rem_euclid,
        (ops, hue, turn),
        out,
    )
}

/// The hue taken into the range from zero up to a full turn.
pub fn wrap_hue<C: Copy, A: Arithmetic<C>>(ops: &A, hue: C) -> (r: C)
    ensures
        wrapped(ops, hue, r),
{
    let turn = number(ops, 360, 1);
    ops.rem_euclid(hue, turn)
}

/// True if `out` is the hue raised by a full turn of 360 degrees.
pub open spec fn turned<C, A: Arithmetic<C>>(ops: &A, hue: C, out: C) -> bool {
    exists|turn: C| #[trigger] constant(ops, 360, 1, turn) && call_ensures(
        A::plus,
        (ops, hue, turn),
        out,
    )
}

/// The hue raised by a full turn.
pub fn raise_hue<C: Copy, A: Arithmetic<C>>(ops: &A, hue: C) -> (r: C)
    ensures
        turned(ops, hue, r),
{
    let turn = number(ops, 360, 1);
    ops.plus(hue, turn)
}

/// True if `out` says how `delta` compares with `bound`.
pub open spec fn compared<C, A: Arithmetic<C>>(ops: &A, delta: C, bound: C, out: (bool, bool)) -> bool {
    &&& call_ensures(A::less, (ops, delta, bound), out.0)
    &&& call_ensures(A::same, (ops, delta, bound), out.1)
}

/// True if `out` is the class of the difference `right - left`, held
/// against zero and against half a turn of 180 degrees either way.
pub open spec fn classified<C, A: Arithmetic<C>>(ops: &A, left: C, right: C, out: HueDelta) -> bool {
    exists|
        delta: C,
        low: C,
        zero: C,
        high: C,
        at_low: (bool, bool),
        at_zero: (bool, bool),
        at_high: (bool, bool),
        above: bool,
    |
        {
            &&& #[trigger] call_ensures(A::minus, (ops, right, left), delta)
            &&& #[trigger] constant(ops, -180, 1, low)
            &&& #[trigger] constant(ops, 0, 1, zero)
            &&& #[trigger] constant(ops, 180, 1, high)
            &&& #[trigger] compared(ops, delta, low, at_low)
            &&& #[trigger] compared(ops, delta, zero, at_zero)
            &&& #[trigger] compared(ops, delta, high, at_high)
            &&& #[trigger] call_ensures(A::less, (ops, high, delta), above)
            &&& out == HueDelta::from_comparisons(at_low, at_zero, at_high, above)
        }
}

impl HueDelta {
    /// The class of a difference of which it is known whether it is less
    /// than, or equal to, minus half a turn, zero and half a turn, and
    /// whether it is more than half a turn.
    pub open spec fn from_comparisons(
        at_low: (bool, bool),
        at_zero: (bool, bool),
        at_high: (bool, bool),
        above: bool,
    ) -> HueDelta {
        if at_low.0 {
            HueDelta::BelowMinusHalf
        } else if at_low.1 {
            HueDelta::MinusHalf
        } else if at_zero.0 {
            HueDelta::Negative
        } else if at_zero.1 {
            HueDelta::Zero
        } else if at_high.0 {
            HueDelta::Positive
        } else if at_high.1 {
            HueDelta::Half
        } else if above {
            HueDelta::AboveHalf
        } else {
            HueDelta::Unordered
        }
    }
}

/// How `delta` compares with `bound`: whether it is less, and whether it is
/// equal.
fn compare<C: Copy, A: Arithmetic<C>>(ops: &A, delta: C, bound: C) -> (r: (bool, bool))
    ensures
        compared(ops, delta, bound, r),
{
    (ops.less(delta, bound), ops.same(delta, bound))
}

/// The class of the difference `right - left` of two hues.
pub fn hue_delta<C: Copy, A: Arithmetic<C>>(ops: &A, left: C, right: C) -> (r: HueDelta)
    ensures
        classified(ops, left, right, r),
{
    let delta = ops.minus(right, left);
    let low = number(ops, -180, 1);
    let zero = number(ops, 0, 1);
    let high = number(ops, 180, 1);
    let at_low = compare(ops, delta, low);
    let at_zero = compare(ops, delta, zero);
    let at_high = compare(ops, delta, high);
    let above = ops.less(high, delta);
    if at_low.0 {
        HueDelta::BelowMinusHalf
    } else if at_low.1 {
        HueDelta::MinusHalf
    } else if at_zero.0 {
        HueDelta::Negative
    } else if at_zero.1 {
        HueDelta::Zero
    } else if at_high.0 {
        HueDelta::Positive
    } else if at_high.1 {
        HueDelta::Half
    } else if above {
        HueDelta::AboveHalf
    } else {
        HueDelta::Unordered
    }
}

/// True if `out` holds the two hues as the method has them interpolated:
/// both taken into the range of one turn, and then the one raised by a full
/// turn that the method names for the class of their difference.
pub open spec fn adjusted<C, A: Arithmetic<C>>(
    ops: &A,
    method: HueInterpolationMethod,
    left: C,
    right: C,
    out: (C, C),
) -> bool {
    exists|l: C, r: C, d: HueDelta|
        {
            &&& #[trigger] wrapped(ops, left, l)
            &&& #[trigger] wrapped(ops, right, r)
            &&& #[trigger] classified(ops, l, r, d)
            &&& raised(ops, method.shift(d) == HueShift::Left, l, out.0)
            &&& raised(ops, method.shift(d) == HueShift::Right, r, out.1)
        }
}

/// True if `out` is `hue`, raised by a full turn if `raise` says so.
pub open spec fn raised<C, A: Arithmetic<C>>(ops: &A, raise: bool, hue: C, out: C) -> bool {
    if raise {
        turned(ops, hue, out)
    } else {
        out == hue
    }
}

/// True if `out` is the hue between `left` and `right` for the given
/// weights: the two are adjusted by the method and blended, and the result
/// is taken into the range of one turn.
pub open spec fn hue_blended<C, A: Arithmetic<C>>(
    ops: &A,
    method: HueInterpolationMethod,
    left: C,
    left_weight: C,
    right: C,
    right_weight: C,
    out: C,
) -> bool {
    exists|ends: (C, C), sum: C|
        {
            &&& #[trigger] adjusted(ops, method, left, right, ends)
            &&& #[trigger] blended(ops, ends.0, left_weight, ends.1, right_weight, sum)
            &&& wrapped(ops, sum, out)
        }
}

/// True if `out` is the interpolated value of a channel that is `left` on
/// the one side and `right` on the other: missing if both are, the one if
/// the other is missing, and else the two blended, as hues if `is_hue` says
/// so.
pub open spec fn mixed<C, A: Arithmetic<C>>(
    ops: &A,
    method: HueInterpolationMethod,
    is_hue: bool,
    left: Option<C>,
    left_weight: C,
    right: Option<C>,
    right_weight: C,
    out: Option<C>,
) -> bool {
    match (left, right) {
        (None, None) => out is None,
        (None, Some(r)) => out == Some(r),
        (Some(l), None) => out == Some(l),
        (Some(l), Some(r)) => out matches Some(o) && if is_hue {
            hue_blended(ops, method, l, left_weight, r, right_weight, o)
        } else {
            blended(ops, l, left_weight, r, right_weight, o)
        },
    }
}

/// True if `out` is the interpolated alpha: missing if it is missing on
/// both sides, and else the two blended and clamped to the range from zero
/// to one.
pub open spec fn alpha_mixed<C, A: Arithmetic<C>>(
    ops: &A,
    left: Option<C>,
    left_weight: C,
    right: Option<C>,
    right_weight: C,
    out: Option<C>,
) -> bool {
    match (left, right) {
        (Some(l), Some(r)) => out matches Some(o) && exists|sum: C|
            {
                &&& #[trigger] blended(ops, l, left_weight, r, right_weight, sum)
                &&& clamps(ops, sum, o)
            },
        _ => out is None,
    }
}

/// Compute `left * left_weight + right * right_weight`.
pub fn blend<C: Copy, A: Arithmetic<C>>(
    ops: &A,
    left: C,
    left_weight: C,
    right: C,
    right_weight: C,
) -> (r: C)
    ensures
        blended(ops, left, left_weight, right, right_weight, r),
{
    let l = ops.times(left, left_weight);
    let r = ops.times(right, right_weight);
    ops.plus(l, r)
}

impl HueInterpolationMethod {
    /// Prepare two hues for linear interpolation: take both into the range
    /// of one turn, and raise by a full turn the one that this method
    /// names for the class of their difference.
    pub fn adjust_hue<C: Copy, A: Arithmetic<C>>(&self, ops: &A, a: &mut C, b: &mut C)
        ensures
            adjusted(ops, *self, *old(a), *old(b), (*final(a), *final(b))),
    {
        let l = wrap_hue(ops, *a);
        let r = wrap_hue(ops, *b);
        let d = hue_delta(ops, l, r);
        *a = l;
        *b = r;
        match self.shift_for(d) {
            HueShift::Neither => {},
            HueShift::Left => {
                *a = raise_hue(ops, l);
            },
            HueShift::Right => {
                *b = raise_hue(ops, r);
            },
        }
    }
}

impl<C: Copy> Color<C> {
    /// True if `out` is this color premultiplied with its alpha.
    pub open spec fn premultiplies_to<A: Arithmetic<C>>(self, ops: &A, out: Premultiplied<C>) -> bool {
        let alpha = self.channel(Channel::Alpha);
        &&& out.alpha == alpha
        &&& scaled(ops, self.channel(Channel::C0), alpha, self.space.role(Channel::C0) == Role::Hue,
            out.components.0)
        &&& scaled(ops, self.channel(Channel::C1), alpha, self.space.role(Channel::C1) == Role::Hue,
            out.components.1)
        &&& scaled(ops, self.channel(Channel::C2), alpha, self.space.role(Channel::C2) == Role::Hue,
            out.components.2)
    }

    /// Premultiply the color with its alpha: each component that is not
    /// missing, but for a hue, is multiplied with the alpha. If the alpha is
    /// missing, the components stay as they are.
    pub fn premultiply<A: Arithmetic<C>>(&self, ops: &A) -> (r: Premultiplied<C>)
        ensures
            self.premultiplies_to(ops, r),
    {
        let alpha = self.alpha();
        let hue = self.space.hue_index();
        Premultiplied {
            components: Components(
                scale(ops, self.c0(), alpha, hue == Some(0)),
                scale(ops, self.c1(), alpha, hue == Some(1)),
                scale(ops, self.c2(), alpha, hue == Some(2)),
            ),
            alpha,
        }
    }

    /// True if `out` is this color as a side of an interpolation whose
    /// other side is `other`: if this color has no alpha and the other has
    /// one, it takes the alpha of the other; everything else stays.
    pub open spec fn fills_to(self, other: Color<C>, out: Color<C>) -> bool {
        &&& out.space == self.space
        &&& out.components == self.components
        &&& alpha_filled(self.flags, other.flags, out.flags)
        &&& self.flags.wf() ==> out.flags.wf()
        &&& out.alpha == if alpha_fill_of(self.flags, other.flags) == AlphaFill::Left {
            other.alpha
        } else {
            self.alpha
        }
    }

    /// Create an interpolation that will interpolate from `self` to `other`
    /// using the specified space.
    pub fn interpolate<A: Arithmetic<C>>(&self, ops: &A, other: &Self, space: Space) -> (r:
        Interpolation<C>)
        ensures
            Interpolation::made_of(ops, *self, *other, space, r),
            r.wf(),
    {
        Interpolation::new(ops, self, other, space)
    }
}

/// Premultiply one component.
fn scale<C: Copy, A: Arithmetic<C>>(ops: &A, value: Option<C>, alpha: Option<C>, is_hue: bool) -> (r:
    Option<C>)
    ensures
        scaled(ops, value, alpha, is_hue, r),
{
    match (value, alpha) {
        (Some(v), Some(a)) => if is_hue {
            value
        } else {
            Some(ops.times(v, a))
        },
        _ => value,
    }
}

/// Take one component out of its premultiplied form.
fn unscale<C: Copy, A: Arithmetic<C>>(
    ops: &A,
    value: Option<C>,
    alpha: Option<C>,
    zero: bool,
    is_hue: bool,
) -> (r: Option<C>)
    ensures
        unscaled(ops, value, alpha, zero, is_hue, r),
{
    match (value, alpha) {
        (Some(v), Some(a)) => if is_hue || zero {
            value
        } else {
            Some(ops.over(v, a))
        },
        _ => value,
    }
}

/// Interpolate one channel.
fn mix_channel<C: Copy, A: Arithmetic<C>>(
    ops: &A,
    method: HueInterpolationMethod,
    is_hue: bool,
    left: Option<C>,
    left_weight: C,
    right: Option<C>,
    right_weight: C,
) -> (r: Option<C>)
    ensures
        mixed(ops, method, is_hue, left, left_weight, right, right_weight, r),
{
    match (left, right) {
        (None, None) => None,
        (None, Some(r)) => Some(r),
        (Some(l), None) => Some(l),
        (Some(l), Some(r)) => {
            if is_hue {
                let mut a = l;
                let mut b = r;
                method.adjust_hue(ops, &mut a, &mut b);
                let sum = blend(ops, a, left_weight, b, right_weight);
                let hue = wrap_hue(ops, sum);
                assert(adjusted(ops, method, l, r, (a, b)));
                assert(hue_blended(ops, method, l, left_weight, r, right_weight, hue));
                Some(hue)
            } else {
                Some(blend(ops, l, left_weight, r, right_weight))
            }
        },
    }
}

impl<C: Copy> Premultiplied<C> {
    /// True if `out` is this premultiplied color taken back into a color
    /// of the given space with the given alpha.
    pub open spec fn unpremultiplies_to<A: Arithmetic<C>>(
        self,
        ops: &A,
        space: Space,
        alpha: Option<C>,
        out: Color<C>,
    ) -> bool {
        exists|zero: bool|
            {
                &&& #[trigger] zero_known(ops, alpha, zero)
                &&& out.space == space
                &&& out.flags.wf()
                &&& out.settled(ops)
                &&& Color::clamped(ops, alpha, out.channel(Channel::Alpha))
                &&& unscaled(ops, self.components.0, alpha, zero, space.role(Channel::C0)
                    == Role::Hue, out.channel(Channel::C0))
                &&& unscaled(ops, self.components.1, alpha, zero, space.role(Channel::C1)
                    == Role::Hue, out.channel(Channel::C1))
                &&& unscaled(ops, self.components.2, alpha, zero, space.role(Channel::C2)
                    == Role::Hue, out.channel(Channel::C2))
            }
    }

    /// Un-premultiply the components back into a color using the specified
    /// alpha value: each component that is not missing, but for a hue, is
    /// divided by the alpha. If the alpha is missing or zero, the
    /// components stay as they are.
    pub fn into_color<A: Arithmetic<C>>(self, ops: &A, space: Space, alpha: Option<C>) -> (r: Color<
        C,
    >)
        ensures
            self.unpremultiplies_to(ops, space, alpha, r),
    {
        let zero = match alpha {
            Some(a) => is_zero(ops, a),
            None => true,
        };
        let hue = space.hue_index();
        let r = Color::from_parts(
            ops,
            space,
            unscale(ops, self.components.0, alpha, zero, hue == Some(0)),
            unscale(ops, self.components.1, alpha, zero, hue == Some(1)),
            unscale(ops, self.components.2, alpha, zero, hue == Some(2)),
            alpha,
        );
        assert(zero_known(ops, alpha, zero));
        r
    }
}

/// Represents an interpolation between two colors using a specified color
/// space.
#[derive(Clone, Copy, Debug)]
pub struct Interpolation<C> {
    /// The color that will be interpolated from.
    pub left: Premultiplied<C>,
    /// The color that will be interpolated to.
    pub right: Premultiplied<C>,
    /// The color space/form used to interpolate between the two colors.
    pub space: Space,
    /// Which hue interpolation method to use when a hue component is present
    /// in the color space/from used for interpolation.
    pub hue_interpolation_method: HueInterpolationMethod,
}

impl<C: Copy> Interpolation<C> {
    /// The two sides have an alpha, or neither has.
    pub open spec fn wf(self) -> bool {
        self.left.alpha is None <==> self.right.alpha is None
    }

    /// True if `out` is the interpolation from `left` to `right` in the
    /// given space: both colors are converted to the space, a side without
    /// alpha takes the alpha of the other, and both are premultiplied. The
    /// hue is interpolated on the shorter arc.
    pub open spec fn made_of<A: Arithmetic<C>>(
        ops: &A,
        left: Color<C>,
        right: Color<C>,
        space: Space,
        out: Interpolation<C>,
    ) -> bool {
        exists|l: Color<C>, r: Color<C>, lf: Color<C>, rf: Color<C>|
            {
                &&& left.converts_to(ops, space, l)
                &&& right.converts_to(ops, space, r)
                &&& #[trigger] l.fills_to(r, lf)
                &&& #[trigger] r.fills_to(l, rf)
                &&& lf.premultiplies_to(ops, out.left)
                &&& rf.premultiplies_to(ops, out.right)
                &&& out.space == space
                &&& out.hue_interpolation_method == HueInterpolationMethod::Shorter
            }
    }

    /// Create a new interpolation with the given colors and color space.
    pub fn new<A: Arithmetic<C>>(ops: &A, left: &Color<C>, right: &Color<C>, space: Space) -> (r:
        Self)
        ensures
            Self::made_of(ops, *left, *right, space, r),
            r.wf(),
    {
        let l = left.to_space(ops, space);
        let r = right.to_space(ops, space);
        let mut lf = l;
        let mut rf = r;
        let (left_flags, right_flags) = fill_missing_alpha(l.flags, r.flags);
        lf.flags = left_flags;
        rf.flags = right_flags;
        match alpha_fill(l.flags, r.flags) {
            AlphaFill::Left => {
                lf.alpha = r.alpha;
            },
            AlphaFill::Right => {
                rf.alpha = l.alpha;
            },
            AlphaFill::Neither => {},
        }
        let out = Interpolation {
            left: lf.premultiply(ops),
            right: rf.premultiply(ops),
            space,
            hue_interpolation_method: HueInterpolationMethod::Shorter,
        };
        proof {
            assert(l.fills_to(r, lf));
            assert(r.fills_to(l, rf));
        }
        out
    }

    /// Set the hue interpolation method on the interpolation.
    pub fn with_hue_interpolation(self, hue_interpolation_method: HueInterpolationMethod) -> (r:
        Self)
        ensures
            r.hue_interpolation_method == hue_interpolation_method,
            r.left == self.left,
            r.right == self.right,
            r.space == self.space,
    {
        Interpolation {
            left: self.left,
            right: self.right,
            space: self.space,
            hue_interpolation_method,
        }
    }

    /// True if `out` is the color that the interpolation has for the given
    /// weights: alpha and each channel are interpolated, and the result is
    /// taken out of its premultiplied form with the interpolated alpha.
    pub open spec fn weighs_to<A: Arithmetic<C>>(
        self,
        ops: &A,
        left_weight: C,
        right_weight: C,
        out: Color<C>,
    ) -> bool {
        exists|mix: Premultiplied<C>|
            {
                &&& alpha_mixed(ops, self.left.alpha, left_weight, self.right.alpha, right_weight,
                    mix.alpha)
                &&& mixed(ops, self.hue_interpolation_method, self.space.role(Channel::C0)
                    == Role::Hue, self.left.components.0, left_weight, self.right.components.0,
                    right_weight, mix.components.0)
                &&& mixed(ops, self.hue_interpolation_method, self.space.role(Channel::C1)
                    == Role::Hue, self.left.components.1, left_weight, self.right.components.1,
                    right_weight, mix.components.1)
                &&& mixed(ops, self.hue_interpolation_method, self.space.role(Channel::C2)
                    == Role::Hue, self.left.components.2, left_weight, self.right.components.2,
                    right_weight, mix.components.2)
                &&& #[trigger] mix.unpremultiplies_to(ops, self.space, mix.alpha, out)
            }
    }

    /// Blend the two sides with the weights as they are given: alpha and
    /// each channel are interpolated, and the result is taken out of its
    /// premultiplied form with the interpolated alpha.
    pub fn weigh<A: Arithmetic<C>>(&self, ops: &A, left_weight: C, right_weight: C) -> (r: Color<C>)
        requires
            self.wf(),
        ensures
            self.weighs_to(ops, left_weight, right_weight, r),
            r.space == self.space,
    {
        let alpha = match (self.left.alpha, self.right.alpha) {
            (Some(left), Some(right)) => {
                let sum = blend(ops, left, left_weight, right, right_weight);
                Some(clamp_unit(ops, sum))
            },
            _ => None,
        };
        let hue = self.space.hue_index();
        let method = self.hue_interpolation_method;
        let mix = Premultiplied {
            components: Components(
                mix_channel(ops, method, hue == Some(0), self.left.components.0, left_weight,
                    self.right.components.0, right_weight),
                mix_channel(ops, method, hue == Some(1), self.left.components.1, left_weight,
                    self.right.components.1, right_weight),
                mix_channel(ops, method, hue == Some(2), self.left.components.2, left_weight,
                    self.right.components.2, right_weight),
            ),
            alpha,
        };
        let r = mix.into_color(ops, self.space, alpha);
        assert(mix.unpremultiplies_to(ops, self.space, mix.alpha, r));
        r
    }

    /// True if `out` is the color that the interpolation has at the mid
    /// point `t`: the two sides blended, the right side with the weight `t`
    /// and the left side with the weight one less `t`.
    pub open spec fn meets<A: Arithmetic<C>>(self, ops: &A, t: C, out: Color<C>) -> bool {
        exists|one: C, rest: C|
            {
                &&& #[trigger] constant(ops, 1, 1, one)
                &&& #[trigger] call_ensures(A::minus, (ops, one, t), rest)
                &&& self.weighs_to(ops, rest, t, out)
            }
    }

    /// Calculate an interpolated color using a mid point specified by `t`:
    /// the right side weighs `t`, the left side one less `t`.
    pub fn at<A: Arithmetic<C>>(&self, ops: &A, t: C) -> (r: Color<C>)
        requires
            self.wf(),
        ensures
            self.meets(ops, t, r),
            r.space == self.space,
    {
        let one = one(ops);
        let rest = ops.minus(one, t);
        self.weigh(ops, rest, t)
    }

    /// True if `out` holds the two weights normalized, and the factor for
    /// the alpha of the result, if there is one: weights that sum up to one
    /// stay as they are; other weights are both divided by their sum, and
    /// if their sum is less than one it is the factor for the alpha.
    pub open spec fn normalized<A: Arithmetic<C>>(
        ops: &A,
        left_weight: C,
        right_weight: C,
        out: (C, C, Option<C>),
    ) -> bool {
        exists|sum: C, one: C, is_one: bool|
            {
                &&& #[trigger] call_ensures(A::plus, (ops, left_weight, right_weight), sum)
                &&& #[trigger] constant(ops, 1, 1, one)
                &&& #[trigger] call_ensures(A::same, (ops, sum, one), is_one)
                &&& if is_one {
                    out == (left_weight, right_weight, None::<C>)
                } else {
                    exists|scale: C, below: bool|
                        {
                            &&& #[trigger] call_ensures(A::over, (ops, one, sum), scale)
                            &&& #[trigger] call_ensures(A::less, (ops, sum, one), below)
                            &&& call_ensures(A::times, (ops, left_weight, scale), out.0)
                            &&& call_ensures(A::times, (ops, right_weight, scale), out.1)
                            &&& out.2 == if below {
                                Some(sum)
                            } else {
                                None
                            }
                        }
                }
            }
    }

    /// Normalize the two weights, and give the factor for the alpha of the
    /// result, if there is one.
    pub fn normalize_weights<A: Arithmetic<C>>(ops: &A, left_weight: C, right_weight: C) -> (r: (
        C,
        C,
        Option<C>,
    ))
        ensures
            Self::normalized(ops, left_weight, right_weight, r),
    {
        let sum = ops.plus(left_weight, right_weight);
        let one = one(ops);
        if ops.same(sum, one) {
            (left_weight, right_weight, None)
        } else {
            let scale = ops.over(one, sum);
            let below = ops.less(sum, one);
            (
                ops.times(left_weight, scale),
                ops.times(right_weight, scale),
                if below {
                    Some(sum)
                } else {
                    None
                },
            )
        }
    }

    /// True if `out` is the color `mix` with its alpha multiplied by the
    /// factor, if there is a factor and the color has an alpha. Everything
    /// else is as in `mix`.
    pub open spec fn faded<A: Arithmetic<C>>(
        ops: &A,
        mix: Color<C>,
        factor: Option<C>,
        out: Color<C>,
    ) -> bool {
        &&& out.components == mix.components
        &&& out.flags == mix.flags
        &&& out.space == mix.space
        &&& match factor {
            Some(f) => if mix.flags.has(Channel::Alpha) {
                out.alpha == mix.alpha
            } else {
                call_ensures(A::times, (ops, mix.alpha, f), out.alpha)
            },
            None => out.alpha == mix.alpha,
        }
    }

    /// True if `out` is the color that the interpolation has for the given
    /// weights of the left and right sides.
    ///
    /// The weights are normalized first: if their sum is not one, both are
    /// divided by it. The color is the one at the mid point that is the
    /// normalized weight of the right side. If the sum of the weights is
    /// less than one, the alpha of the color is multiplied by it.
    pub open spec fn weighted_to<A: Arithmetic<C>>(
        self,
        ops: &A,
        left_weight: C,
        right_weight: C,
        out: Color<C>,
    ) -> bool {
        exists|weights: (C, C, Option<C>), mix: Color<C>|
            {
                &&& #[trigger] Self::normalized(ops, left_weight, right_weight, weights)
                &&& #[trigger] self.meets(ops, weights.1, mix)
                &&& Self::faded(ops, mix, weights.2, out)
            }
    }

    /// Calculate an interpolated color using weights for the left and right
    /// sides. The weights are normalized before interpolation, and the
    /// alpha of the result is multiplied with the sum of the weights if
    /// that is less than one.
    pub fn with_weights<A: Arithmetic<C>>(&self, ops: &A, left_weight: C, right_weight: C) -> (r:
        Color<C>)
        requires
            self.wf(),
        ensures
            self.weighted_to(ops, left_weight, right_weight, r),
            r.space == self.space,
    {
        let weights = Self::normalize_weights(ops, left_weight, right_weight);
        let mix = self.at(ops, weights.1);
        let mut result = mix;
        match weights.2 {
            Some(factor) => {
                if !mix.flags.is_missing(Channel::Alpha) {
                    result.alpha = ops.times(mix.alpha, factor);
                }
            },
            None => {},
        }
        assert(Self::faded(ops, mix, weights.2, result));
        result
    }

    /// Calculate an interpolated color using weights for the left and right
    /// sides, which are normalized first: the same as
    /// [`Interpolation::with_weights`].
    pub fn with_normalized_weights<A: Arithmetic<C>>(
        &self,
        ops: &A,
        left_weight: C,
        right_weight: C,
    ) -> (r: Color<C>)
        requires
            self.wf(),
        ensures
            self.weighted_to(ops, left_weight, right_weight, r),
            r.space == self.space,
    {
        self.with_weights(ops, left_weight, right_weight)
    }
}

/// Two colors of the same space of which all three components are missing
/// interpolate, in that space, to a color of which all three components are
/// missing; its alpha is missing only if both sides have no alpha.
pub proof fn lemma_missing_propagates<C: Copy, A: Arithmetic<C>>(
    ops: &A,
    left: Color<C>,
    right: Color<C>,
    mix: Interpolation<C>,
    left_weight: C,
    right_weight: C,
    out: Color<C>,
)
    requires
        left.space == right.space,
        left.flags.has(Channel::C0) && left.flags.has(Channel::C1) && left.flags.has(Channel::C2),
        right.flags.has(Channel::C0) && right.flags.has(Channel::C1) && right.flags.has(
            Channel::C2,
        ),
        Interpolation::made_of(ops, left, right, left.space, mix),
        mix.weighs_to(ops, left_weight, right_weight, out),
    ensures
        out.channel(Channel::C0) is None,
        out.channel(Channel::C1) is None,
        out.channel(Channel::C2) is None,
        out.channel(Channel::Alpha) is None <==> left.flags.has(Channel::Alpha) && right.flags.has(
            Channel::Alpha,
        ),
{
    let (l, r, lf, rf) = choose|l: Color<C>, r: Color<C>, lf: Color<C>, rf: Color<C>|
        {
            &&& left.converts_to(ops, left.space, l)
            &&& right.converts_to(ops, left.space, r)
            &&& #[trigger] l.fills_to(r, lf)
            &&& #[trigger] r.fills_to(l, rf)
            &&& lf.premultiplies_to(ops, mix.left)
            &&& rf.premultiplies_to(ops, mix.right)
        };
    assert(l == left && r == right);
    assert(lf.flags.has(Channel::C0) && lf.flags.has(Channel::C1) && lf.flags.has(Channel::C2));
    assert(rf.flags.has(Channel::C0) && rf.flags.has(Channel::C1) && rf.flags.has(Channel::C2));
    assert(mix.left.components == Components::<Option<C>>(None, None, None));
    assert(mix.right.components == Components::<Option<C>>(None, None, None));
    assert(mix.left.alpha is None <==> left.flags.has(Channel::Alpha) && right.flags.has(
        Channel::Alpha,
    ));
    assert(mix.right.alpha is None <==> mix.left.alpha is None);
}

/// Two colors of the same space of which all three components are missing
/// interpolate, in that space and for any weights, to a color of which all
/// three components are missing; its alpha is missing only if both sides
/// have no alpha.
pub proof fn lemma_missing_propagates_weighted<C: Copy, A: Arithmetic<C>>(
    ops: &A,
    left: Color<C>,
    right: Color<C>,
    mix: Interpolation<C>,
    left_weight: C,
    right_weight: C,
    out: Color<C>,
)
    requires
        left.space == right.space,
        left.flags.has(Channel::C0) && left.flags.has(Channel::C1) && left.flags.has(Channel::C2),
        right.flags.has(Channel::C0) && right.flags.has(Channel::C1) && right.flags.has(
            Channel::C2,
        ),
        Interpolation::made_of(ops, left, right, left.space, mix),
        mix.weighted_to(ops, left_weight, right_weight, out),
    ensures
        out.channel(Channel::C0) is None,
        out.channel(Channel::C1) is None,
        out.channel(Channel::C2) is None,
        out.channel(Channel::Alpha) is None <==> left.flags.has(Channel::Alpha) && right.flags.has(
            Channel::Alpha,
        ),
{
    let (weights, met) = choose|weights: (C, C, Option<C>), met: Color<C>|
        {
            &&& #[trigger] Interpolation::normalized(ops, left_weight, right_weight, weights)
            &&& #[trigger] mix.meets(ops, weights.1, met)
            &&& Interpolation::faded(ops, met, weights.2, out)
        };
    let (one, rest) = choose|one: C, rest: C|
        {
            &&& #[trigger] constant(ops, 1, 1, one)
            &&& #[trigger] call_ensures(A::minus, (ops, one, weights.1), rest)
            &&& mix.weighs_to(ops, rest, weights.1, met)
        };
    lemma_missing_propagates(ops, left, right, mix, rest, weights.1, met);
}

/// The two sides of an interpolation that was made of two colors have an
/// alpha, or neither has.
pub proof fn lemma_made_well_formed<C: Copy, A: Arithmetic<C>>(
    ops: &A,
    left: Color<C>,
    right: Color<C>,
    space: Space,
    mix: Interpolation<C>,
)
    requires
        Interpolation::made_of(ops, left, right, space, mix),
    ensures
        mix.wf(),
{
}

/// Premultiplying a component and taking it out of the premultiplied form
/// with the same alpha leaves a component as it is where nothing is
/// computed: if it is a hue, if it is missing, or if there is no alpha.
/// Every other component is the quotient, by the alpha, of its product with
/// the alpha, unless the alpha is zero.
pub proof fn lemma_premultiply_round_trip<C: Copy, A: Arithmetic<C>>(
    ops: &A,
    value: Option<C>,
    alpha: Option<C>,
    zero: bool,
    is_hue: bool,
    between: Option<C>,
    out: Option<C>,
)
    requires
        scaled(ops, value, alpha, is_hue, between),
        unscaled(ops, between, alpha, zero, is_hue, out),
    ensures
        out is None <==> value is None,
        is_hue || alpha is None ==> out == value,
        (!is_hue && !zero) ==> match (value, alpha) {
            (Some(v), Some(a)) => exists|product: C|
                {
                    &&& #[trigger] call_ensures(A::times, (ops, v, a), product)
                    &&& out matches Some(o) && call_ensures(A::over, (ops, product, a), o)
                },
            _ => out == value,
        },
{
}

/// True if no test of the arithmetic finds the number to be zero.
pub open spec fn never_zero<C, A: Arithmetic<C>>(ops: &A, a: C) -> bool {
    forall|zero: bool| #[trigger] vanishes(ops, a, zero) ==> !zero
}

/// True if, in this arithmetic, division undoes multiplication: the
/// quotient, by a number that is never found to be zero, of the product of
/// a value with that number is the value.
pub open spec fn divides_back<C, A: Arithmetic<C>>(ops: &A) -> bool {
    forall|value: C, by: C, product: C, quotient: C|
        #[trigger] call_ensures(A::times, (ops, value, by), product) && #[trigger] call_ensures(
            A::over,
            (ops, product, by),
            quotient,
        ) && never_zero(ops, by) ==> quotient == value
}

/// A component that was premultiplied with an alpha and taken out of the
/// premultiplied form with the same alpha, which is never found to be zero,
/// is what it was, in an arithmetic in which division undoes
/// multiplication.
pub proof fn lemma_premultiply_undone<C: Copy, A: Arithmetic<C>>(
    ops: &A,
    value: Option<C>,
    alpha: Option<C>,
    is_hue: bool,
    between: Option<C>,
    out: Option<C>,
)
    requires
        divides_back(ops),
        alpha matches Some(a) ==> never_zero(ops, a),
        scaled(ops, value, alpha, is_hue, between),
        unscaled(ops, between, alpha, false, is_hue, out),
    ensures
        out == value,
{
}

/// A color with an alpha that is never found to be zero and that clamping
/// leaves as it is, premultiplied and taken back into a color of its space
/// with its own alpha, has the components and the alpha that it had, in an
/// arithmetic in which division undoes multiplication.
pub proof fn lemma_color_premultiply_undone<C: Copy, A: Arithmetic<C>>(
    ops: &A,
    color: Color<C>,
    between: Premultiplied<C>,
    out: Color<C>,
)
    requires
        divides_back(ops),
        color.premultiplies_to(ops, between),
        between.unpremultiplies_to(ops, color.space, between.alpha, out),
        between.alpha matches Some(alpha) && plain_alpha(ops, alpha),
    ensures
        out.space == color.space,
        out.channel(Channel::C0) == color.channel(Channel::C0),
        out.channel(Channel::C1) == color.channel(Channel::C1),
        out.channel(Channel::C2) == color.channel(Channel::C2),
        out.channel(Channel::Alpha) == color.channel(Channel::Alpha),
{
    let alpha = color.channel(Channel::Alpha);
    lemma_premultiply_undone(
        ops,
        color.channel(Channel::C0),
        alpha,
        color.space.role(Channel::C0) == Role::Hue,
        between.components.0,
        out.channel(Channel::C0),
    );
    lemma_premultiply_undone(
        ops,
        color.channel(Channel::C1),
        alpha,
        color.space.role(Channel::C1) == Role::Hue,
        between.components.1,
        out.channel(Channel::C1),
    );
    lemma_premultiply_undone(
        ops,
        color.channel(Channel::C2),
        alpha,
        color.space.role(Channel::C2) == Role::Hue,
        between.components.2,
        out.channel(Channel::C2),
    );
}

/// True if the weights are those of the left end of an interpolation: the
/// right side weighs zero, and the left side one less zero.
pub open spec fn left_end<C, A: Arithmetic<C>>(ops: &A, left_weight: C, right_weight: C) -> bool {
    &&& constant(ops, 0, 1, right_weight)
    &&& exists|one: C|
        #[trigger] constant(ops, 1, 1, one) && call_ensures(
            A::minus,
            (ops, one, right_weight),
            left_weight,
        )
}

/// True if the weights are those of the right end of an interpolation: the
/// right side weighs one, and the left side one less one.
pub open spec fn right_end<C, A: Arithmetic<C>>(ops: &A, left_weight: C, right_weight: C) -> bool {
    &&& constant(ops, 1, 1, right_weight)
    &&& exists|one: C|
        #[trigger] constant(ops, 1, 1, one) && call_ensures(
            A::minus,
            (ops, one, right_weight),
            left_weight,
        )
}

/// True if, in this arithmetic, a blend with the weights of an end is the
/// side of that end.
pub open spec fn ends_exact<C, A: Arithmetic<C>>(ops: &A) -> bool {
    &&& forall|left: C, left_weight: C, right: C, right_weight: C, out: C|
        #[trigger] blended(ops, left, left_weight, right, right_weight, out) && left_end(
            ops,
            left_weight,
            right_weight,
        ) ==> out == left
    &&& forall|left: C, left_weight: C, right: C, right_weight: C, out: C|
        #[trigger] blended(ops, left, left_weight, right, right_weight, out) && right_end(
            ops,
            left_weight,
            right_weight,
        ) ==> out == right
}

/// True if the number is an alpha that the arithmetic leaves as it is when
/// it clamps it, and never finds to be zero.
pub open spec fn plain_alpha<C, A: Arithmetic<C>>(ops: &A, alpha: C) -> bool {
    &&& forall|clamped: C| #[trigger] clamps(ops, alpha, clamped) ==> clamped == alpha
    &&& never_zero(ops, alpha)
}

/// True if `out` agrees with `end` in the alpha and in every channel that
/// is not a hue and that `end` has or `other` has not: the channels in
/// which the one end of an interpolation is the color of that end.
pub open spec fn agrees<C: Copy>(out: Color<C>, end: Color<C>, other: Color<C>) -> bool {
    &&& out.space == end.space
    &&& out.channel(Channel::Alpha) == end.channel(Channel::Alpha)
    &&& agrees_in(out, end, other, Channel::C0)
    &&& agrees_in(out, end, other, Channel::C1)
    &&& agrees_in(out, end, other, Channel::C2)
}

/// True if `out` agrees with `end` in the channel, unless the channel is a
/// hue, or `end` has it not and `other` has it.
pub open spec fn agrees_in<C: Copy>(out: Color<C>, end: Color<C>, other: Color<C>, channel: Channel) -> bool {
    end.space.role(channel) != Role::Hue && (end.flags.has(channel) ==> other.flags.has(channel))
        ==> out.channel(channel) == end.channel(channel)
}

/// At the mid point zero an interpolation between two colors that have an
/// alpha is the left color in the space of the interpolation, and at the
/// mid point one the right color: in the alpha and in every channel that
/// is not a hue, in an arithmetic in which a blend with the weights of an
/// end is the side of that end and division undoes multiplication. A
/// channel that only the other color has is taken from that color.
pub proof fn lemma_interpolation_meets_its_ends<C: Copy, A: Arithmetic<C>>(
    ops: &A,
    left: Color<C>,
    right: Color<C>,
    space: Space,
    mix: Interpolation<C>,
    t: C,
    out: Color<C>,
)
    requires
        ends_exact(ops),
        divides_back(ops),
        !left.flags.has(Channel::Alpha) && plain_alpha(ops, left.alpha),
        !right.flags.has(Channel::Alpha) && plain_alpha(ops, right.alpha),
        left.flags.wf() && right.flags.wf(),
        Interpolation::made_of(ops, left, right, space, mix),
        mix.meets(ops, t, out),
        constant(ops, 0, 1, t) || constant(ops, 1, 1, t),
    ensures
        exists|l: Color<C>, r: Color<C>|
            {
                &&& #[trigger] left.converts_to(ops, space, l)
                &&& #[trigger] right.converts_to(ops, space, r)
                &&& constant(ops, 0, 1, t) ==> agrees(out, l, r)
                &&& constant(ops, 1, 1, t) ==> agrees(out, r, l)
            },
{
    let (l, r, lf, rf) = choose|l: Color<C>, r: Color<C>, lf: Color<C>, rf: Color<C>|
        {
            &&& left.converts_to(ops, space, l)
            &&& right.converts_to(ops, space, r)
            &&& #[trigger] l.fills_to(r, lf)
            &&& #[trigger] r.fills_to(l, rf)
            &&& lf.premultiplies_to(ops, mix.left)
            &&& rf.premultiplies_to(ops, mix.right)
            &&& mix.space == space
        };
    assert(l.alpha == left.alpha && r.alpha == right.alpha);
    assert(!l.flags.has(Channel::Alpha) && !r.flags.has(Channel::Alpha));
    assert(l.flags.wf() && r.flags.wf());
    Flags::lemma_same_flags(lf.flags, l.flags);
    Flags::lemma_same_flags(rf.flags, r.flags);
    assert(lf == l && rf == r);
    let (one, rest) = choose|one: C, rest: C|
        {
            &&& #[trigger] constant(ops, 1, 1, one)
            &&& #[trigger] call_ensures(A::minus, (ops, one, t), rest)
            &&& mix.weighs_to(ops, rest, t, out)
        };
    let m = choose|m: Premultiplied<C>|
        {
            &&& alpha_mixed(ops, mix.left.alpha, rest, mix.right.alpha, t, m.alpha)
            &&& mixed(ops, mix.hue_interpolation_method, mix.space.role(Channel::C0) == Role::Hue,
                mix.left.components.0, rest, mix.right.components.0, t, m.components.0)
            &&& mixed(ops, mix.hue_interpolation_method, mix.space.role(Channel::C1) == Role::Hue,
                mix.left.components.1, rest, mix.right.components.1, t, m.components.1)
            &&& mixed(ops, mix.hue_interpolation_method, mix.space.role(Channel::C2) == Role::Hue,
                mix.left.components.2, rest, mix.right.components.2, t, m.components.2)
            &&& #[trigger] m.unpremultiplies_to(ops, mix.space, m.alpha, out)
        };
    let zero = choose|zero: bool|
        {
            &&& #[trigger] zero_known(ops, m.alpha, zero)
            &&& out.space == mix.space
            &&& Color::clamped(ops, m.alpha, out.channel(Channel::Alpha))
            &&& unscaled(ops, m.components.0, m.alpha, zero, mix.space.role(Channel::C0)
                == Role::Hue, out.channel(Channel::C0))
            &&& unscaled(ops, m.components.1, m.alpha, zero, mix.space.role(Channel::C1)
                == Role::Hue, out.channel(Channel::C1))
            &&& unscaled(ops, m.components.2, m.alpha, zero, mix.space.role(Channel::C2)
                == Role::Hue, out.channel(Channel::C2))
        };
    assert(mix.left.alpha == Some(left.alpha) && mix.right.alpha == Some(right.alpha));
    if constant(ops, 0, 1, t) {
        assert(left_end(ops, rest, t));
        assert(m.alpha == Some(left.alpha));
        assert(!zero);
        assert(agrees_in(out, l, r, Channel::C0));
        assert(agrees_in(out, l, r, Channel::C1));
        assert(agrees_in(out, l, r, Channel::C2));
        assert(agrees(out, l, r));
    }
    if constant(ops, 1, 1, t) {
        assert(right_end(ops, rest, t));
        assert(m.alpha == Some(right.alpha));
        assert(!zero);
        assert(agrees_in(out, r, l, Channel::C0));
        assert(agrees_in(out, r, l, Channel::C1));
        assert(agrees_in(out, r, l, Channel::C2));
        assert(agrees(out, r, l));
    }
    assert(left.converts_to(ops, space, l) && right.converts_to(ops, space, r));
}

} // verus!
