//! Gamut mapping: a binary search for the greatest chroma, in Oklch, whose
//! color is inside the gamut of the destination or close enough to its own
//! clipped form.
//!
//! What is measured on a color is asked of the arithmetic. What follows
//! from the measurements is decided here: [`verdict`] before the search,
//! [`narrow`] in each round of it.

use crate::arith::{
    clamp_unit, clamps, constant, distance, distance_between, halfway, in_unit, midpoint, number,
    one, unit, zero, Arithmetic,
};
use crate::color::{Color, Components};
use crate::flags::{Channel, Flags};
use crate::space::Space;
use vstd::prelude::*;

verus! {

/// Where the Oklch lightness of a color lies.
#[derive(Clone, Copy, Debug, PartialEq, Eq, Structural)]
pub enum Lightness {
    /// At or below zero: as dark as black.
    Dark,
    /// Strictly between zero and one.
    Between,
    /// At or above one: as light as white.
    Light,
}

/// How far a color is from its clipped form, measured as the color
/// difference between the two and held against the just noticeable
/// difference.
#[derive(Clone, Copy, Debug, PartialEq, Eq, Structural)]
pub enum Closeness {
    /// The difference is noticeable.
    Far,
    /// The difference is not noticeable, and smaller than the just
    /// noticeable difference by at least the search tolerance.
    Near,
    /// The difference is not noticeable, and within the search tolerance
    /// of the just noticeable difference.
    Converged,
}

/// What gamut mapping returns without a search, if anything.
#[derive(Clone, Copy, Debug, PartialEq, Eq, Structural)]
pub enum Verdict {
    /// The color itself.
    Unchanged,
    /// White in the space of the color, with the alpha of the color.
    White,
    /// Black in the space of the color, with the alpha of the color.
    Black,
    /// The color with each component clipped.
    Clipped,
    /// Nothing yet: the chroma has to be searched.
    Search,
}

/// What one round of the search does.
#[derive(Clone, Copy, Debug, PartialEq, Eq, Structural)]
pub enum Narrow {
    /// Raise the lower bound to the chroma that was tried.
    RaiseMin,
    /// Raise the lower bound to the chroma that was tried, and note that
    /// the lower bound is no longer inside the gamut.
    RaiseMinOutside,
    /// Lower the upper bound to the chroma that was tried.
    LowerMax,
    /// End the search and return the clipped form of the color that was
    /// tried.
    ReturnClipped,
}

impl Space {
    /// True if the components of a color of this space are limited to a
    /// gamut. Lab, Lch, Oklab, Oklch and the two CIE-XYZ spaces have no
    /// limits.
    pub open spec fn limited(self) -> bool {
        self.gamut() is Some
    }

    /// The RGB space in whose range of zero to one the colors of this space
    /// are inside the gamut: the space itself if it is an RGB space, sRGB
    /// for HSL and HWB, none for the spaces without limits.
    pub open spec fn gamut(self) -> Option<Space> {
        if self.rgb_like() {
            Some(self)
        } else if self == Space::Hsl || self == Space::Hwb {
            Some(Space::Srgb)
        } else {
            None
        }
    }

    /// True if the components of a color of this space are limited to a
    /// gamut.
    pub fn has_gamut_limits(&self) -> (r: bool)
        ensures
            r == self.limited(),
            r == !matches!(
                *self,
                Space::Lab | Space::Lch | Space::Oklab | Space::Oklch | Space::XyzD50
                    | Space::XyzD65
            ),
    {
        !matches!(
            self,
            Space::Lab | Space::Lch | Space::Oklab | Space::Oklch | Space::XyzD50 | Space::XyzD65
        )
    }

    /// The RGB space in which a color of this space is tested against the
    /// range of zero to one, if this space has gamut limits.
    pub fn gamut_space(&self) -> (r: Option<Space>)
        ensures
            r == self.gamut(),
            r matches Some(s) ==> s.rgb_like(),
    {
        match self {
            Space::Srgb
            | Space::SrgbLinear
            | Space::DisplayP3
            | Space::A98Rgb
            | Space::ProPhotoRgb
            | Space::Rec2020 => Some(*self),
            Space::Hsl | Space::Hwb => Some(Space::Srgb),
            Space::Lab
            | Space::Lch
            | Space::Oklab
            | Space::Oklch
            | Space::XyzD50
            | Space::XyzD65 => None,
        }
    }
}

/// What gamut mapping returns before any search.
///
/// - `in_gamut`: every component of the color, taken into the gamut space
///   of `space`, lies between zero and one.
/// - `lightness`: where the Oklch lightness of the color lies.
/// - `clip`: how close the color is to its clipped form.
pub open spec fn verdict_of(
    space: Space,
    in_gamut: bool,
    lightness: Lightness,
    clip: Closeness,
) -> Verdict {
    if !space.limited() || in_gamut {
        Verdict::Unchanged
    } else if lightness == Lightness::Light {
        Verdict::White
    } else if lightness == Lightness::Dark {
        Verdict::Black
    } else if clip != Closeness::Far {
        Verdict::Clipped
    } else {
        Verdict::Search
    }
}

/// Decide what gamut mapping returns before any search.
///
/// A color of a space without gamut limits, and a color that is inside the
/// gamut, is returned unchanged. Otherwise a color as light as white maps
/// to white and one as dark as black to black. Otherwise, a color that is
/// not noticeably different from its clipped form maps to that form. Only
/// for what is left the chroma is searched.
pub fn verdict(space: Space, in_gamut: bool, lightness: Lightness, clip: Closeness) -> (r: Verdict)
    ensures
        r == verdict_of(space, in_gamut, lightness, clip),
        in_gamut ==> r == Verdict::Unchanged,
        r == Verdict::Search ==> space.limited() && !in_gamut && lightness == Lightness::Between
            && clip == Closeness::Far,
{
    if !space.has_gamut_limits() {
        return Verdict::Unchanged;
    }
    if in_gamut {
        return Verdict::Unchanged;
    }
    match lightness {
        Lightness::Light => Verdict::White,
        Lightness::Dark => Verdict::Black,
        Lightness::Between => match clip {
            Closeness::Far => Verdict::Search,
            Closeness::Near | Closeness::Converged => Verdict::Clipped,
        },
    }
}

/// What one round of the search does with the chroma that it tried.
///
/// - `min_in_gamut`: the lower bound of the search is still inside the
///   gamut.
/// - `in_gamut`: the color with the chroma that was tried is inside the
///   gamut.
/// - `clip`: how close that color is to its clipped form.
pub open spec fn narrow_of(min_in_gamut: bool, in_gamut: bool, clip: Closeness) -> Narrow {
    if min_in_gamut && in_gamut {
        Narrow::RaiseMin
    } else {
        match clip {
            Closeness::Converged => Narrow::ReturnClipped,
            Closeness::Near => Narrow::RaiseMinOutside,
            Closeness::Far => Narrow::LowerMax,
        }
    }
}

/// Decide what one round of the search does with the chroma that it
/// tried.
///
/// While the lower bound is inside the gamut, a color inside the gamut
/// raises it. Otherwise the color is held against its clipped form: if the
/// two are noticeably different the upper bound is lowered; if their
/// difference is within the tolerance of the just noticeable difference the
/// clipped form is the result; else the lower bound is raised and is from
/// then on outside the gamut.
pub fn narrow(min_in_gamut: bool, in_gamut: bool, clip: Closeness) -> (r: Narrow)
    ensures
        r == narrow_of(min_in_gamut, in_gamut, clip),
        r == Narrow::RaiseMin <==> min_in_gamut && in_gamut,
{
    if min_in_gamut && in_gamut {
        return Narrow::RaiseMin;
    }
    match clip {
        Closeness::Far => Narrow::LowerMax,
        Closeness::Near => Narrow::RaiseMinOutside,
        Closeness::Converged => Narrow::ReturnClipped,
    }
}

/// Once the lower bound has left the gamut, no round raises it on the
/// ground that a color is inside the gamut.
pub proof fn lemma_min_stays_outside(in_gamut: bool, clip: Closeness)
    ensures
        narrow_of(false, in_gamut, clip) != Narrow::RaiseMin,
{
}

/// A color that is inside the gamut is mapped to itself, whatever else is
/// measured on it.
pub proof fn lemma_in_gamut_unchanged(space: Space, lightness: Lightness, clip: Closeness)
    ensures
        verdict_of(space, true, lightness, clip) == Verdict::Unchanged,
{
}

/// Only a color of a space with gamut limits is ever changed.
pub proof fn lemma_unlimited_unchanged(
    space: Space,
    in_gamut: bool,
    lightness: Lightness,
    clip: Closeness,
)
    requires
        !space.limited(),
    ensures
        verdict_of(space, in_gamut, lightness, clip) == Verdict::Unchanged,
{
}

/// True if `out` is the class of the lightness: light if it is one or
/// more, dark if it is zero or less, and else between the two.
pub open spec fn lightness_of<C, A: Arithmetic<C>>(ops: &A, lightness: C, out: Lightness) -> bool {
    exists|zero: C, one: C, light: bool, dark: bool|
        {
            &&& #[trigger] constant(ops, 0, 1, zero)
            &&& #[trigger] constant(ops, 1, 1, one)
            &&& #[trigger] call_ensures(A::at_most, (ops, one, lightness), light)
            &&& #[trigger] call_ensures(A::at_most, (ops, lightness, zero), dark)
            &&& out == if light {
                Lightness::Light
            } else if dark {
                Lightness::Dark
            } else {
                Lightness::Between
            }
        }
}

/// Where a lightness of Oklch lies.
pub fn lightness<C: Copy, A: Arithmetic<C>>(ops: &A, value: C) -> (r: Lightness)
    ensures
        lightness_of(ops, value, r),
{
    let zero = zero(ops);
    let one = one(ops);
    let light = ops.at_most(one, value);
    let dark = ops.at_most(value, zero);
    if light {
        Lightness::Light
    } else if dark {
        Lightness::Dark
    } else {
        Lightness::Between
    }
}

/// True if `out` is the class of the color difference `e`, held against the
/// just noticeable difference of 0.02 and the tolerance of 0.0001: far if
/// `e` is not less than the just noticeable difference, converged if it is
/// less by less than the tolerance, and else near.
pub open spec fn graded<C, A: Arithmetic<C>>(ops: &A, e: C, out: Closeness) -> bool {
    exists|jnd: C, epsilon: C, unnoticed: bool, gap: C, within: bool|
        {
            &&& #[trigger] constant(ops, 2, 100, jnd)
            &&& #[trigger] constant(ops, 1, 10000, epsilon)
            &&& #[trigger] call_ensures(A::less, (ops, e, jnd), unnoticed)
            &&& #[trigger] call_ensures(A::minus, (ops, jnd, e), gap)
            &&& #[trigger] call_ensures(A::less, (ops, gap, epsilon), within)
            &&& out == if !unnoticed {
                Closeness::Far
            } else if within {
                Closeness::Converged
            } else {
                Closeness::Near
            }
        }
}

/// The class of a color difference, held against the just noticeable
/// difference.
pub fn grade<C: Copy, A: Arithmetic<C>>(ops: &A, e: C) -> (r: Closeness)
    ensures
        graded(ops, e, r),
{
    let jnd = number(ops, 2, 100);
    let epsilon = number(ops, 1, 10000);
    let unnoticed = ops.less(e, jnd);
    let gap = ops.minus(jnd, e);
    let within = ops.less(gap, epsilon);
    if !unnoticed {
        Closeness::Far
    } else if within {
        Closeness::Converged
    } else {
        Closeness::Near
    }
}

/// True if `out` says whether the bounds of a search are further apart
/// than the tolerance of 0.0001.
pub open spec fn far_apart<C, A: Arithmetic<C>>(ops: &A, min: C, max: C, out: bool) -> bool {
    exists|epsilon: C, gap: C|
        {
            &&& #[trigger] constant(ops, 1, 10000, epsilon)
            &&& #[trigger] call_ensures(A::minus, (ops, max, min), gap)
            &&& call_ensures(A::less, (ops, epsilon, gap), out)
        }
}

/// True if the bounds of a search are further apart than the tolerance.
pub fn is_apart<C: Copy, A: Arithmetic<C>>(ops: &A, min: C, max: C) -> (r: bool)
    ensures
        far_apart(ops, min, max, r),
{
    let epsilon = number(ops, 1, 10000);
    let gap = ops.minus(max, min);
    ops.less(epsilon, gap)
}

/// True if `after` holds the flags of a color whose three components were
/// set anew and whose alpha was kept: no component is missing, and the
/// alpha is missing if and only if it was missing before.
pub open spec fn alpha_kept(before: Flags, after: Flags) -> bool {
    &&& after.wf()
    &&& !after.has(Channel::C0)
    &&& !after.has(Channel::C1)
    &&& !after.has(Channel::C2)
    &&& after.has(Channel::Alpha) == before.has(Channel::Alpha)
}

/// The greatest number of times that the search halves the range of the
/// chroma. A range that a component can hold is below the tolerance of the
/// search long before.
pub const SEARCH_ROUNDS: usize = 64;

/// True if `out` says whether each of the three components lies between
/// zero and one.
pub open spec fn within_unit<C, A: Arithmetic<C>>(ops: &A, components: Components<C>, out: bool) -> bool {
    exists|a: bool, b: bool, c: bool|
        {
            &&& #[trigger] unit(ops, components.0, a)
            &&& #[trigger] unit(ops, components.1, b)
            &&& #[trigger] unit(ops, components.2, c)
            &&& out == (a && b && c)
        }
}

/// True if each of the three components lies between zero and one.
pub fn all_in_unit<C: Copy, A: Arithmetic<C>>(ops: &A, components: Components<C>) -> (r: bool)
    ensures
        within_unit(ops, components, r),
{
    let a = in_unit(ops, components.0);
    let b = in_unit(ops, components.1);
    let c = in_unit(ops, components.2);
    a && b && c
}

/// True if `out` is the color difference of `sample` and `reference`:
/// both are taken to Oklab, and `out` is their distance there.
pub open spec fn differs<C: Copy, A: Arithmetic<C>>(
    ops: &A,
    reference: Color<C>,
    sample: Color<C>,
    out: C,
) -> bool {
    exists|a: Color<C>, b: Color<C>|
        {
            &&& reference.converts_to(ops, Space::Oklab, a)
            &&& sample.converts_to(ops, Space::Oklab, b)
            &&& #[trigger] distance(ops, a.components, b.components, out)
        }
}

/// True if `out` is how close `sample` is to `reference`: their color
/// difference, held against the just noticeable difference.
pub open spec fn close<C: Copy, A: Arithmetic<C>>(
    ops: &A,
    reference: Color<C>,
    sample: Color<C>,
    out: Closeness,
) -> bool {
    exists|e: C| #[trigger] differs(ops, reference, sample, e) && graded(ops, e, out)
}

/// The color with its second component replaced.
pub open spec fn with_c1<C>(color: Color<C>, c1: C) -> Color<C> {
    Color {
        components: Components(color.components.0, c1, color.components.2),
        alpha: color.alpha,
        flags: color.flags,
        space: color.space,
    }
}

impl Narrow {
    /// The lower bound after a round that tried `chroma`.
    pub open spec fn lower<C>(self, min: C, chroma: C) -> C {
        if self == Narrow::RaiseMin || self == Narrow::RaiseMinOutside {
            chroma
        } else {
            min
        }
    }

    /// The upper bound after a round that tried `chroma`.
    pub open spec fn upper<C>(self, max: C, chroma: C) -> C {
        if self == Narrow::LowerMax {
            chroma
        } else {
            max
        }
    }

    /// Whether the lower bound is inside the gamut after a round.
    pub open spec fn inside(self, min_in_gamut: bool) -> bool {
        min_in_gamut && self != Narrow::RaiseMinOutside
    }
}

/// True if a round of the search between `min` and `max` tries `chroma`
/// and finds what is listed after it: the chroma is the mean of the bounds,
/// `tried` is the color with that chroma taken to `space`, `inside` says
/// whether it is within the gamut, `clipped` is its clipped form, and `e`
/// says how close the two are.
pub open spec fn tries<C: Copy, A: Arithmetic<C>>(
    ops: &A,
    space: Space,
    oklch: Color<C>,
    min: C,
    max: C,
    chroma: C,
    tried: Color<C>,
    inside: bool,
    clipped: Color<C>,
    e: Closeness,
) -> bool {
    &&& halfway(ops, min, max, chroma)
    &&& with_c1(oklch, chroma).converts_to(ops, space, tried)
    &&& tried.gamut_checked(ops, inside)
    &&& tried.clips_to(ops, clipped)
    &&& close(ops, clipped, with_c1(oklch, chroma), e)
}

/// True if `out` is what the search for a chroma returns.
///
/// - `space`: the space of the color that is mapped.
/// - `oklch`: that color in Oklch.
/// - `min`, `max`: the bounds between which the chroma is searched.
/// - `min_in_gamut`: the lower bound is still inside the gamut.
/// - `last`: the clipped form of the color that was tried last, in `space`.
/// - `rounds`: the number of rounds that are left.
///
/// While rounds are left and the bounds are further apart than the
/// tolerance, the chroma in the middle of the bounds is tried, and
/// [`narrow_of`] says how the search goes on: with which bounds, or that it
/// ends with the clipped form of what was tried. When the bounds are close
/// enough, or no round is left, the result is the clipped form of the color
/// that was tried last.
pub open spec fn searched<C: Copy, A: Arithmetic<C>>(
    ops: &A,
    space: Space,
    oklch: Color<C>,
    min: C,
    max: C,
    min_in_gamut: bool,
    last: Color<C>,
    rounds: nat,
    out: Color<C>,
) -> bool
    decreases rounds, 1nat,
{
    if rounds == 0 {
        out == last
    } else {
        exists|apart: bool|
            {
                &&& #[trigger] far_apart(ops, min, max, apart)
                &&& if !apart {
                    out == last
                } else {
                    exists|chroma: C, tried: Color<C>, inside: bool, clipped: Color<C>, e: Closeness|
                        {
                            &&& #[trigger] tries(
                                ops,
                                space,
                                oklch,
                                min,
                                max,
                                chroma,
                                tried,
                                inside,
                                clipped,
                                e,
                            )
                            &&& searched_on(
                                ops,
                                space,
                                oklch,
                                min,
                                max,
                                min_in_gamut,
                                chroma,
                                clipped,
                                narrow_of(min_in_gamut, inside, e),
                                rounds,
                                out,
                            )
                        }
                }
            }
    }
}

/// True if `out` is what the search returns after a round that tried
/// `chroma` and goes on as `step` says: the clipped form of what was tried,
/// or what the search between the new bounds returns.
pub open spec fn searched_on<C: Copy, A: Arithmetic<C>>(
    ops: &A,
    space: Space,
    oklch: Color<C>,
    min: C,
    max: C,
    min_in_gamut: bool,
    chroma: C,
    clipped: Color<C>,
    step: Narrow,
    rounds: nat,
    out: Color<C>,
) -> bool
    decreases rounds, 0nat,
{
    if step == Narrow::ReturnClipped || rounds == 0 {
        out == clipped
    } else {
        searched(
            ops,
            space,
            oklch,
            step.lower(min, chroma),
            step.upper(max, chroma),
            step.inside(min_in_gamut),
            clipped,
            (rounds - 1) as nat,
            out,
        )
    }
}

/// Calculate the color difference of two colors: the root of the sum of
/// the squares of the differences of their components in Oklab.
pub fn delta_eok<C: Copy, A: Arithmetic<C>>(ops: &A, reference: &Color<C>, sample: &Color<C>) -> (r:
    C)
    ensures
        differs(ops, *reference, *sample, r),
{
    let a = reference.to_space(ops, Space::Oklab);
    let b = sample.to_space(ops, Space::Oklab);
    distance_between(ops, a.components, b.components)
}

/// How close `sample` is to `reference`.
pub fn closeness<C: Copy, A: Arithmetic<C>>(
    ops: &A,
    reference: &Color<C>,
    sample: &Color<C>,
) -> (r: Closeness)
    ensures
        close(ops, *reference, *sample, r),
{
    let e = delta_eok(ops, reference, sample);
    grade(ops, e)
}

/// Search the chroma between `min` and `max`.
fn search<C: Copy, A: Arithmetic<C>>(
    ops: &A,
    space: Space,
    oklch: &Color<C>,
    min: C,
    max: C,
    min_in_gamut: bool,
    last: Color<C>,
    rounds: usize,
) -> (r: Color<C>)
    requires
        last.space == space,
        last.channel(Channel::Alpha) == oklch.channel(Channel::Alpha),
        last.alpha == oklch.alpha,
    ensures
        searched(ops, space, *oklch, min, max, min_in_gamut, last, rounds as nat, r),
        r.space == space,
        r.channel(Channel::Alpha) == oklch.channel(Channel::Alpha),
        r.alpha == oklch.alpha,
    decreases rounds,
{
    if rounds == 0 {
        return last;
    }
    if !is_apart(ops, min, max) {
        return last;
    }
    let chroma = midpoint(ops, min, max);
    let mut current = *oklch;
    current.components.1 = chroma;
    assert(current == with_c1(*oklch, chroma));
    let tried = current.to_space(ops, space);
    let inside = tried.in_gamut(ops);
    let clipped = tried.clip(ops);
    let e = closeness(ops, &clipped, &current);
    assert(tries(ops, space, *oklch, min, max, chroma, tried, inside, clipped, e));
    match narrow(min_in_gamut, inside, e) {
        Narrow::RaiseMin => search(ops, space, oklch, chroma, max, min_in_gamut, clipped, rounds - 1),
        Narrow::RaiseMinOutside => search(ops, space, oklch, chroma, max, false, clipped, rounds - 1),
        Narrow::LowerMax => search(ops, space, oklch, min, chroma, min_in_gamut, clipped, rounds - 1),
        Narrow::ReturnClipped => clipped,
    }
}

impl<C: Copy> Color<C> {
    /// True if `out` says whether this color is within its gamut limits:
    /// each component lies between zero and one, after the color was taken
    /// to sRGB if its space is HSL or HWB. A color of a space without gamut
    /// limits is always within them.
    pub open spec fn gamut_checked<A: Arithmetic<C>>(self, ops: &A, out: bool) -> bool {
        match self.space.gamut() {
            None => out,
            Some(gamut) => exists|c: Color<C>|
                {
                    &&& self.converts_to(ops, gamut, c)
                    &&& #[trigger] within_unit(ops, c.components, out)
                },
        }
    }

    /// Returns true if the color is within its gamut limits.
    pub fn in_gamut<A: Arithmetic<C>>(&self, ops: &A) -> (r: bool)
        ensures
            self.gamut_checked(ops, r),
    {
        match self.space.gamut_space() {
            None => true,
            Some(gamut) => {
                let c = self.to_space(ops, gamut);
                all_in_unit(ops, c.components)
            },
        }
    }

    /// True if `out` is this color with each of the three components
    /// clamped to the range from zero to one. No component is missing in
    /// it. The alpha is as it is in this color, missing or not.
    pub open spec fn clips_to<A: Arithmetic<C>>(self, ops: &A, out: Color<C>) -> bool {
        &&& out.space == self.space
        &&& alpha_kept(self.flags, out.flags)
        &&& clamps(ops, self.components.0, out.components.0)
        &&& clamps(ops, self.components.1, out.components.1)
        &&& clamps(ops, self.components.2, out.components.2)
        &&& out.alpha == self.alpha
    }

    /// Return a color with each of the components clipped: clamped to the
    /// range from zero to one. The alpha stays as it is.
    pub fn clip<A: Arithmetic<C>>(&self, ops: &A) -> (r: Color<C>)
        ensures
            self.clips_to(ops, r),
            r.space == self.space,
            r.alpha == self.alpha,
            r.channel(Channel::Alpha) == self.channel(Channel::Alpha),
    {
        Color {
            components: Components(
                clamp_unit(ops, self.components.0),
                clamp_unit(ops, self.components.1),
                clamp_unit(ops, self.components.2),
            ),
            alpha: self.alpha,
            flags: self.flags.intersection(Flags::only(Channel::Alpha)),
            space: self.space,
        }
    }

    /// True if `out` is the color of the space of this one of which all
    /// three components are `value`, with the alpha of this color, missing
    /// or not.
    pub open spec fn flat(self, value: C, out: Color<C>) -> bool {
        &&& out.space == self.space
        &&& alpha_kept(self.flags, out.flags)
        &&& out.components == Components(value, value, value)
        &&& out.alpha == self.alpha
    }

    /// True if `out` is what follows from the measurements on this color:
    /// what [`verdict_of`] names for them.
    pub open spec fn follows<A: Arithmetic<C>>(
        self,
        ops: &A,
        inside: bool,
        oklch: Color<C>,
        light: Lightness,
        clipped: Color<C>,
        e: Closeness,
        out: Color<C>,
    ) -> bool {
        match verdict_of(self.space, inside, light, e) {
            Verdict::Unchanged => out == self,
            Verdict::White => exists|one: C|
                #[trigger] constant(ops, 1, 1, one) && self.flat(one, out),
            Verdict::Black => exists|zero: C|
                #[trigger] constant(ops, 0, 1, zero) && self.flat(zero, out),
            Verdict::Clipped => out == clipped,
            Verdict::Search => exists|zero: C|
                #[trigger] constant(ops, 0, 1, zero) && searched(
                    ops,
                    self.space,
                    oklch,
                    zero,
                    oklch.components.1,
                    true,
                    clipped,
                    SEARCH_ROUNDS as nat,
                    out,
                ),
        }
    }

    /// True if `out` is this color mapped into the gamut limits of its
    /// space.
    ///
    /// What is measured on the color is its being within the gamut, the
    /// class of its lightness in Oklch, and how close it is to its clipped
    /// form. [`verdict_of`] says what follows from that: the color itself,
    /// white, black, the clipped form, or the result of the search for a
    /// chroma between zero and the chroma of the color. The search starts
    /// from the clipped form of the color, which is its result if no chroma
    /// is tried.
    pub open spec fn maps_to<A: Arithmetic<C>>(self, ops: &A, out: Color<C>) -> bool {
        exists|inside: bool|
            {
                &&& #[trigger] self.gamut_checked(ops, inside)
                &&& if !self.space.limited() || inside {
                    out == self
                } else {
                    exists|oklch: Color<C>, light: Lightness, clipped: Color<C>, e: Closeness|
                        {
                            &&& self.converts_to(ops, Space::Oklch, oklch)
                            &&& #[trigger] lightness_of(ops, oklch.components.0, light)
                            &&& self.clips_to(ops, clipped)
                            &&& #[trigger] close(ops, oklch, clipped, e)
                            &&& self.follows(ops, inside, oklch, light, clipped, e, out)
                        }
                }
            }
    }

    /// If this color is not within gamut limits of its color space, then a
    /// gamut mapping is applied to map the components into range.
    pub fn map_into_gamut_limits<A: Arithmetic<C>>(&self, ops: &A) -> (r: Self)
        ensures
            self.maps_to(ops, r),
            r.space == self.space,
            r.channel(Channel::Alpha) == self.channel(Channel::Alpha),
            r.alpha == self.alpha,
            !self.space.limited() ==> r == *self,
    {
        let inside = self.in_gamut(ops);
        if !self.space.has_gamut_limits() || inside {
            return *self;
        }
        let oklch = self.to_space(ops, Space::Oklch);
        let light = lightness(ops, oklch.components.0);
        let clipped = self.clip(ops);
        let e = closeness(ops, &oklch, &clipped);
        let r = match verdict(self.space, inside, light, e) {
            Verdict::Unchanged => *self,
            Verdict::White => self.filled(one(ops)),
            Verdict::Black => self.filled(zero(ops)),
            Verdict::Clipped => clipped,
            Verdict::Search => search(
                ops,
                self.space,
                &oklch,
                zero(ops),
                oklch.components.1,
                true,
                clipped,
                SEARCH_ROUNDS,
            ),
        };
        assert(close(ops, oklch, clipped, e));
        r
    }

    /// The color of the space of this one of which all three components are
    /// `value`, with the alpha of this color.
    fn filled(&self, value: C) -> (r: Self)
        ensures
            self.flat(value, r),
    {
        Color {
            components: Components(value, value, value),
            alpha: self.alpha,
            flags: self.flags.intersection(Flags::only(Channel::Alpha)),
            space: self.space,
        }
    }
}

/// A color that every test finds within its gamut limits is mapped to
/// itself.
pub proof fn lemma_in_gamut_maps_to_itself<C: Copy, A: Arithmetic<C>>(
    ops: &A,
    color: Color<C>,
    out: Color<C>,
)
    requires
        forall|inside: bool| #[trigger] color.gamut_checked(ops, inside) ==> inside,
        color.maps_to(ops, out),
    ensures
        out == color,
{
}

/// A color of a space without gamut limits is mapped to itself.
pub proof fn lemma_unlimited_maps_to_itself<C: Copy, A: Arithmetic<C>>(
    ops: &A,
    color: Color<C>,
    out: Color<C>,
)
    requires
        !color.space.limited(),
        color.maps_to(ops, out),
    ensures
        out == color,
{
}

/// Mapping a color twice gives what mapping it once gives, where every
/// test finds the result of the first mapping within its gamut limits.
pub proof fn lemma_mapping_twice<C: Copy, A: Arithmetic<C>>(
    ops: &A,
    color: Color<C>,
    once: Color<C>,
    twice: Color<C>,
)
    requires
        color.maps_to(ops, once),
        once.maps_to(ops, twice),
        forall|inside: bool| #[trigger] once.gamut_checked(ops, inside) ==> inside,
    ensures
        twice == once,
{
    lemma_in_gamut_maps_to_itself(ops, once, twice);
}

/// True if `out` is a form in which every component lies between zero
/// and one as far as the arithmetic clamps it there: all components one,
/// all components zero, or the clipped form of some color of the same
/// space.
pub open spec fn clamped_form<C: Copy, A: Arithmetic<C>>(
    ops: &A,
    color: Color<C>,
    out: Color<C>,
) -> bool {
    ||| exists|one: C| #[trigger] constant(ops, 1, 1, one) && color.flat(one, out)
    ||| exists|zero: C| #[trigger] constant(ops, 0, 1, zero) && color.flat(zero, out)
    ||| exists|some: Color<C>| #[trigger] some.clips_to(ops, out) && some.space == color.space
}

/// The result of a search is the clipped form of some color of the space
/// that is searched for.
pub proof fn lemma_search_gives_clipped<C: Copy, A: Arithmetic<C>>(
    ops: &A,
    space: Space,
    oklch: Color<C>,
    min: C,
    max: C,
    min_in_gamut: bool,
    last: Color<C>,
    rounds: nat,
    out: Color<C>,
)
    requires
        searched(ops, space, oklch, min, max, min_in_gamut, last, rounds, out),
        exists|some: Color<C>| #[trigger] some.clips_to(ops, last) && some.space == space,
    ensures
        exists|some: Color<C>| #[trigger] some.clips_to(ops, out) && some.space == space,
    decreases rounds,
{
    if rounds > 0 && out != last {
        let (chroma, tried, inside, clipped, e) = choose|
            chroma: C,
            tried: Color<C>,
            inside: bool,
            clipped: Color<C>,
            e: Closeness,
        |
            {
                &&& #[trigger] tries(ops, space, oklch, min, max, chroma, tried, inside, clipped, e)
                &&& searched_on(
                    ops,
                    space,
                    oklch,
                    min,
                    max,
                    min_in_gamut,
                    chroma,
                    clipped,
                    narrow_of(min_in_gamut, inside, e),
                    rounds,
                    out,
                )
            };
        let step = narrow_of(min_in_gamut, inside, e);
        lemma_converted_space(ops, with_c1(oklch, chroma), space, tried);
        assert(tried.clips_to(ops, clipped) && tried.space == space);
        if step != Narrow::ReturnClipped {
            lemma_search_gives_clipped(
                ops,
                space,
                oklch,
                step.lower(min, chroma),
                step.upper(max, chroma),
                step.inside(min_in_gamut),
                clipped,
                (rounds - 1) as nat,
                out,
            );
        }
    }
}

/// A color that is mapped into its gamut limits stays as it is only if its
/// space has no limits or a test found it within them. Every other result
/// is white, black, or the clipped form of a color of the same space.
pub proof fn lemma_mapped_is_clamped<C: Copy, A: Arithmetic<C>>(
    ops: &A,
    color: Color<C>,
    out: Color<C>,
)
    requires
        color.maps_to(ops, out),
    ensures
        ({
            ||| out == color && (!color.space.limited() || color.gamut_checked(ops, true))
            ||| clamped_form(ops, color, out)
        }),
{
    let inside = choose|inside: bool|
        {
            &&& #[trigger] color.gamut_checked(ops, inside)
            &&& if !color.space.limited() || inside {
                out == color
            } else {
                exists|oklch: Color<C>, light: Lightness, clipped: Color<C>, e: Closeness|
                    {
                        &&& color.converts_to(ops, Space::Oklch, oklch)
                        &&& #[trigger] lightness_of(ops, oklch.components.0, light)
                        &&& color.clips_to(ops, clipped)
                        &&& #[trigger] close(ops, oklch, clipped, e)
                        &&& color.follows(ops, inside, oklch, light, clipped, e, out)
                    }
            }
        };
    if !color.space.limited() || inside {
    } else {
        let (oklch, light, clipped, e) = choose|
            oklch: Color<C>,
            light: Lightness,
            clipped: Color<C>,
            e: Closeness,
        |
            {
                &&& color.converts_to(ops, Space::Oklch, oklch)
                &&& #[trigger] lightness_of(ops, oklch.components.0, light)
                &&& color.clips_to(ops, clipped)
                &&& #[trigger] close(ops, oklch, clipped, e)
                &&& color.follows(ops, inside, oklch, light, clipped, e, out)
            };
        assert(color.clips_to(ops, clipped) && color.space == color.space);
        match verdict_of(color.space, inside, light, e) {
            Verdict::Search => {
                let zero = choose|zero: C|
                    #[trigger] constant(ops, 0, 1, zero) && searched(
                        ops,
                        color.space,
                        oklch,
                        zero,
                        oklch.components.1,
                        true,
                        clipped,
                        SEARCH_ROUNDS as nat,
                        out,
                    );
                lemma_search_gives_clipped(
                    ops,
                    color.space,
                    oklch,
                    zero,
                    oklch.components.1,
                    true,
                    clipped,
                    SEARCH_ROUNDS as nat,
                    out,
                );
            },
            _ => {},
        }
    }
}

/// A converted color is of the space that it was converted to.
pub proof fn lemma_converted_space<C: Copy, A: Arithmetic<C>>(
    ops: &A,
    color: Color<C>,
    space: Space,
    out: Color<C>,
)
    requires
        color.converts_to(ops, space, out),
    ensures
        out.space == space,
{
}

/// The result of a search has the space that is searched for and the alpha
/// of the color that is mapped, missing or not, stored as it was.
pub proof fn lemma_search_keeps_alpha<C: Copy, A: Arithmetic<C>>(
    ops: &A,
    space: Space,
    oklch: Color<C>,
    min: C,
    max: C,
    min_in_gamut: bool,
    last: Color<C>,
    rounds: nat,
    out: Color<C>,
)
    requires
        searched(ops, space, oklch, min, max, min_in_gamut, last, rounds, out),
        last.space == space,
        last.channel(Channel::Alpha) == oklch.channel(Channel::Alpha),
        last.alpha == oklch.alpha,
    ensures
        out.space == space,
        out.channel(Channel::Alpha) == oklch.channel(Channel::Alpha),
        out.alpha == oklch.alpha,
    decreases rounds,
{
    if rounds > 0 && out != last {
        let (chroma, tried, inside, clipped, e) = choose|
            chroma: C,
            tried: Color<C>,
            inside: bool,
            clipped: Color<C>,
            e: Closeness,
        |
            {
                &&& #[trigger] tries(ops, space, oklch, min, max, chroma, tried, inside, clipped, e)
                &&& searched_on(
                    ops,
                    space,
                    oklch,
                    min,
                    max,
                    min_in_gamut,
                    chroma,
                    clipped,
                    narrow_of(min_in_gamut, inside, e),
                    rounds,
                    out,
                )
            };
        let step = narrow_of(min_in_gamut, inside, e);
        lemma_converted_space(ops, with_c1(oklch, chroma), space, tried);
        assert(tried.channel(Channel::Alpha) == oklch.channel(Channel::Alpha));
        assert(tried.alpha == oklch.alpha);
        assert(clipped.channel(Channel::Alpha) == oklch.channel(Channel::Alpha));
        if step != Narrow::ReturnClipped {
            lemma_search_keeps_alpha(
                ops,
                space,
                oklch,
                step.lower(min, chroma),
                step.upper(max, chroma),
                step.inside(min_in_gamut),
                clipped,
                (rounds - 1) as nat,
                out,
            );
        }
    }
}

/// A color that is mapped into its gamut limits keeps its space and its
/// alpha: an alpha that is missing stays missing, and one that is there
/// stays as it is.
pub proof fn lemma_mapped_keeps_alpha<C: Copy, A: Arithmetic<C>>(
    ops: &A,
    color: Color<C>,
    out: Color<C>,
)
    requires
        color.maps_to(ops, out),
    ensures
        out.space == color.space,
        out.channel(Channel::Alpha) == color.channel(Channel::Alpha),
        out.alpha == color.alpha,
{
    let inside = choose|inside: bool|
        {
            &&& #[trigger] color.gamut_checked(ops, inside)
            &&& if !color.space.limited() || inside {
                out == color
            } else {
                exists|oklch: Color<C>, light: Lightness, clipped: Color<C>, e: Closeness|
                    {
                        &&& color.converts_to(ops, Space::Oklch, oklch)
                        &&& #[trigger] lightness_of(ops, oklch.components.0, light)
                        &&& color.clips_to(ops, clipped)
                        &&& #[trigger] close(ops, oklch, clipped, e)
                        &&& color.follows(ops, inside, oklch, light, clipped, e, out)
                    }
            }
        };
    if !color.space.limited() || inside {
    } else {
        let (oklch, light, clipped, e) = choose|
            oklch: Color<C>,
            light: Lightness,
            clipped: Color<C>,
            e: Closeness,
        |
            {
                &&& color.converts_to(ops, Space::Oklch, oklch)
                &&& #[trigger] lightness_of(ops, oklch.components.0, light)
                &&& color.clips_to(ops, clipped)
                &&& #[trigger] close(ops, oklch, clipped, e)
                &&& color.follows(ops, inside, oklch, light, clipped, e, out)
            };
        assert(oklch.channel(Channel::Alpha) == color.channel(Channel::Alpha));
        assert(oklch.alpha == color.alpha);
        match verdict_of(color.space, inside, light, e) {
            Verdict::Search => {
                let zero = choose|zero: C|
                    #[trigger] constant(ops, 0, 1, zero) && searched(
                        ops,
                        color.space,
                        oklch,
                        zero,
                        oklch.components.1,
                        true,
                        clipped,
                        SEARCH_ROUNDS as nat,
                        out,
                    );
                lemma_search_keeps_alpha(
                    ops,
                    color.space,
                    oklch,
                    zero,
                    oklch.components.1,
                    true,
                    clipped,
                    SEARCH_ROUNDS as nat,
                    out,
                );
            },
            _ => {},
        }
    }
}

/// True if the arithmetic is sound on the unit range: a test of a number
/// against the range always says the same, and it says yes of zero, of one
/// and of every number that was clamped to the range.
pub open spec fn sound_on_unit<C, A: Arithmetic<C>>(ops: &A) -> bool {
    &&& forall|a: C, first: bool, second: bool|
        #[trigger] unit(ops, a, first) && #[trigger] unit(ops, a, second) ==> first == second
    &&& forall|a: C, inside: bool|
        (constant(ops, 0, 1, a) || constant(ops, 1, 1, a)) && #[trigger] unit(ops, a, inside)
            ==> inside
    &&& forall|a: C, clamped: C, inside: bool|
        #[trigger] clamps(ops, a, clamped) && #[trigger] unit(ops, clamped, inside) ==> inside
}

/// True if every test of the color against the gamut of its space says
/// that the color is within it.
pub open spec fn always_in_gamut<C: Copy, A: Arithmetic<C>>(ops: &A, color: Color<C>) -> bool {
    forall|inside: bool| #[trigger] color.gamut_checked(ops, inside) ==> inside
}

/// A color of an RGB space is within its gamut limits after it was mapped
/// into them: each component of the result lies between zero and one by
/// every test, in an arithmetic that is sound on the unit range.
pub proof fn lemma_mapped_is_in_gamut<C: Copy, A: Arithmetic<C>>(
    ops: &A,
    color: Color<C>,
    out: Color<C>,
)
    requires
        sound_on_unit(ops),
        color.space.rgb_like(),
        color.maps_to(ops, out),
    ensures
        out.space == color.space,
        always_in_gamut(ops, out),
{
    lemma_mapped_is_clamped(ops, color, out);
    lemma_mapped_keeps_alpha(ops, color, out);
    assert forall|inside: bool| #[trigger] out.gamut_checked(ops, inside) implies inside by {
        let c = choose|c: Color<C>|
            out.converts_to(ops, out.space, c) && #[trigger] within_unit(ops, c.components, inside);
        assert(c == out);
        let (a0, a1, a2) = choose|a0: bool, a1: bool, a2: bool|
            {
                &&& #[trigger] unit(ops, out.components.0, a0)
                &&& #[trigger] unit(ops, out.components.1, a1)
                &&& #[trigger] unit(ops, out.components.2, a2)
                &&& inside == (a0 && a1 && a2)
            };
        if out == color && color.gamut_checked(ops, true) {
            let d = choose|d: Color<C>|
                color.converts_to(ops, color.space, d) && #[trigger] within_unit(
                    ops,
                    d.components,
                    true,
                );
            assert(d == color);
            let (b0, b1, b2) = choose|b0: bool, b1: bool, b2: bool|
                {
                    &&& #[trigger] unit(ops, color.components.0, b0)
                    &&& #[trigger] unit(ops, color.components.1, b1)
                    &&& #[trigger] unit(ops, color.components.2, b2)
                    &&& true == (b0 && b1 && b2)
                };
            assert(a0 == b0 && a1 == b1 && a2 == b2);
        } else {
            assert(clamped_form(ops, color, out));
            if exists|some: Color<C>| #[trigger] some.clips_to(ops, out) && some.space == color.space {
                let some = choose|some: Color<C>|
                    #[trigger] some.clips_to(ops, out) && some.space == color.space;
                assert(clamps(ops, some.components.0, out.components.0));
                assert(clamps(ops, some.components.1, out.components.1));
                assert(clamps(ops, some.components.2, out.components.2));
            } else if exists|one: C| #[trigger] constant(ops, 1, 1, one) && color.flat(one, out) {
                let one = choose|one: C| #[trigger] constant(ops, 1, 1, one) && color.flat(one, out);
                assert(out.components == Components(one, one, one));
            } else {
                let zero = choose|zero: C|
                    #[trigger] constant(ops, 0, 1, zero) && color.flat(zero, out);
                assert(out.components == Components(zero, zero, zero));
            }
            assert(a0 && a1 && a2);
        }
    }
}

/// Mapping a color of an RGB space into its gamut limits twice gives what
/// mapping it once gives, in an arithmetic that is sound on the unit range.
pub proof fn lemma_mapping_is_idempotent<C: Copy, A: Arithmetic<C>>(
    ops: &A,
    color: Color<C>,
    once: Color<C>,
    twice: Color<C>,
)
    requires
        sound_on_unit(ops),
        color.space.rgb_like(),
        color.maps_to(ops, once),
        once.maps_to(ops, twice),
    ensures
        twice == once,
{
    lemma_mapped_is_in_gamut(ops, color, once);
    lemma_mapping_twice(ops, color, once, twice);
}

} // verus!
