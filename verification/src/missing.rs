//! Carrying missing components forward from one color space to another.
//!
//! A component that is missing in the source of a conversion is missing in
//! the result where the destination has an analogous component: one that
//! measures the same thing.

use crate::flags::{Channel, Flags};
use crate::space::{Role, Space};
use vstd::prelude::*;

verus! {

/// True if channel `dest` of space `to` is missing after a color with the
/// given flags was converted from space `from`: some missing channel of
/// `from` measures what `dest` measures in `to`.
pub open spec fn carried_into(from: Space, to: Space, flags: Flags, dest: Channel) -> bool {
    ||| flags.has(Channel::C0) && from.role(Channel::C0) == to.role(dest)
    ||| flags.has(Channel::C1) && from.role(Channel::C1) == to.role(dest)
    ||| flags.has(Channel::C2) && from.role(Channel::C2) == to.role(dest)
    ||| flags.has(Channel::Alpha) && from.role(Channel::Alpha) == to.role(dest)
}

/// True for the four spaces that begin with a lightness: Lab, Lch, Oklab
/// and Oklch.
fn is_lab_like(space: Space) -> (r: bool)
    ensures
        r == (space.role(Channel::C0) == Role::Lightness),
{
    matches!(space, Space::Lab | Space::Lch | Space::Oklab | Space::Oklch)
}

/// True for the two polar spaces Lch and Oklch.
fn is_polar(space: Space) -> (r: bool)
    ensures
        r == (space.role(Channel::C2) == Role::Hue),
{
    matches!(space, Space::Lch | Space::Oklch)
}

/// True for the two rectangular spaces Lab and Oklab.
fn is_rectangular(space: Space) -> (r: bool)
    ensures
        r == (space.role(Channel::C1) == Role::OpponentA),
        r == (space.role(Channel::C2) == Role::OpponentB),
{
    matches!(space, Space::Lab | Space::Oklab)
}

/// True for the two notations of sRGB that begin with a hue: HSL and HWB.
fn is_hue_first(space: Space) -> (r: bool)
    ensures
        r == (space.role(Channel::C0) == Role::Hue),
{
    matches!(space, Space::Hsl | Space::Hwb)
}

/// The flags of a color after its conversion from `from` to `to`.
///
/// A flag is carried to the analogous channel of the destination: red,
/// green and blue among the RGB spaces; X, Y and Z among the XYZ spaces;
/// lightness among Lab, Lch, Oklab, Oklch and HSL; chroma and saturation
/// among Lch, Oklch and HSL; hue among Lch, Oklch, HSL and HWB; the two
/// opponent axes among Lab and Oklab; alpha everywhere. A flag without an
/// analogous channel in the destination is dropped.
pub fn _analogous_missing_components(from: Space, to: Space, flags: Flags) -> (r: Flags)
    ensures
        r.wf(),
        forall|d: Channel| #[trigger] r.has(d) == carried_into(from, to, flags, d),
{
    let c0 = flags.is_missing(Channel::C0);
    let c1 = flags.is_missing(Channel::C1);
    let c2 = flags.is_missing(Channel::C2);

    let mut result = Flags::empty();
    result.set(Flags::only(Channel::Alpha), flags.is_missing(Channel::Alpha));

    if from == to || (from._is_rgb_like() && to._is_rgb_like()) || (from._is_xyz_like()
        && to._is_xyz_like()) {
        result.set(Flags::only(Channel::C0), c0);
        result.set(Flags::only(Channel::C1), c1);
        result.set(Flags::only(Channel::C2), c2);
        proof {
            assert forall|d: Channel| #[trigger]
                result.has(d) == carried_into(from, to, flags, d) by {
                to.lemma_roles_distinct(d, Channel::C0);
            }
        }
        return result;
    }
    // Lightness.

    if is_lab_like(from) {
        if is_lab_like(to) {
            result.set(Flags::only(Channel::C0), c0);
        } else if matches!(to, Space::Hsl) {
            result.set(Flags::only(Channel::C2), c0);
        }
    } else if matches!(from, Space::Hsl) && is_lab_like(to) {
        result.set(Flags::only(Channel::C0), c2);
    }
    // Chroma and saturation.

    if (matches!(from, Space::Hsl) || is_polar(from)) && (matches!(to, Space::Hsl) || is_polar(
        to,
    )) {
        result.set(Flags::only(Channel::C1), c1);
    }
    // Hue.

    if is_hue_first(from) {
        if is_hue_first(to) {
            result.set(Flags::only(Channel::C0), c0);
        } else if is_polar(to) {
            result.set(Flags::only(Channel::C2), c0);
        }
    } else if is_polar(from) {
        if is_hue_first(to) {
            result.set(Flags::only(Channel::C0), c2);
        } else if is_polar(to) {
            result.set(Flags::only(Channel::C2), c2);
        }
    }
    // The two opponent axes.

    if is_rectangular(from) && is_rectangular(to) {
        result.set(Flags::only(Channel::C1), c1);
        result.set(Flags::only(Channel::C2), c2);
    }
    result
}

/// Within one space every flag stays where it is.
pub proof fn lemma_carry_same_space(space: Space, flags: Flags, carried: Flags)
    requires
        flags.wf(),
        carried.wf(),
        forall|d: Channel| #[trigger] carried.has(d) == carried_into(space, space, flags, d),
    ensures
        carried == flags,
{
    assert forall|d: Channel| #[trigger] carried.has(d) == flags.has(d) by {
        space.lemma_roles_distinct(d, Channel::C0);
    }
    Flags::lemma_same_flags(carried, flags);
}

/// A missing alpha stays missing through every conversion, and alpha is
/// never missing afterwards unless it was before.
pub proof fn lemma_carry_keeps_alpha(from: Space, to: Space, flags: Flags)
    ensures
        carried_into(from, to, flags, Channel::Alpha) == flags.has(Channel::Alpha),
{
}

/// Nothing is missing after a conversion of a color that had no missing
/// channel.
pub proof fn lemma_carry_nothing(from: Space, to: Space, flags: Flags, dest: Channel)
    requires
        forall|c: Channel| !#[trigger] flags.has(c),
    ensures
        !carried_into(from, to, flags, dest),
{
}

/// Carrying flags from `a` to `b` and back to `a` sets no flag that was not
/// set at the start.
pub proof fn lemma_carry_round_trip(a: Space, b: Space, flags: Flags, there: Flags, dest: Channel)
    requires
        forall|d: Channel| #[trigger] there.has(d) == carried_into(a, b, flags, d),
        carried_into(b, a, there, dest),
    ensures
        flags.has(dest),
{
    assert(there.has(Channel::C0) == carried_into(a, b, flags, Channel::C0));
    assert(there.has(Channel::C1) == carried_into(a, b, flags, Channel::C1));
    assert(there.has(Channel::C2) == carried_into(a, b, flags, Channel::C2));
    assert(there.has(Channel::Alpha) == carried_into(a, b, flags, Channel::Alpha));
}

} // verus!
