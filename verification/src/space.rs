//! The closed set of supported color spaces and notations.

use crate::flags::Channel;
use vstd::prelude::*;

verus! {

/// Various color spaces and forms supported by the CSS specification.
#[derive(Clone, Copy, Debug, PartialEq, Eq, Structural)]
pub enum Space {
    /// The sRGB color space.
    Srgb,
    /// The HSL (hue, saturation, lightness) notation of sRGB colors.
    Hsl,
    /// The HWB (hue, whiteness, blackness) notation of sRGB colors.
    Hwb,
    /// CIE-Lab, rectangular form.
    Lab,
    /// CIE-Lab, cylindrical polar form.
    Lch,
    /// Oklab, rectangular form.
    Oklab,
    /// Oklab, cylindrical polar form.
    Oklch,
    /// The sRGB color space without gamma encoding.
    SrgbLinear,
    /// display-p3
    DisplayP3,
    /// a98-rgb
    A98Rgb,
    /// prophoto-rgb
    ProPhotoRgb,
    /// rec2020
    Rec2020,
    /// CIE-XYZ with a D50 reference white.
    XyzD50,
    /// CIE-XYZ with a D65 reference white.
    XyzD65,
}

/// What a channel of a color measures. Channels of two spaces are analogous
/// when they measure the same thing.
#[derive(Clone, Copy, Debug, PartialEq, Eq, Structural)]
pub enum Role {
    /// The red channel of an RGB space.
    Red,
    /// The green channel of an RGB space.
    Green,
    /// The blue channel of an RGB space.
    Blue,
    /// The X coordinate of CIE-XYZ.
    X,
    /// The Y coordinate of CIE-XYZ.
    Y,
    /// The Z coordinate of CIE-XYZ.
    Z,
    /// Lightness.
    Lightness,
    /// Chroma or saturation.
    Colorfulness,
    /// The hue angle.
    Hue,
    /// The a axis of Lab and Oklab.
    OpponentA,
    /// The b axis of Lab and Oklab.
    OpponentB,
    /// The whiteness of HWB.
    Whiteness,
    /// The blackness of HWB.
    Blackness,
    /// Opacity.
    Alpha,
}

impl Space {
    /// True for the spaces whose components are red, green and blue.
    pub open spec fn rgb_like(self) -> bool {
        matches!(
            self,
            Space::Srgb | Space::SrgbLinear | Space::DisplayP3 | Space::A98Rgb
                | Space::ProPhotoRgb | Space::Rec2020
        )
    }

    /// True for the spaces whose components are X, Y and Z.
    pub open spec fn xyz_like(self) -> bool {
        matches!(self, Space::XyzD50 | Space::XyzD65)
    }

    /// The position of the hue among the three components, in the spaces
    /// that have one.
    pub open spec fn hue_position(self) -> Option<usize> {
        match self {
            Space::Hsl | Space::Hwb => Some(0usize),
            Space::Lch | Space::Oklch => Some(2usize),
            _ => None,
        }
    }

    /// Returns true if the color space uses red, green and blue components.
    pub fn _is_rgb_like(&self) -> (r: bool)
        ensures
            r == self.rgb_like(),
    {
        match self {
            Space::Srgb
            | Space::SrgbLinear
            | Space::DisplayP3
            | Space::A98Rgb
            | Space::ProPhotoRgb
            | Space::Rec2020 => true,
            Space::Hsl
            | Space::Hwb
            | Space::Lab
            | Space::Lch
            | Space::Oklab
            | Space::Oklch
            | Space::XyzD50
            | Space::XyzD65 => false,
        }
    }

    /// Returns true if the color space uses X, Y and Z components.
    pub fn _is_xyz_like(&self) -> (r: bool)
        ensures
            r == self.xyz_like(),
    {
        match self {
            Space::XyzD50 | Space::XyzD65 => true,
            Space::Srgb
            | Space::SrgbLinear
            | Space::Hsl
            | Space::Hwb
            | Space::Lab
            | Space::Lch
            | Space::Oklab
            | Space::Oklch
            | Space::DisplayP3
            | Space::A98Rgb
            | Space::ProPhotoRgb
            | Space::Rec2020 => false,
        }
    }

    /// Returns the index of a hue component, otherwise `None` if the color
    /// space does not have a hue component.
    pub fn hue_index(&self) -> (r: Option<usize>)
        ensures
            r == self.hue_position(),
            r == Some(0usize) <==> self.role(Channel::C0) == Role::Hue,
            r == Some(2usize) <==> self.role(Channel::C2) == Role::Hue,
            r is None <==> forall|c: Channel| #[trigger] self.role(c) != Role::Hue,
    {
        proof {
            if self.hue_position() is None {
                assert forall|c: Channel| #[trigger] self.role(c) != Role::Hue by {}
            } else if self.hue_position() == Some(0usize) {
                assert(self.role(Channel::C0) == Role::Hue);
            } else {
                assert(self.role(Channel::C2) == Role::Hue);
            }
        }
        match self {
            Space::Hsl => Some(0),
            Space::Hwb => Some(0),
            Space::Lch => Some(2),
            Space::Oklch => Some(2),
            Space::Srgb
            | Space::SrgbLinear
            | Space::Lab
            | Space::Oklab
            | Space::XyzD50
            | Space::XyzD65
            | Space::DisplayP3
            | Space::A98Rgb
            | Space::ProPhotoRgb
            | Space::Rec2020 => None,
        }
    }

    /// What the given channel measures in this space.
    pub open spec fn role(self, channel: Channel) -> Role {
        match channel {
            Channel::Alpha => Role::Alpha,
            Channel::C0 => match self {
                Space::Hsl | Space::Hwb => Role::Hue,
                Space::Lab | Space::Lch | Space::Oklab | Space::Oklch => Role::Lightness,
                Space::XyzD50 | Space::XyzD65 => Role::X,
                _ => Role::Red,
            },
            Channel::C1 => match self {
                Space::Hsl | Space::Lch | Space::Oklch => Role::Colorfulness,
                Space::Hwb => Role::Whiteness,
                Space::Lab | Space::Oklab => Role::OpponentA,
                Space::XyzD50 | Space::XyzD65 => Role::Y,
                _ => Role::Green,
            },
            Channel::C2 => match self {
                Space::Hsl => Role::Lightness,
                Space::Hwb => Role::Blackness,
                Space::Lab | Space::Oklab => Role::OpponentB,
                Space::Lch | Space::Oklch => Role::Hue,
                Space::XyzD50 | Space::XyzD65 => Role::Z,
                _ => Role::Blue,
            },
        }
    }

    /// What the given channel measures in this space.
    pub fn channel_role(&self, channel: Channel) -> (r: Role)
        ensures
            r == self.role(channel),
    {
        match channel {
            Channel::Alpha => Role::Alpha,
            Channel::C0 => match self {
                Space::Hsl | Space::Hwb => Role::Hue,
                Space::Lab | Space::Lch | Space::Oklab | Space::Oklch => Role::Lightness,
                Space::XyzD50 | Space::XyzD65 => Role::X,
                _ => Role::Red,
            },
            Channel::C1 => match self {
                Space::Hsl | Space::Lch | Space::Oklch => Role::Colorfulness,
                Space::Hwb => Role::Whiteness,
                Space::Lab | Space::Oklab => Role::OpponentA,
                Space::XyzD50 | Space::XyzD65 => Role::Y,
                _ => Role::Green,
            },
            Channel::C2 => match self {
                Space::Hsl => Role::Lightness,
                Space::Hwb => Role::Blackness,
                Space::Lab | Space::Oklab => Role::OpponentB,
                Space::Lch | Space::Oklch => Role::Hue,
                Space::XyzD50 | Space::XyzD65 => Role::Z,
                _ => Role::Blue,
            },
        }
    }

    /// No two channels of one space measure the same thing.
    pub proof fn lemma_roles_distinct(self, a: Channel, b: Channel)
        ensures
            self.role(a) == self.role(b) ==> a == b,
    {
    }
}

} // verus!
