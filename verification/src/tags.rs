//! Tags that tell the forms of a color apart in types: the gamma encoding
//! and the space of an RGB model, the white point of CIE-XYZ, and the space
//! of a rectangular or polar model.
//!
//! A tag carries no data. Each stands for a place in the conversion graph,
//! so that code that is generic over tags can name the steps between them.

use crate::convert::{Node, RgbSpace, Step};
use vstd::prelude::*;

verus! {

/// This trait is used to identify tags that specify gamma encoding.
pub trait Encoding {
    /// True if components with this tag are linear-light.
    spec fn linear() -> bool;

    /// True if components with this tag are linear-light.
    fn is_linear() -> (r: bool)
        ensures
            r == Self::linear(),
    ;
}

/// Tag for components that are gamma encoded.
#[derive(Clone, Copy, Debug)]
pub struct GammaEncoded;

impl Encoding for GammaEncoded {
    open spec fn linear() -> bool {
        false
    }

    fn is_linear() -> (r: bool) {
        false
    }
}

/// Tag for components that are linear-light: without gamma encoding.
#[derive(Clone, Copy, Debug)]
pub struct LinearLight;

impl Encoding for LinearLight {
    open spec fn linear() -> bool {
        true
    }

    fn is_linear() -> (r: bool) {
        true
    }
}

/// This trait is used for tags that represent a CIE-XYZ white point
/// reference.
pub trait WhitePoint {
    /// The space of CIE-XYZ with this white point.
    spec fn xyz() -> crate::space::Space;

    /// The space of CIE-XYZ with this white point.
    fn xyz_space() -> (r: crate::space::Space)
        ensures
            r == Self::xyz(),
    ;
}

/// CIE-XYZ color with a D50 white point reference.
#[derive(Clone, Copy, Debug)]
pub struct D50;

impl WhitePoint for D50 {
    open spec fn xyz() -> crate::space::Space {
        crate::space::Space::XyzD50
    }

    fn xyz_space() -> (r: crate::space::Space) {
        crate::space::Space::XyzD50
    }
}

/// CIE-XYZ color with a D65 white point reference.
#[derive(Clone, Copy, Debug)]
pub struct D65;

impl WhitePoint for D65 {
    open spec fn xyz() -> crate::space::Space {
        crate::space::Space::XyzD65
    }

    fn xyz_space() -> (r: crate::space::Space) {
        crate::space::Space::XyzD65
    }
}

/// This trait is used to identify tags that specify an RGB color space.
pub trait ColorSpace {
    /// The white point that the space is defined with.
    type White: WhitePoint;

    /// The RGB space that the tag stands for.
    spec fn rgb() -> RgbSpace;

    /// The space of the gamma encoded form.
    spec fn encoded() -> crate::space::Space;

    /// The RGB space that the tag stands for.
    fn rgb_space() -> (r: RgbSpace)
        ensures
            r == Self::rgb(),
            r.native_xyz() == Node::of(Self::White::xyz()),
    ;

    /// The space of the gamma encoded form.
    fn encoded_space() -> (r: crate::space::Space)
        ensures
            r == Self::encoded(),
            Node::of(r) == Node::Encoded(Self::rgb()),
    ;
}

/// Tag for the sRGB color space.
#[derive(Clone, Copy, Debug)]
pub struct Srgb;

impl ColorSpace for Srgb {
    type White = D65;

    open spec fn rgb() -> RgbSpace {
        RgbSpace::Srgb
    }

    open spec fn encoded() -> crate::space::Space {
        crate::space::Space::Srgb
    }

    fn rgb_space() -> (r: RgbSpace) {
        RgbSpace::Srgb
    }

    fn encoded_space() -> (r: crate::space::Space) {
        crate::space::Space::Srgb
    }
}

/// Tag for the display-p3 color space.
#[derive(Clone, Copy, Debug)]
pub struct DisplayP3;

impl ColorSpace for DisplayP3 {
    type White = D65;

    open spec fn rgb() -> RgbSpace {
        RgbSpace::DisplayP3
    }

    open spec fn encoded() -> crate::space::Space {
        crate::space::Space::DisplayP3
    }

    fn rgb_space() -> (r: RgbSpace) {
        RgbSpace::DisplayP3
    }

    fn encoded_space() -> (r: crate::space::Space) {
        crate::space::Space::DisplayP3
    }
}

/// Tag for the a98-rgb color space.
#[derive(Clone, Copy, Debug)]
pub struct A98Rgb;

impl ColorSpace for A98Rgb {
    type White = D65;

    open spec fn rgb() -> RgbSpace {
        RgbSpace::A98Rgb
    }

    open spec fn encoded() -> crate::space::Space {
        crate::space::Space::A98Rgb
    }

    fn rgb_space() -> (r: RgbSpace) {
        RgbSpace::A98Rgb
    }

    fn encoded_space() -> (r: crate::space::Space) {
        crate::space::Space::A98Rgb
    }
}

/// Tag for the prophoto-rgb color space.
#[derive(Clone, Copy, Debug)]
pub struct ProPhotoRgb;

impl ColorSpace for ProPhotoRgb {
    type White = D50;

    open spec fn rgb() -> RgbSpace {
        RgbSpace::ProPhotoRgb
    }

    open spec fn encoded() -> crate::space::Space {
        crate::space::Space::ProPhotoRgb
    }

    fn rgb_space() -> (r: RgbSpace) {
        RgbSpace::ProPhotoRgb
    }

    fn encoded_space() -> (r: crate::space::Space) {
        crate::space::Space::ProPhotoRgb
    }
}

/// Tag for the rec2020 color space.
#[derive(Clone, Copy, Debug)]
pub struct Rec2020;

impl ColorSpace for Rec2020 {
    type White = D65;

    open spec fn rgb() -> RgbSpace {
        RgbSpace::Rec2020
    }

    open spec fn encoded() -> crate::space::Space {
        crate::space::Space::Rec2020
    }

    fn rgb_space() -> (r: RgbSpace) {
        RgbSpace::Rec2020
    }

    fn encoded_space() -> (r: crate::space::Space) {
        crate::space::Space::Rec2020
    }
}

/// This trait is used to identify tags that specify a color space with a
/// rectangular and a polar form.
pub trait Space {
    /// The white point that the space is defined with.
    type White: WhitePoint;

    /// The space of the rectangular form.
    spec fn rectangular() -> crate::space::Space;

    /// The space of the polar form.
    spec fn polar() -> crate::space::Space;

    /// The step from the rectangular form of the space to its polar form.
    spec fn polar_step() -> Step;

    /// The step from the rectangular form of the space to CIE-XYZ.
    spec fn xyz_step() -> Step;

    /// The space of the rectangular form.
    fn rectangular_space() -> (r: crate::space::Space)
        ensures
            r == Self::rectangular(),
    ;

    /// The space of the polar form.
    fn polar_space() -> (r: crate::space::Space)
        ensures
            r == Self::polar(),
    ;

    /// The step from the rectangular form of the space to its polar form.
    fn to_polar_step() -> (r: Step)
        ensures
            r == Self::polar_step(),
            r.source() == Node::of(Self::rectangular()),
            r.target() == Node::of(Self::polar()),
    ;

    /// The step from the rectangular form of the space to CIE-XYZ with the
    /// white point of the space.
    fn to_xyz_step() -> (r: Step)
        ensures
            r == Self::xyz_step(),
            r.source() == Node::of(Self::rectangular()),
            r.target() == Node::of(Self::White::xyz()),
    ;
}

/// Tag for the CIE-Lab color space.
#[derive(Clone, Copy, Debug)]
pub struct Lab;

impl Space for Lab {
    type White = D50;

    open spec fn rectangular() -> crate::space::Space {
        crate::space::Space::Lab
    }

    open spec fn polar() -> crate::space::Space {
        crate::space::Space::Lch
    }

    open spec fn polar_step() -> Step {
        Step::LabToLch
    }

    open spec fn xyz_step() -> Step {
        Step::LabToXyz
    }

    fn rectangular_space() -> (r: crate::space::Space) {
        crate::space::Space::Lab
    }

    fn polar_space() -> (r: crate::space::Space) {
        crate::space::Space::Lch
    }

    fn to_polar_step() -> (r: Step) {
        Step::LabToLch
    }

    fn to_xyz_step() -> (r: Step) {
        Step::LabToXyz
    }
}

/// Tag for the Oklab color space.
#[derive(Clone, Copy, Debug)]
pub struct Oklab;

impl Space for Oklab {
    type White = D65;

    open spec fn rectangular() -> crate::space::Space {
        crate::space::Space::Oklab
    }

    open spec fn polar() -> crate::space::Space {
        crate::space::Space::Oklch
    }

    open spec fn polar_step() -> Step {
        Step::OklabToOklch
    }

    open spec fn xyz_step() -> Step {
        Step::OklabToXyz
    }

    fn rectangular_space() -> (r: crate::space::Space) {
        crate::space::Space::Oklab
    }

    fn polar_space() -> (r: crate::space::Space) {
        crate::space::Space::Oklch
    }

    fn to_polar_step() -> (r: Step) {
        Step::OklabToOklch
    }

    fn to_xyz_step() -> (r: Step) {
        Step::OklabToXyz
    }
}

} // verus!
