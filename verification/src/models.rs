//! Models are structs that represent a color in a specified color space or
//! form. They are a type safe way to convert between the spaces and forms:
//! each model offers the conversions of its own form and no others.

use crate::arith::{constant, zero, Arithmetic};
use crate::color::{Color, Components};
use crate::convert::{
    conversion, conversion_steps, encoded_chain, encoded_to_base, linear_chain, linear_to_base, run,
    runs, to_base, to_base_steps, Node, RgbSpace, Step,
};
use crate::gamut::{all_in_unit, within_unit};
use crate::flags::Channel;
use crate::space::Space;
use crate::tags::{ColorSpace, Encoding, GammaEncoded, LinearLight, WhitePoint, D50, D65};
use core::marker::PhantomData;
use vstd::prelude::*;

verus! {

/// The form of the given RGB space with the encoding `E`.
pub fn rgb_form<E: Encoding>(space: RgbSpace) -> (r: Node)
    ensures
        r == if E::linear() {
            Node::Linear(space)
        } else {
            Node::Encoded(space)
        },
{
    if E::is_linear() {
        Node::Linear(space)
    } else {
        Node::Encoded(space)
    }
}

/// A color specified in an RGB color space.
#[derive(Debug)]
pub struct Rgb<S, E, C> {
    /// The red component of the color.
    pub red: C,
    /// The green component of the color.
    pub green: C,
    /// The blue component of the color.
    pub blue: C,
    /// The RGB space of the color.
    pub space: PhantomData<S>,
    /// The gamma encoding of the components.
    pub encoding: PhantomData<E>,
}

/// A color in the CIE-XYZ color space with a specified white point
/// reference.
#[derive(Debug)]
pub struct Xyz<W, C> {
    /// The X component of the color.
    pub x: C,
    /// The Y component of the color.
    pub y: C,
    /// The Z component of the color.
    pub z: C,
    /// The white point of the color.
    pub white_point: PhantomData<W>,
}

impl<S: ColorSpace, E: Encoding, C: Copy> Rgb<S, E, C> {
    /// The three components of the model.
    pub open spec fn components(self) -> Components<C> {
        Components(self.red, self.green, self.blue)
    }

    /// Create a new color having this color space.
    pub fn new(red: C, green: C, blue: C) -> (r: Self)
        ensures
            r.components() == Components(red, green, blue),
    {
        Rgb { red, green, blue, space: PhantomData, encoding: PhantomData }
    }

    /// Convert this model into generic components.
    pub fn to_components(&self) -> (r: Components<C>)
        ensures
            r == self.components(),
    {
        Components(self.red, self.green, self.blue)
    }
}

impl<S: ColorSpace, C: Copy> Rgb<S, GammaEncoded, C> {
    /// Convert this model from gamma encoded to linear light.
    pub fn to_linear_light<A: Arithmetic<C>>(&self, ops: &A) -> (r: Rgb<S, LinearLight, C>)
        ensures
            call_ensures(
                A::convert,
                (ops, Step::ToLinearLight(S::rgb()), self.components()),
                r.components(),
            ),
    {
        let c = ops.convert(Step::ToLinearLight(S::rgb_space()), self.to_components());
        Rgb::new(c.0, c.1, c.2)
    }
}

impl<S: ColorSpace, C: Copy> Rgb<S, LinearLight, C> {
    /// Convert this model from linear light to gamma encoded.
    pub fn to_gamma_encoded<A: Arithmetic<C>>(&self, ops: &A) -> (r: Rgb<S, GammaEncoded, C>)
        ensures
            call_ensures(
                A::convert,
                (ops, Step::ToGammaEncoded(S::rgb()), self.components()),
                r.components(),
            ),
    {
        let c = ops.convert(Step::ToGammaEncoded(S::rgb_space()), self.to_components());
        Rgb::new(c.0, c.1, c.2)
    }

    /// Convert this model to CIE-XYZ with the white point of its space.
    pub fn to_xyz<A: Arithmetic<C>>(&self, ops: &A) -> (r: Xyz<S::White, C>)
        ensures
            call_ensures(
                A::convert,
                (ops, Step::RgbToXyz(S::rgb()), self.components()),
                r.components(),
            ),
    {
        let c = ops.convert(Step::RgbToXyz(S::rgb_space()), self.to_components());
        Xyz::new(c.0, c.1, c.2)
    }

    /// Convert a color of CIE-XYZ with the white point of this space to
    /// this model.
    pub fn from_xyz<A: Arithmetic<C>>(ops: &A, xyz: &Xyz<S::White, C>) -> (r: Self)
        ensures
            call_ensures(
                A::convert,
                (ops, Step::XyzToRgb(S::rgb()), xyz.components()),
                r.components(),
            ),
    {
        let c = ops.convert(Step::XyzToRgb(S::rgb_space()), xyz.to_components());
        Rgb::new(c.0, c.1, c.2)
    }
}

impl<W: WhitePoint, C: Copy> Xyz<W, C> {
    /// The three components of the model.
    pub open spec fn components(self) -> Components<C> {
        Components(self.x, self.y, self.z)
    }

    /// Create a new color having this color space.
    pub fn new(x: C, y: C, z: C) -> (r: Self)
        ensures
            r.components() == Components(x, y, z),
    {
        Xyz { x, y, z, white_point: PhantomData }
    }

    /// Convert this model into generic components.
    pub fn to_components(&self) -> (r: Components<C>)
        ensures
            r == self.components(),
    {
        Components(self.x, self.y, self.z)
    }

    /// Transfer the white point reference of this color to another.
    pub fn transfer<T: WhitePoint, A: Arithmetic<C>>(&self, ops: &A) -> (r: Xyz<T, C>)
        ensures
            runs(ops, conversion(W::xyz(), T::xyz()), self.components(), r.components()),
    {
        let steps = conversion_steps(W::xyz_space(), T::xyz_space());
        let c = run(ops, &steps, self.to_components());
        Xyz::new(c.0, c.1, c.2)
    }
}

/// A color specified in the rectangular orthogonal form of CIE-Lab or
/// Oklab.
#[derive(Debug)]
pub struct Rectangular<S, C> {
    /// The lightness component.
    pub lightness: C,
    /// The a component.
    pub a: C,
    /// The b component.
    pub b: C,
    /// The space of the color.
    pub space: PhantomData<S>,
}

/// A color specified in the cylindrical polar form of CIE-Lab or Oklab.
#[derive(Debug)]
pub struct Polar<S, C> {
    /// The lightness component.
    pub lightness: C,
    /// The chroma component.
    pub chroma: C,
    /// The hue component.
    pub hue: C,
    /// The space of the color.
    pub space: PhantomData<S>,
}

/// A color specified with the HSL notation in the sRGB color space.
#[derive(Debug)]
pub struct Hsl<C> {
    /// The hue component of the color.
    pub hue: C,
    /// The saturation component of the color.
    pub saturation: C,
    /// The lightness component of the color.
    pub lightness: C,
}

/// A color specified with the HWB notation in the sRGB color space.
#[derive(Debug)]
pub struct Hwb<C> {
    /// The hue component of the color.
    pub hue: C,
    /// The whiteness component of the color.
    pub whiteness: C,
    /// The blackness component of the color.
    pub blackness: C,
}

/// Model for a color in the sRGB color space with gamma encoding.
pub type Srgb<C> = Rgb<crate::tags::Srgb, GammaEncoded, C>;

/// Model for a color in the sRGB color space with no gamma encoding.
pub type SrgbLinear<C> = Rgb<crate::tags::Srgb, LinearLight, C>;

/// Model for a color in the display-p3 color space with gamma encoding.
pub type DisplayP3<C> = Rgb<crate::tags::DisplayP3, GammaEncoded, C>;

/// Model for a color in the display-p3 color space without gamma encoding.
pub type DisplayP3Linear<C> = Rgb<crate::tags::DisplayP3, LinearLight, C>;

/// Model for a color in the a98-rgb color space with gamma encoding.
pub type A98Rgb<C> = Rgb<crate::tags::A98Rgb, GammaEncoded, C>;

/// Model for a color in the a98-rgb color space without gamma encoding.
pub type A98RgbLinear<C> = Rgb<crate::tags::A98Rgb, LinearLight, C>;

/// Model for a color in the prophoto-rgb color space with gamma encoding.
pub type ProPhotoRgb<C> = Rgb<crate::tags::ProPhotoRgb, GammaEncoded, C>;

/// Model for a color in the prophoto-rgb color space without gamma
/// encoding.
pub type ProPhotoRgbLinear<C> = Rgb<crate::tags::ProPhotoRgb, LinearLight, C>;

/// Model for a color in the rec2020 color space with gamma encoding.
pub type Rec2020<C> = Rgb<crate::tags::Rec2020, GammaEncoded, C>;

/// Model for a color in the rec2020 color space without gamma encoding.
pub type Rec2020Linear<C> = Rgb<crate::tags::Rec2020, LinearLight, C>;

/// Model for a color in the CIE-Lab color space, rectangular form.
pub type Lab<C> = Rectangular<crate::tags::Lab, C>;

/// Model for a color in the CIE-Lab color space, polar form.
pub type Lch<C> = Polar<crate::tags::Lab, C>;

/// Model for a color in the Oklab color space, rectangular form.
pub type Oklab<C> = Rectangular<crate::tags::Oklab, C>;

/// Model for a color in the Oklab color space, polar form.
pub type Oklch<C> = Polar<crate::tags::Oklab, C>;

/// Model for a color in the CIE-XYZ color space with a D50 white point.
pub type XyzD50<C> = Xyz<D50, C>;

/// Model for a color in the CIE-XYZ color space with a D65 white point.
pub type XyzD65<C> = Xyz<D65, C>;

impl<S: crate::tags::Space, C: Copy> Rectangular<S, C> {
    /// The three components of the model.
    pub open spec fn components(self) -> Components<C> {
        Components(self.lightness, self.a, self.b)
    }

    /// Create a new color having this color space.
    pub fn new(lightness: C, a: C, b: C) -> (r: Self)
        ensures
            r.components() == Components(lightness, a, b),
    {
        Rectangular { lightness, a, b, space: PhantomData }
    }

    /// Convert this model into generic components.
    pub fn to_components(&self) -> (r: Components<C>)
        ensures
            r == self.components(),
    {
        Components(self.lightness, self.a, self.b)
    }

    /// Convert this orthogonal rectangular model into its cylindrical polar
    /// form.
    pub fn to_polar<A: Arithmetic<C>>(&self, ops: &A) -> (r: Polar<S, C>)
        ensures
            call_ensures(A::convert, (ops, S::polar_step(), self.components()), r.components()),
    {
        let c = ops.convert(S::to_polar_step(), self.to_components());
        Polar::new(c.0, c.1, c.2)
    }

    /// Convert this model to CIE-XYZ with the white point of its space.
    pub fn to_xyz<A: Arithmetic<C>>(&self, ops: &A) -> (r: Xyz<S::White, C>)
        ensures
            call_ensures(A::convert, (ops, S::xyz_step(), self.components()), r.components()),
    {
        let c = ops.convert(S::to_xyz_step(), self.to_components());
        Xyz::new(c.0, c.1, c.2)
    }

    /// Convert a color of CIE-XYZ with the white point of this space to
    /// this model.
    pub fn from_xyz<A: Arithmetic<C>>(ops: &A, xyz: &Xyz<S::White, C>) -> (r: Self)
        ensures
            call_ensures(
                A::convert,
                (ops, S::xyz_step().inverse(), xyz.components()),
                r.components(),
            ),
    {
        let c = ops.convert(S::to_xyz_step().reversed(), xyz.to_components());
        Rectangular::new(c.0, c.1, c.2)
    }
}

impl<S: crate::tags::Space, C: Copy> Polar<S, C> {
    /// The three components of the model.
    pub open spec fn components(self) -> Components<C> {
        Components(self.lightness, self.chroma, self.hue)
    }

    /// Create a new color having this color space.
    pub fn new(lightness: C, chroma: C, hue: C) -> (r: Self)
        ensures
            r.components() == Components(lightness, chroma, hue),
    {
        Polar { lightness, chroma, hue, space: PhantomData }
    }

    /// Convert this model into generic components.
    pub fn to_components(&self) -> (r: Components<C>)
        ensures
            r == self.components(),
    {
        Components(self.lightness, self.chroma, self.hue)
    }

    /// Convert this cylindrical polar model into its orthogonal rectangular
    /// form.
    pub fn to_rectangular<A: Arithmetic<C>>(&self, ops: &A) -> (r: Rectangular<S, C>)
        ensures
            call_ensures(
                A::convert,
                (ops, S::polar_step().inverse(), self.components()),
                r.components(),
            ),
    {
        let c = ops.convert(S::to_polar_step().reversed(), self.to_components());
        Rectangular::new(c.0, c.1, c.2)
    }
}

impl<C: Copy> Hsl<C> {
    /// The three components of the model.
    pub open spec fn components(self) -> Components<C> {
        Components(self.hue, self.saturation, self.lightness)
    }

    /// Create a new color having this color space.
    pub fn new(hue: C, saturation: C, lightness: C) -> (r: Self)
        ensures
            r.components() == Components(hue, saturation, lightness),
    {
        Hsl { hue, saturation, lightness }
    }

    /// Convert this model into generic components.
    pub fn to_components(&self) -> (r: Components<C>)
        ensures
            r == self.components(),
    {
        Components(self.hue, self.saturation, self.lightness)
    }

    /// Convert this color from the HSL notation to the sRGB color space.
    pub fn to_srgb<A: Arithmetic<C>>(&self, ops: &A) -> (r: Srgb<C>)
        ensures
            call_ensures(A::convert, (ops, Step::HslToSrgb, self.components()), r.components()),
    {
        let c = ops.convert(Step::HslToSrgb, self.to_components());
        Rgb::new(c.0, c.1, c.2)
    }
}

impl<C: Copy> Hwb<C> {
    /// The three components of the model.
    pub open spec fn components(self) -> Components<C> {
        Components(self.hue, self.whiteness, self.blackness)
    }

    /// Create a new color having this color space.
    pub fn new(hue: C, whiteness: C, blackness: C) -> (r: Self)
        ensures
            r.components() == Components(hue, whiteness, blackness),
    {
        Hwb { hue, whiteness, blackness }
    }

    /// Convert this model into generic components.
    pub fn to_components(&self) -> (r: Components<C>)
        ensures
            r == self.components(),
    {
        Components(self.hue, self.whiteness, self.blackness)
    }

    /// Convert this color from the HWB notation to the sRGB color space.
    pub fn to_srgb<A: Arithmetic<C>>(&self, ops: &A) -> (r: Srgb<C>)
        ensures
            call_ensures(A::convert, (ops, Step::HwbToSrgb, self.components()), r.components()),
    {
        let c = ops.convert(Step::HwbToSrgb, self.to_components());
        Rgb::new(c.0, c.1, c.2)
    }
}

impl<C: Copy> Rgb<crate::tags::Srgb, GammaEncoded, C> {
    /// Convert a color specified in the sRGB color space to the HSL
    /// notation.
    pub fn to_hsl<A: Arithmetic<C>>(&self, ops: &A) -> (r: Hsl<C>)
        ensures
            call_ensures(A::convert, (ops, Step::SrgbToHsl, self.components()), r.components()),
    {
        let c = ops.convert(Step::SrgbToHsl, self.to_components());
        Hsl::new(c.0, c.1, c.2)
    }

    /// Convert a color specified in the sRGB color space to the HWB
    /// notation.
    pub fn to_hwb<A: Arithmetic<C>>(&self, ops: &A) -> (r: Hwb<C>)
        ensures
            call_ensures(A::convert, (ops, Step::SrgbToHwb, self.components()), r.components()),
    {
        let c = ops.convert(Step::SrgbToHwb, self.to_components());
        Hwb::new(c.0, c.1, c.2)
    }
}

impl<S: ColorSpace, C: Copy> Rgb<S, GammaEncoded, C> {
    /// If this color is not within the gamut limits of its space, map its
    /// components into range: the components are those of the color of
    /// this model, without alpha, mapped into its gamut limits.
    pub fn map_into_gamut_limit<A: Arithmetic<C>>(&self, ops: &A) -> (r: Self)
        ensures
            exists|c: Color<C>, m: Color<C>|
                {
                    &&& colored(ops, S::encoded(), self.components(), None, c)
                    &&& #[trigger] c.maps_to(ops, m)
                    &&& r.components() == m.components
                },
    {
        let c = color_of(ops, S::encoded_space(), self.to_components(), None);
        let m = c.map_into_gamut_limits(ops);
        Rgb::new(m.components.0, m.components.1, m.components.2)
    }
}

impl<S: ColorSpace, C: Copy> Rgb<S, LinearLight, C> {
    /// True if `out` holds this color mapped into the gamut limits of its
    /// space. A color whose components all lie between zero and one stays
    /// as it is. Any other color is gamma encoded, mapped in that form, and
    /// taken back to linear light.
    pub open spec fn maps_to<A: Arithmetic<C>>(self, ops: &A, out: Components<C>) -> bool {
        exists|inside: bool|
            {
                &&& #[trigger] within_unit(ops, self.components(), inside)
                &&& if inside {
                    out == self.components()
                } else {
                    exists|encoded: Components<C>, c: Color<C>, m: Color<C>|
                        {
                            &&& #[trigger] call_ensures(
                                A::convert,
                                (ops, Step::ToGammaEncoded(S::rgb()), self.components()),
                                encoded,
                            )
                            &&& colored(ops, S::encoded(), encoded, None, c)
                            &&& #[trigger] c.maps_to(ops, m)
                            &&& call_ensures(
                                A::convert,
                                (ops, Step::ToLinearLight(S::rgb()), m.components),
                                out,
                            )
                        }
                }
            }
    }

    /// If this color is not within the gamut limits of its space, map its
    /// components into range.
    pub fn map_into_gamut_limit<A: Arithmetic<C>>(&self, ops: &A) -> (r: Self)
        ensures
            self.maps_to(ops, r.components()),
    {
        if all_in_unit(ops, self.to_components()) {
            return Rgb::new(self.red, self.green, self.blue);
        }
        let encoded = ops.convert(Step::ToGammaEncoded(S::rgb_space()), self.to_components());
        let c = color_of(ops, S::encoded_space(), encoded, None);
        let m = c.map_into_gamut_limits(ops);
        let linear = ops.convert(Step::ToLinearLight(S::rgb_space()), m.components);
        Rgb::new(linear.0, linear.1, linear.2)
    }
}

/// This trait is used to identify models that stand for a color space.
pub trait HasSpace {
    /// The space of the model.
    spec fn tagged() -> Space;

    /// The space of the model.
    fn space() -> (r: Space)
        ensures
            r == Self::tagged(),
    ;
}

/// True if `flag` and `stored` are what a model leaves in a channel of a
/// color for its component `value`: the component is missing if it is no
/// number, with zero stored in its place, and stored if it is one.
pub open spec fn found<C, A: Arithmetic<C>>(ops: &A, value: C, flag: bool, stored: C) -> bool {
    exists|powerless: bool|
        {
            &&& #[trigger] call_ensures(A::is_nan, (ops, value), powerless)
            &&& flag == powerless
            &&& if powerless {
                constant(ops, 0, 1, stored)
            } else {
                stored == value
            }
        }
}

/// True if `out` is the color of the given space, components and alpha:
/// a component that is no number is missing in it, and an alpha that is
/// given is clamped to the range from zero to one.
pub open spec fn colored<C: Copy, A: Arithmetic<C>>(
    ops: &A,
    space: Space,
    components: Components<C>,
    alpha: Option<C>,
    out: Color<C>,
) -> bool {
    &&& out.space == space
    &&& out.flags.wf()
    &&& out.settled(ops)
    &&& found(ops, components.0, out.flags.has(Channel::C0), out.components.0)
    &&& found(ops, components.1, out.flags.has(Channel::C1), out.components.1)
    &&& found(ops, components.2, out.flags.has(Channel::C2), out.components.2)
    &&& Color::clamped(ops, alpha, out.channel(Channel::Alpha))
}

/// One component of a model as a color takes it: none if it is no number.
fn present<C: Copy, A: Arithmetic<C>>(ops: &A, value: C) -> (r: Option<C>)
    ensures
        exists|powerless: bool|
            {
                &&& #[trigger] call_ensures(A::is_nan, (ops, value), powerless)
                &&& r is None == powerless
                &&& !powerless ==> r == Some(value)
            },
{
    if ops.is_nan(value) {
        None
    } else {
        Some(value)
    }
}

/// The color of the given space, components and alpha.
pub fn color_of<C: Copy, A: Arithmetic<C>>(
    ops: &A,
    space: Space,
    components: Components<C>,
    alpha: Option<C>,
) -> (r: Color<C>)
    ensures
        colored(ops, space, components, alpha, r),
{
    Color::from_parts(
        ops,
        space,
        present(ops, components.0),
        present(ops, components.1),
        present(ops, components.2),
        alpha,
    )
}

/// True if `out` is what a model holds for a component that a color
/// stores as `stored`: the number, and zero if it is none.
pub open spec fn settles<C, A: Arithmetic<C>>(ops: &A, stored: C, out: C) -> bool {
    exists|nan: bool|
        {
            &&& #[trigger] call_ensures(A::is_nan, (ops, stored), nan)
            &&& if nan {
                constant(ops, 0, 1, out)
            } else {
                out == stored
            }
        }
}

/// True if `parts` are the components that a model of the color holds.
pub open spec fn modelled<C, A: Arithmetic<C>>(
    ops: &A,
    color: Color<C>,
    parts: Components<C>,
) -> bool {
    &&& settles(ops, color.components.0, parts.0)
    &&& settles(ops, color.components.1, parts.1)
    &&& settles(ops, color.components.2, parts.2)
}

/// What a model holds for a component that a color stores.
fn settle<C: Copy, A: Arithmetic<C>>(ops: &A, stored: C) -> (r: C)
    ensures
        settles(ops, stored, r),
{
    if ops.is_nan(stored) {
        zero(ops)
    } else {
        stored
    }
}

/// The components that a model of the color holds.
pub fn model_parts<C: Copy, A: Arithmetic<C>>(ops: &A, color: &Color<C>) -> (r: Components<C>)
    ensures
        modelled(ops, *color, r),
{
    Components(
        settle(ops, color.components.0),
        settle(ops, color.components.1),
        settle(ops, color.components.2),
    )
}

/// A trait implemented for color models that can be converted to and from
/// a generic [`Color`].
pub trait Model<C: Copy>: HasSpace + Sized {
    /// The three components of the model.
    spec fn parts(&self) -> Components<C>;

    /// The three components of the model.
    fn to_parts(&self) -> (r: Components<C>)
        ensures
            r == self.parts(),
    ;

    /// The model of the three components.
    fn from_parts(parts: Components<C>) -> (r: Self)
        ensures
            r.parts() == parts,
    ;

    /// Convert a model to a generic [`Color`].
    fn to_color<A: Arithmetic<C>>(&self, ops: &A, alpha: Option<C>) -> (r: Color<C>)
        ensures
            colored(ops, Self::tagged(), self.parts(), alpha, r),
    ;

    /// Convert a generic [`Color`] to a model: the model holds the
    /// components as the color stores them, with zero in place of what is
    /// no number. A model of a color holds numbers only.
    fn to_model<A: Arithmetic<C>>(ops: &A, color: &Color<C>) -> (r: Self)
        ensures
            modelled(ops, *color, r.parts()),
    ;
}

/// Used to convert any model to the base color space: CIE-XYZ with a D65
/// white point.
pub trait ToBase<C: Copy> {
    /// The chain of steps that leads from the form of the model to the
    /// base.
    spec fn chain() -> Seq<Step>;

    /// The three components of the model.
    spec fn held(&self) -> Components<C>;

    /// Convert the model to the base color space, on the chain of steps
    /// that leads from its form to the base.
    fn to_base<A: Arithmetic<C>>(&self, ops: &A) -> (r: XyzD65<C>)
        ensures
            runs(ops, Self::chain(), self.held(), r.components()),
    ;
}

impl<S: ColorSpace, C: Copy> ToBase<C> for Rgb<S, GammaEncoded, C> {
    open spec fn chain() -> Seq<Step> {
        encoded_to_base(S::rgb())
    }

    open spec fn held(&self) -> Components<C> {
        Components(self.red, self.green, self.blue)
    }

    fn to_base<A: Arithmetic<C>>(&self, ops: &A) -> (r: XyzD65<C>) {
        let steps = encoded_chain(S::rgb_space());
        let c = run(ops, &steps, Components(self.red, self.green, self.blue));
        Xyz::new(c.0, c.1, c.2)
    }
}

impl<S: ColorSpace, C: Copy> ToBase<C> for Rgb<S, LinearLight, C> {
    open spec fn chain() -> Seq<Step> {
        linear_to_base(S::rgb())
    }

    open spec fn held(&self) -> Components<C> {
        Components(self.red, self.green, self.blue)
    }

    fn to_base<A: Arithmetic<C>>(&self, ops: &A) -> (r: XyzD65<C>) {
        let steps = linear_chain(S::rgb_space());
        let c = run(ops, &steps, Components(self.red, self.green, self.blue));
        Xyz::new(c.0, c.1, c.2)
    }
}

impl<W: WhitePoint, C: Copy> ToBase<C> for Xyz<W, C> {
    open spec fn chain() -> Seq<Step> {
        to_base_steps(W::xyz())
    }

    open spec fn held(&self) -> Components<C> {
        Components(self.x, self.y, self.z)
    }

    fn to_base<A: Arithmetic<C>>(&self, ops: &A) -> (r: XyzD65<C>) {
        let steps = to_base(W::xyz_space());
        let c = run(ops, &steps, Components(self.x, self.y, self.z));
        Xyz::new(c.0, c.1, c.2)
    }
}

impl<S: crate::tags::Space, C: Copy> ToBase<C> for Rectangular<S, C> {
    open spec fn chain() -> Seq<Step> {
        to_base_steps(S::rectangular())
    }

    open spec fn held(&self) -> Components<C> {
        Components(self.lightness, self.a, self.b)
    }

    fn to_base<A: Arithmetic<C>>(&self, ops: &A) -> (r: XyzD65<C>) {
        let steps = to_base(S::rectangular_space());
        let c = run(ops, &steps, Components(self.lightness, self.a, self.b));
        Xyz::new(c.0, c.1, c.2)
    }
}

impl<S: crate::tags::Space, C: Copy> ToBase<C> for Polar<S, C> {
    open spec fn chain() -> Seq<Step> {
        to_base_steps(S::polar())
    }

    open spec fn held(&self) -> Components<C> {
        Components(self.lightness, self.chroma, self.hue)
    }

    fn to_base<A: Arithmetic<C>>(&self, ops: &A) -> (r: XyzD65<C>) {
        let steps = to_base(S::polar_space());
        let c = run(ops, &steps, Components(self.lightness, self.chroma, self.hue));
        Xyz::new(c.0, c.1, c.2)
    }
}

impl<C: Copy> ToBase<C> for Hsl<C> {
    open spec fn chain() -> Seq<Step> {
        to_base_steps(Space::Hsl)
    }

    open spec fn held(&self) -> Components<C> {
        Components(self.hue, self.saturation, self.lightness)
    }

    fn to_base<A: Arithmetic<C>>(&self, ops: &A) -> (r: XyzD65<C>) {
        let steps = to_base(Space::Hsl);
        let c = run(ops, &steps, Components(self.hue, self.saturation, self.lightness));
        Xyz::new(c.0, c.1, c.2)
    }
}

impl<C: Copy> ToBase<C> for Hwb<C> {
    open spec fn chain() -> Seq<Step> {
        to_base_steps(Space::Hwb)
    }

    open spec fn held(&self) -> Components<C> {
        Components(self.hue, self.whiteness, self.blackness)
    }

    fn to_base<A: Arithmetic<C>>(&self, ops: &A) -> (r: XyzD65<C>) {
        let steps = to_base(Space::Hwb);
        let c = run(ops, &steps, Components(self.hue, self.whiteness, self.blackness));
        Xyz::new(c.0, c.1, c.2)
    }
}

impl<S: ColorSpace, C> HasSpace for Rgb<S, GammaEncoded, C> {
    open spec fn tagged() -> Space {
        S::encoded()
    }

    fn space() -> (r: Space) {
        S::encoded_space()
    }
}

impl<C> HasSpace for Rgb<crate::tags::Srgb, LinearLight, C> {
    open spec fn tagged() -> Space {
        Space::SrgbLinear
    }

    fn space() -> (r: Space) {
        Space::SrgbLinear
    }
}

impl<W: WhitePoint, C> HasSpace for Xyz<W, C> {
    open spec fn tagged() -> Space {
        W::xyz()
    }

    fn space() -> (r: Space) {
        W::xyz_space()
    }
}

impl<S: crate::tags::Space, C> HasSpace for Rectangular<S, C> {
    open spec fn tagged() -> Space {
        S::rectangular()
    }

    fn space() -> (r: Space) {
        S::rectangular_space()
    }
}

impl<S: crate::tags::Space, C> HasSpace for Polar<S, C> {
    open spec fn tagged() -> Space {
        S::polar()
    }

    fn space() -> (r: Space) {
        S::polar_space()
    }
}

impl<C> HasSpace for Hsl<C> {
    open spec fn tagged() -> Space {
        Space::Hsl
    }

    fn space() -> (r: Space) {
        Space::Hsl
    }
}

impl<C> HasSpace for Hwb<C> {
    open spec fn tagged() -> Space {
        Space::Hwb
    }

    fn space() -> (r: Space) {
        Space::Hwb
    }
}

impl<S: ColorSpace, C: Copy> Model<C> for Rgb<S, GammaEncoded, C> {
    open spec fn parts(&self) -> Components<C> {
        Components(self.red, self.green, self.blue)
    }

    fn to_parts(&self) -> (r: Components<C>) {
        Components(self.red, self.green, self.blue)
    }

    fn from_parts(parts: Components<C>) -> (r: Self) {
        Rgb { red: parts.0, green: parts.1, blue: parts.2, space: PhantomData, encoding: PhantomData }
    }

    fn to_color<A: Arithmetic<C>>(&self, ops: &A, alpha: Option<C>) -> (r: Color<C>) {
        color_of(ops, Self::space(), self.to_parts(), alpha)
    }

    fn to_model<A: Arithmetic<C>>(ops: &A, color: &Color<C>) -> (r: Self) {
        Self::from_parts(model_parts(ops, color))
    }
}

impl<C: Copy> Model<C> for Rgb<crate::tags::Srgb, LinearLight, C> {
    open spec fn parts(&self) -> Components<C> {
        Components(self.red, self.green, self.blue)
    }

    fn to_parts(&self) -> (r: Components<C>) {
        Components(self.red, self.green, self.blue)
    }

    fn from_parts(parts: Components<C>) -> (r: Self) {
        Rgb { red: parts.0, green: parts.1, blue: parts.2, space: PhantomData, encoding: PhantomData }
    }

    fn to_color<A: Arithmetic<C>>(&self, ops: &A, alpha: Option<C>) -> (r: Color<C>) {
        color_of(ops, Self::space(), self.to_parts(), alpha)
    }

    fn to_model<A: Arithmetic<C>>(ops: &A, color: &Color<C>) -> (r: Self) {
        Self::from_parts(model_parts(ops, color))
    }
}

impl<W: WhitePoint, C: Copy> Model<C> for Xyz<W, C> {
    open spec fn parts(&self) -> Components<C> {
        Components(self.x, self.y, self.z)
    }

    fn to_parts(&self) -> (r: Components<C>) {
        Components(self.x, self.y, self.z)
    }

    fn from_parts(parts: Components<C>) -> (r: Self) {
        Xyz { x: parts.0, y: parts.1, z: parts.2, white_point: PhantomData }
    }

    fn to_color<A: Arithmetic<C>>(&self, ops: &A, alpha: Option<C>) -> (r: Color<C>) {
        color_of(ops, Self::space(), self.to_parts(), alpha)
    }

    fn to_model<A: Arithmetic<C>>(ops: &A, color: &Color<C>) -> (r: Self) {
        Self::from_parts(model_parts(ops, color))
    }
}

impl<S: crate::tags::Space, C: Copy> Model<C> for Rectangular<S, C> {
    open spec fn parts(&self) -> Components<C> {
        Components(self.lightness, self.a, self.b)
    }

    fn to_parts(&self) -> (r: Components<C>) {
        Components(self.lightness, self.a, self.b)
    }

    fn from_parts(parts: Components<C>) -> (r: Self) {
        Rectangular { lightness: parts.0, a: parts.1, b: parts.2, space: PhantomData }
    }

    fn to_color<A: Arithmetic<C>>(&self, ops: &A, alpha: Option<C>) -> (r: Color<C>) {
        color_of(ops, Self::space(), self.to_parts(), alpha)
    }

    fn to_model<A: Arithmetic<C>>(ops: &A, color: &Color<C>) -> (r: Self) {
        Self::from_parts(model_parts(ops, color))
    }
}

impl<S: crate::tags::Space, C: Copy> Model<C> for Polar<S, C> {
    open spec fn parts(&self) -> Components<C> {
        Components(self.lightness, self.chroma, self.hue)
    }

    fn to_parts(&self) -> (r: Components<C>) {
        Components(self.lightness, self.chroma, self.hue)
    }

    fn from_parts(parts: Components<C>) -> (r: Self) {
        Polar { lightness: parts.0, chroma: parts.1, hue: parts.2, space: PhantomData }
    }

    fn to_color<A: Arithmetic<C>>(&self, ops: &A, alpha: Option<C>) -> (r: Color<C>) {
        color_of(ops, Self::space(), self.to_parts(), alpha)
    }

    fn to_model<A: Arithmetic<C>>(ops: &A, color: &Color<C>) -> (r: Self) {
        Self::from_parts(model_parts(ops, color))
    }
}

impl<C: Copy> Model<C> for Hsl<C> {
    open spec fn parts(&self) -> Components<C> {
        Components(self.hue, self.saturation, self.lightness)
    }

    fn to_parts(&self) -> (r: Components<C>) {
        Components(self.hue, self.saturation, self.lightness)
    }

    fn from_parts(parts: Components<C>) -> (r: Self) {
        Hsl { hue: parts.0, saturation: parts.1, lightness: parts.2 }
    }

    fn to_color<A: Arithmetic<C>>(&self, ops: &A, alpha: Option<C>) -> (r: Color<C>) {
        color_of(ops, Self::space(), self.to_parts(), alpha)
    }

    fn to_model<A: Arithmetic<C>>(ops: &A, color: &Color<C>) -> (r: Self) {
        Self::from_parts(model_parts(ops, color))
    }
}

impl<C: Copy> Model<C> for Hwb<C> {
    open spec fn parts(&self) -> Components<C> {
        Components(self.hue, self.whiteness, self.blackness)
    }

    fn to_parts(&self) -> (r: Components<C>) {
        Components(self.hue, self.whiteness, self.blackness)
    }

    fn from_parts(parts: Components<C>) -> (r: Self) {
        Hwb { hue: parts.0, whiteness: parts.1, blackness: parts.2 }
    }

    fn to_color<A: Arithmetic<C>>(&self, ops: &A, alpha: Option<C>) -> (r: Color<C>) {
        color_of(ops, Self::space(), self.to_parts(), alpha)
    }

    fn to_model<A: Arithmetic<C>>(ops: &A, color: &Color<C>) -> (r: Self) {
        Self::from_parts(model_parts(ops, color))
    }
}

} // verus!
