//! The conversion graph: which elementary conversions lead from one color
//! space to another.
//!
//! Every space can reach the base, CIE-XYZ with a D65 white point, by a
//! fixed chain of elementary steps, and can be reached from it by the
//! inverse chain. Spaces that are one conceptual step apart are converted
//! directly, without a detour through the base.

use crate::arith::{constant, zero, Arithmetic};
use crate::color::{Color, Components};
use crate::flags::{Channel, Flags};
use crate::missing::{_analogous_missing_components, carried_into};
use crate::space::Space;
use vstd::prelude::*;

verus! {

/// The five RGB color spaces. Each has a gamma encoded and a linear-light
/// form.
#[derive(Clone, Copy, Debug, PartialEq, Eq, Structural)]
pub enum RgbSpace {
    /// sRGB
    Srgb,
    /// display-p3
    DisplayP3,
    /// a98-rgb
    A98Rgb,
    /// prophoto-rgb
    ProPhotoRgb,
    /// rec2020
    Rec2020,
}

/// A form in which the components of a color can be held while it is
/// converted: every [`Space`], and the linear-light forms of the RGB spaces.
#[derive(Clone, Copy, Debug, PartialEq, Eq, Structural)]
pub enum Node {
    /// An RGB space with gamma encoded components.
    Encoded(RgbSpace),
    /// An RGB space with linear-light components.
    Linear(RgbSpace),
    /// The HSL notation of sRGB.
    Hsl,
    /// The HWB notation of sRGB.
    Hwb,
    /// CIE-Lab.
    Lab,
    /// CIE-Lab in polar form.
    Lch,
    /// Oklab.
    Oklab,
    /// Oklab in polar form.
    Oklch,
    /// CIE-XYZ with a D50 white point.
    XyzD50,
    /// CIE-XYZ with a D65 white point.
    XyzD65,
}

/// An elementary conversion: one edge of the conversion graph.
#[derive(Clone, Copy, Debug, PartialEq, Eq, Structural)]
pub enum Step {
    /// Remove the gamma encoding of an RGB space.
    ToLinearLight(RgbSpace),
    /// Apply the gamma encoding of an RGB space.
    ToGammaEncoded(RgbSpace),
    /// Linear-light RGB to CIE-XYZ with the white point of the RGB space.
    RgbToXyz(RgbSpace),
    /// CIE-XYZ with the white point of the RGB space to linear-light RGB.
    XyzToRgb(RgbSpace),
    /// sRGB to its HSL notation.
    SrgbToHsl,
    /// HSL to sRGB.
    HslToSrgb,
    /// sRGB to its HWB notation.
    SrgbToHwb,
    /// HWB to sRGB.
    HwbToSrgb,
    /// CIE-Lab to CIE-XYZ with a D50 white point.
    LabToXyz,
    /// CIE-XYZ with a D50 white point to CIE-Lab.
    XyzToLab,
    /// Oklab to CIE-XYZ with a D65 white point.
    OklabToXyz,
    /// CIE-XYZ with a D65 white point to Oklab.
    XyzToOklab,
    /// CIE-Lab from rectangular to polar form.
    LabToLch,
    /// CIE-Lab from polar to rectangular form.
    LchToLab,
    /// Oklab from rectangular to polar form.
    OklabToOklch,
    /// Oklab from polar to rectangular form.
    OklchToOklab,
    /// Transfer CIE-XYZ from a D50 to a D65 white point.
    D50ToD65,
    /// Transfer CIE-XYZ from a D65 to a D50 white point.
    D65ToD50,
}

impl RgbSpace {
    /// The CIE-XYZ form with the white point that this RGB space is defined
    /// with: D50 for ProPhoto RGB, D65 for the others.
    pub open spec fn native_xyz(self) -> Node {
        match self {
            RgbSpace::ProPhotoRgb => Node::XyzD50,
            _ => Node::XyzD65,
        }
    }
}

impl Node {
    /// The form in which a color of the given space holds its components.
    pub open spec fn of(space: Space) -> Node {
        match space {
            Space::Srgb => Node::Encoded(RgbSpace::Srgb),
            Space::SrgbLinear => Node::Linear(RgbSpace::Srgb),
            Space::DisplayP3 => Node::Encoded(RgbSpace::DisplayP3),
            Space::A98Rgb => Node::Encoded(RgbSpace::A98Rgb),
            Space::ProPhotoRgb => Node::Encoded(RgbSpace::ProPhotoRgb),
            Space::Rec2020 => Node::Encoded(RgbSpace::Rec2020),
            Space::Hsl => Node::Hsl,
            Space::Hwb => Node::Hwb,
            Space::Lab => Node::Lab,
            Space::Lch => Node::Lch,
            Space::Oklab => Node::Oklab,
            Space::Oklch => Node::Oklch,
            Space::XyzD50 => Node::XyzD50,
            Space::XyzD65 => Node::XyzD65,
        }
    }

    /// The pivot of all conversions without a shortcut.
    pub open spec fn base() -> Node {
        Node::XyzD65
    }
}

impl Step {
    /// The form that this step takes.
    pub open spec fn source(self) -> Node {
        match self {
            Step::ToLinearLight(s) => Node::Encoded(s),
            Step::ToGammaEncoded(s) => Node::Linear(s),
            Step::RgbToXyz(s) => Node::Linear(s),
            Step::XyzToRgb(s) => s.native_xyz(),
            Step::SrgbToHsl => Node::Encoded(RgbSpace::Srgb),
            Step::HslToSrgb => Node::Hsl,
            Step::SrgbToHwb => Node::Encoded(RgbSpace::Srgb),
            Step::HwbToSrgb => Node::Hwb,
            Step::LabToXyz => Node::Lab,
            Step::XyzToLab => Node::XyzD50,
            Step::OklabToXyz => Node::Oklab,
            Step::XyzToOklab => Node::XyzD65,
            Step::LabToLch => Node::Lab,
            Step::LchToLab => Node::Lch,
            Step::OklabToOklch => Node::Oklab,
            Step::OklchToOklab => Node::Oklch,
            Step::D50ToD65 => Node::XyzD50,
            Step::D65ToD50 => Node::XyzD65,
        }
    }

    /// The step that undoes this one.
    pub open spec fn inverse(self) -> Step {
        match self {
            Step::ToLinearLight(s) => Step::ToGammaEncoded(s),
            Step::ToGammaEncoded(s) => Step::ToLinearLight(s),
            Step::RgbToXyz(s) => Step::XyzToRgb(s),
            Step::XyzToRgb(s) => Step::RgbToXyz(s),
            Step::SrgbToHsl => Step::HslToSrgb,
            Step::HslToSrgb => Step::SrgbToHsl,
            Step::SrgbToHwb => Step::HwbToSrgb,
            Step::HwbToSrgb => Step::SrgbToHwb,
            Step::LabToXyz => Step::XyzToLab,
            Step::XyzToLab => Step::LabToXyz,
            Step::OklabToXyz => Step::XyzToOklab,
            Step::XyzToOklab => Step::OklabToXyz,
            Step::LabToLch => Step::LchToLab,
            Step::LchToLab => Step::LabToLch,
            Step::OklabToOklch => Step::OklchToOklab,
            Step::OklchToOklab => Step::OklabToOklch,
            Step::D50ToD65 => Step::D65ToD50,
            Step::D65ToD50 => Step::D50ToD65,
        }
    }

    /// The form that this step gives: the one that its inverse takes.
    pub open spec fn target(self) -> Node {
        self.inverse().source()
    }

    /// The step that undoes this one.
    pub fn reversed(self) -> (r: Step)
        ensures
            r == self.inverse(),
            r.source() == self.target(),
            r.target() == self.source(),
            r.inverse() == self,
    {
        match self {
            Step::ToLinearLight(s) => Step::ToGammaEncoded(s),
            Step::ToGammaEncoded(s) => Step::ToLinearLight(s),
            Step::RgbToXyz(s) => Step::XyzToRgb(s),
            Step::XyzToRgb(s) => Step::RgbToXyz(s),
            Step::SrgbToHsl => Step::HslToSrgb,
            Step::HslToSrgb => Step::SrgbToHsl,
            Step::SrgbToHwb => Step::HwbToSrgb,
            Step::HwbToSrgb => Step::SrgbToHwb,
            Step::LabToXyz => Step::XyzToLab,
            Step::XyzToLab => Step::LabToXyz,
            Step::OklabToXyz => Step::XyzToOklab,
            Step::XyzToOklab => Step::OklabToXyz,
            Step::LabToLch => Step::LchToLab,
            Step::LchToLab => Step::LabToLch,
            Step::OklabToOklch => Step::OklchToOklab,
            Step::OklchToOklab => Step::OklabToOklch,
            Step::D50ToD65 => Step::D65ToD50,
            Step::D65ToD50 => Step::D50ToD65,
        }
    }
}

/// True if `steps`, taken in order, lead from `from` to `to`: the first
/// step takes `from`, each later step takes what the one before it gives,
/// and the last gives `to`. No step leads from a form to itself.
pub open spec fn connects(steps: Seq<Step>, from: Node, to: Node) -> bool {
    if steps.len() == 0 {
        from == to
    } else {
        &&& steps[0].source() == from
        &&& steps[steps.len() - 1].target() == to
        &&& forall|i: int| 0 < i < steps.len() ==> #[trigger] linked(steps, i)
    }
}

/// True if the step at `i` takes what the step before it gives.
pub open spec fn linked(steps: Seq<Step>, i: int) -> bool {
    steps[i].source() == steps[i - 1].target()
}

/// The steps that undo `steps`: the inverse of each, in reverse order.
pub open spec fn undo(steps: Seq<Step>) -> Seq<Step> {
    Seq::new(steps.len(), |i: int| steps[steps.len() - 1 - i].inverse())
}

/// The chain on which an RGB space reaches the base from its linear-light
/// form.
pub open spec fn linear_to_base(space: RgbSpace) -> Seq<Step> {
    match space {
        RgbSpace::ProPhotoRgb => seq![Step::RgbToXyz(space), Step::D50ToD65],
        _ => seq![Step::RgbToXyz(space)],
    }
}

/// The chain on which an RGB space reaches the base from its gamma encoded
/// form.
pub open spec fn encoded_to_base(space: RgbSpace) -> Seq<Step> {
    seq![Step::ToLinearLight(space)] + linear_to_base(space)
}

/// The chain of steps on which a color of the given space reaches the
/// base.
///
/// - An RGB space removes its gamma encoding, goes to CIE-XYZ with its own
///   white point, and is transferred to D65 where that is D50.
/// - HSL and HWB go to sRGB first.
/// - The polar forms go to their rectangular form first.
/// - CIE-Lab goes to CIE-XYZ with a D50 white point, Oklab with D65.
pub open spec fn to_base_steps(space: Space) -> Seq<Step> {
    match space {
        Space::Srgb => encoded_to_base(RgbSpace::Srgb),
        Space::SrgbLinear => linear_to_base(RgbSpace::Srgb),
        Space::DisplayP3 => encoded_to_base(RgbSpace::DisplayP3),
        Space::A98Rgb => encoded_to_base(RgbSpace::A98Rgb),
        Space::ProPhotoRgb => encoded_to_base(RgbSpace::ProPhotoRgb),
        Space::Rec2020 => encoded_to_base(RgbSpace::Rec2020),
        Space::Hsl => seq![Step::HslToSrgb] + encoded_to_base(RgbSpace::Srgb),
        Space::Hwb => seq![Step::HwbToSrgb] + encoded_to_base(RgbSpace::Srgb),
        Space::Lab => seq![Step::LabToXyz, Step::D50ToD65],
        Space::Lch => seq![Step::LchToLab, Step::LabToXyz, Step::D50ToD65],
        Space::Oklab => seq![Step::OklabToXyz],
        Space::Oklch => seq![Step::OklchToOklab, Step::OklabToXyz],
        Space::XyzD50 => seq![Step::D50ToD65],
        Space::XyzD65 => Seq::empty(),
    }
}

/// The chain of steps on which a color of the given space is reached from
/// the base: the exact inverse of the chain to the base.
pub open spec fn from_base_steps(space: Space) -> Seq<Step> {
    undo(to_base_steps(space))
}

/// The direct conversion between two spaces that are one conceptual step
/// apart; `None` for every other pair.
pub open spec fn shortcut(from: Space, to: Space) -> Option<Seq<Step>> {
    match (from, to) {
        (Space::Srgb, Space::SrgbLinear) => Some(seq![Step::ToLinearLight(RgbSpace::Srgb)]),
        (Space::SrgbLinear, Space::Srgb) => Some(seq![Step::ToGammaEncoded(RgbSpace::Srgb)]),
        (Space::Srgb, Space::Hsl) => Some(seq![Step::SrgbToHsl]),
        (Space::Hsl, Space::Srgb) => Some(seq![Step::HslToSrgb]),
        (Space::Srgb, Space::Hwb) => Some(seq![Step::SrgbToHwb]),
        (Space::Hwb, Space::Srgb) => Some(seq![Step::HwbToSrgb]),
        (Space::Hsl, Space::Hwb) => Some(seq![Step::HslToSrgb, Step::SrgbToHwb]),
        (Space::Hwb, Space::Hsl) => Some(seq![Step::HwbToSrgb, Step::SrgbToHsl]),
        (Space::XyzD50, Space::XyzD65) => Some(seq![Step::D50ToD65]),
        (Space::XyzD65, Space::XyzD50) => Some(seq![Step::D65ToD50]),
        (Space::Lab, Space::Lch) => Some(seq![Step::LabToLch]),
        (Space::Lch, Space::Lab) => Some(seq![Step::LchToLab]),
        (Space::Oklab, Space::Oklch) => Some(seq![Step::OklabToOklch]),
        (Space::Oklch, Space::Oklab) => Some(seq![Step::OklchToOklab]),
        _ => None,
    }
}

/// The steps that convert a color from one space to another: none within
/// one space, the shortcut where there is one, and otherwise the chain to
/// the base followed by the chain from the base.
pub open spec fn conversion(from: Space, to: Space) -> Seq<Step> {
    if from == to {
        Seq::empty()
    } else {
        match shortcut(from, to) {
            Some(steps) => steps,
            None => to_base_steps(from) + from_base_steps(to),
        }
    }
}

/// Two chains of which the second starts where the first ends make one
/// chain.
pub proof fn lemma_connects_append(first: Seq<Step>, second: Seq<Step>, a: Node, b: Node, c: Node)
    requires
        connects(first, a, b),
        connects(second, b, c),
    ensures
        connects(first + second, a, c),
{
    let all = first + second;
    if first.len() == 0 {
        assert(all =~= second);
    } else if second.len() == 0 {
        assert(all =~= first);
    } else {
        assert(all[0] == first[0]);
        assert(all[all.len() - 1] == second[second.len() - 1]);
        assert forall|i: int| 0 < i < all.len() implies #[trigger] linked(all, i) by {
            if i < first.len() {
                assert(linked(first, i));
            } else if i == first.len() {
                assert(all[i] == second[0]);
                assert(all[i - 1] == first[first.len() - 1]);
            } else {
                assert(linked(second, i - first.len()));
            }
        }
    }
}

/// The inverse steps in reverse order lead back.
pub proof fn lemma_undo_connects(steps: Seq<Step>, a: Node, b: Node)
    requires
        connects(steps, a, b),
    ensures
        connects(undo(steps), b, a),
        undo(steps).len() == steps.len(),
{
    let back = undo(steps);
    let n = steps.len() as int;
    if n > 0 {
        lemma_inverse_swaps(steps[n - 1]);
        lemma_inverse_swaps(steps[0]);
        assert(back[0] == steps[n - 1].inverse());
        assert(back[n - 1] == steps[0].inverse());
        assert forall|i: int| 0 < i < back.len() implies #[trigger] linked(back, i) by {
            lemma_inverse_swaps(steps[n - 1 - i]);
            lemma_inverse_swaps(steps[n - i]);
            assert(linked(steps, n - i));
        }
    }
}

/// A step and its inverse change places: each takes what the other gives.
pub proof fn lemma_inverse_swaps(step: Step)
    ensures
        step.inverse().inverse() == step,
        step.inverse().source() == step.target(),
        step.inverse().target() == step.source(),
        step.source() != step.target(),
{
}

/// The chain to the base leads from the space to the base.
pub proof fn lemma_to_base_connects(space: Space)
    ensures
        connects(to_base_steps(space), Node::of(space), Node::base()),
        to_base_steps(space).len() <= 3,
{
    let steps = to_base_steps(space);
    if steps.len() > 0 {
        assert forall|i: int| 0 < i < steps.len() implies #[trigger] linked(steps, i) by {
            if i == 1 {
            } else if i == 2 {
            } else {
            }
        }
    }
}

/// A shortcut leads from the one space to the other, and never through
/// the base unless it starts or ends there.
pub proof fn lemma_shortcut_connects(from: Space, to: Space)
    requires
        shortcut(from, to) is Some,
    ensures
        from != to,
        connects(shortcut(from, to)->0, Node::of(from), Node::of(to)),
        1 <= shortcut(from, to)->0.len() <= 2,
        forall|i: int|
            0 < i < shortcut(from, to)->0.len() ==> (#[trigger] shortcut(from, to)->0[i]).source()
                != Node::base(),
{
}

/// Where there is a shortcut one way, the shortcut the other way is its
/// exact inverse.
pub proof fn lemma_shortcut_symmetric(from: Space, to: Space)
    requires
        shortcut(from, to) is Some,
    ensures
        shortcut(to, from) is Some,
        shortcut(to, from)->0 =~= undo(shortcut(from, to)->0),
{
}

/// The steps of every conversion lead from the source to the target.
pub proof fn lemma_conversion_connects(from: Space, to: Space)
    ensures
        connects(conversion(from, to), Node::of(from), Node::of(to)),
        conversion(from, to).len() <= 6,
        conversion(from, to).len() == 0 <==> from == to,
{
    if from == to {
    } else if shortcut(from, to) is Some {
        lemma_shortcut_connects(from, to);
    } else {
        lemma_to_base_connects(from);
        lemma_to_base_connects(to);
        lemma_undo_connects(to_base_steps(to), Node::of(to), Node::base());
        lemma_connects_append(
            to_base_steps(from),
            from_base_steps(to),
            Node::of(from),
            Node::base(),
            Node::of(to),
        );
        if conversion(from, to).len() == 0 {
            assert(to_base_steps(from).len() == 0);
            assert(to_base_steps(to).len() == 0);
        }
    }
}

/// Converting back takes the inverse steps in reverse order.
pub proof fn lemma_conversion_reverses(from: Space, to: Space)
    ensures
        conversion(to, from) =~= undo(conversion(from, to)),
{
    if from == to {
    } else if shortcut(from, to) is Some {
        lemma_shortcut_symmetric(from, to);
    } else {
        assert(shortcut(to, from) is None);
        let there = to_base_steps(from);
        let back = from_base_steps(to);
        let tb = to_base_steps(to);
        let all = conversion(from, to);
        let rev = conversion(to, from);
        assert(rev == tb + undo(there));
        assert(all == there + undo(tb));
        assert forall|i: int| 0 <= i < rev.len() implies rev[i] == undo(all)[i] by {
            if i < tb.len() {
                let j = all.len() - 1 - i;
                assert(all[j] == undo(tb)[j - there.len()]);
                lemma_inverse_swaps(tb[i]);
            } else {
                let j = all.len() - 1 - i;
                assert(all[j] == there[j]);
            }
        }
    }
}

/// Append to `steps` the chain on which the linear-light form of `space`
/// reaches the base.
fn push_linear_to_base(steps: &mut Vec<Step>, space: RgbSpace)
    ensures
        final(steps)@ == old(steps)@ + linear_to_base(space),
{
    steps.push(Step::RgbToXyz(space));
    match space {
        RgbSpace::ProPhotoRgb => {
            steps.push(Step::D50ToD65);
        },
        _ => {},
    }
    assert(steps@ =~= old(steps)@ + linear_to_base(space));
}

/// Append to `steps` the chain on which the gamma encoded form of `space`
/// reaches the base.
fn push_encoded_to_base(steps: &mut Vec<Step>, space: RgbSpace)
    ensures
        final(steps)@ == old(steps)@ + encoded_to_base(space),
{
    steps.push(Step::ToLinearLight(space));
    push_linear_to_base(steps, space);
    assert(steps@ =~= old(steps)@ + encoded_to_base(space));
}

/// The chain on which an RGB space reaches the base from its linear-light
/// form.
pub fn linear_chain(space: RgbSpace) -> (r: Vec<Step>)
    ensures
        r@ == linear_to_base(space),
{
    let mut steps: Vec<Step> = Vec::new();
    push_linear_to_base(&mut steps, space);
    assert(steps@ =~= linear_to_base(space));
    steps
}

/// The chain on which an RGB space reaches the base from its gamma encoded
/// form.
pub fn encoded_chain(space: RgbSpace) -> (r: Vec<Step>)
    ensures
        r@ == encoded_to_base(space),
{
    let mut steps: Vec<Step> = Vec::new();
    push_encoded_to_base(&mut steps, space);
    assert(steps@ =~= encoded_to_base(space));
    steps
}

/// The chain of steps on which a color of the given space reaches the
/// base, CIE-XYZ with a D65 white point.
pub fn to_base(space: Space) -> (r: Vec<Step>)
    ensures
        r@ == to_base_steps(space),
        connects(r@, Node::of(space), Node::base()),
{
    let mut steps: Vec<Step> = Vec::new();
    match space {
        Space::Srgb => push_encoded_to_base(&mut steps, RgbSpace::Srgb),
        Space::SrgbLinear => push_linear_to_base(&mut steps, RgbSpace::Srgb),
        Space::DisplayP3 => push_encoded_to_base(&mut steps, RgbSpace::DisplayP3),
        Space::A98Rgb => push_encoded_to_base(&mut steps, RgbSpace::A98Rgb),
        Space::ProPhotoRgb => push_encoded_to_base(&mut steps, RgbSpace::ProPhotoRgb),
        Space::Rec2020 => push_encoded_to_base(&mut steps, RgbSpace::Rec2020),
        Space::Hsl => {
            steps.push(Step::HslToSrgb);
            push_encoded_to_base(&mut steps, RgbSpace::Srgb);
        },
        Space::Hwb => {
            steps.push(Step::HwbToSrgb);
            push_encoded_to_base(&mut steps, RgbSpace::Srgb);
        },
        Space::Lab => {
            steps.push(Step::LabToXyz);
            steps.push(Step::D50ToD65);
        },
        Space::Lch => {
            steps.push(Step::LchToLab);
            steps.push(Step::LabToXyz);
            steps.push(Step::D50ToD65);
        },
        Space::Oklab => {
            steps.push(Step::OklabToXyz);
        },
        Space::Oklch => {
            steps.push(Step::OklchToOklab);
            steps.push(Step::OklabToXyz);
        },
        Space::XyzD50 => {
            steps.push(Step::D50ToD65);
        },
        Space::XyzD65 => {},
    }
    proof {
        assert(steps@ =~= to_base_steps(space));
        lemma_to_base_connects(space);
    }
    steps
}

/// The chain of steps on which a color of the given space is reached from
/// the base: the inverse of each step of the chain to the base, in reverse
/// order.
pub fn from_base(space: Space) -> (r: Vec<Step>)
    ensures
        r@ == from_base_steps(space),
        connects(r@, Node::base(), Node::of(space)),
{
    let there = to_base(space);
    let mut back: Vec<Step> = Vec::new();
    let mut left: usize = there.len();
    while left > 0
        invariant
            left <= there.len(),
            back.len() == there.len() - left,
            forall|i: int| 0 <= i < back.len() ==> back[i] == there[there.len() - 1 - i].inverse(),
        decreases left,
    {
        left = left - 1;
        back.push(there[left].reversed());
    }
    proof {
        assert(back@ =~= undo(there@));
        lemma_undo_connects(there@, Node::of(space), Node::base());
    }
    back
}

/// The direct conversion between two spaces that are one conceptual step
/// apart: sRGB and its linear-light form, sRGB and HSL, sRGB and HWB, HSL
/// and HWB, the two white points of CIE-XYZ, and the rectangular and polar
/// forms of Lab and of Oklab. `None` for every other pair.
pub fn direct(from: Space, to: Space) -> (r: Option<Vec<Step>>)
    ensures
        r is Some == shortcut(from, to) is Some,
        r matches Some(steps) ==> {
            &&& Some(steps@) == shortcut(from, to)
            &&& connects(steps@, Node::of(from), Node::of(to))
        },
{
    let mut steps: Vec<Step> = Vec::new();
    match (from, to) {
        (Space::Srgb, Space::SrgbLinear) => steps.push(Step::ToLinearLight(RgbSpace::Srgb)),
        (Space::SrgbLinear, Space::Srgb) => steps.push(Step::ToGammaEncoded(RgbSpace::Srgb)),
        (Space::Srgb, Space::Hsl) => steps.push(Step::SrgbToHsl),
        (Space::Hsl, Space::Srgb) => steps.push(Step::HslToSrgb),
        (Space::Srgb, Space::Hwb) => steps.push(Step::SrgbToHwb),
        (Space::Hwb, Space::Srgb) => steps.push(Step::HwbToSrgb),
        (Space::Hsl, Space::Hwb) => {
            steps.push(Step::HslToSrgb);
            steps.push(Step::SrgbToHwb);
        },
        (Space::Hwb, Space::Hsl) => {
            steps.push(Step::HwbToSrgb);
            steps.push(Step::SrgbToHsl);
        },
        (Space::XyzD50, Space::XyzD65) => steps.push(Step::D50ToD65),
        (Space::XyzD65, Space::XyzD50) => steps.push(Step::D65ToD50),
        (Space::Lab, Space::Lch) => steps.push(Step::LabToLch),
        (Space::Lch, Space::Lab) => steps.push(Step::LchToLab),
        (Space::Oklab, Space::Oklch) => steps.push(Step::OklabToOklch),
        (Space::Oklch, Space::Oklab) => steps.push(Step::OklchToOklab),
        _ => {
            return None;
        },
    }
    proof {
        assert(steps@ =~= shortcut(from, to)->0);
        lemma_shortcut_connects(from, to);
    }
    Some(steps)
}

/// The steps that convert a color from the space `from` to the space `to`,
/// in the order in which they are taken.
///
/// There is none within one space. Spaces that are one conceptual step
/// apart are converted directly. Every other conversion goes to the base
/// and from there to the target.
pub fn conversion_steps(from: Space, to: Space) -> (r: Vec<Step>)
    ensures
        r@ == conversion(from, to),
        connects(r@, Node::of(from), Node::of(to)),
        r@.len() == 0 <==> from == to,
        r@.len() <= 6,
{
    proof {
        lemma_conversion_connects(from, to);
    }
    if from == to {
        return Vec::new();
    }
    if let Some(steps) = direct(from, to) {
        return steps;
    }
    let mut steps = to_base(from);
    let rest = from_base(to);
    let ghost head = steps@;
    let mut i: usize = 0;
    while i < rest.len()
        invariant
            i <= rest.len(),
            steps@ == head + rest@.subrange(0, i as int),
        decreases rest.len() - i,
    {
        steps.push(rest[i]);
        i = i + 1;
        assert(steps@ =~= head + rest@.subrange(0, i as int));
    }
    assert(rest@.subrange(0, i as int) =~= rest@);
    steps
}

/// True if the given steps, taken in order by `ops`, make the components
/// `to` of the components `from`.
pub open spec fn runs<C, A: Arithmetic<C>>(
    ops: &A,
    steps: Seq<Step>,
    from: Components<C>,
    to: Components<C>,
) -> bool
    decreases steps.len(),
{
    if steps.len() == 0 {
        from == to
    } else {
        exists|mid: Components<C>|
            {
                &&& runs(ops, steps.drop_last(), from, mid)
                &&& #[trigger] call_ensures(A::convert, (ops, steps.last(), mid), to)
            }
    }
}

/// True if `flag` and `stored` are what a conversion from `from` to `to`
/// leaves in channel `channel` of its result, where `value` is what the
/// steps of the conversion made of that component and `flags` are the flags
/// of the color that was converted.
///
/// The component is missing if an analogous component of the source was
/// missing, or if the conversion found it powerless and made no number of
/// it. A number that was made is stored; in place of none, zero is.
pub open spec fn lands<C, A: Arithmetic<C>>(
    ops: &A,
    from: Space,
    to: Space,
    flags: Flags,
    channel: Channel,
    value: C,
    flag: bool,
    stored: C,
) -> bool {
    exists|powerless: bool|
        {
            &&& #[trigger] call_ensures(A::is_nan, (ops, value), powerless)
            &&& flag == (powerless || carried_into(from, to, flags, channel))
            &&& if powerless {
                constant(ops, 0, 1, stored)
            } else {
                stored == value
            }
        }
}

/// Run the steps in order on the components.
pub fn run<C: Copy, A: Arithmetic<C>>(ops: &A, steps: &Vec<Step>, from: Components<C>) -> (r:
    Components<C>)
    ensures
        runs(ops, steps@, from, r),
{
    let mut current = from;
    let mut i: usize = 0;
    assert(steps@.subrange(0, 0) =~= Seq::<Step>::empty());
    while i < steps.len()
        invariant
            i <= steps.len(),
            runs(ops, steps@.subrange(0, i as int), from, current),
        decreases steps.len() - i,
    {
        let next = ops.convert(steps[i], current);
        proof {
            let done = steps@.subrange(0, i as int + 1);
            assert(done.drop_last() =~= steps@.subrange(0, i as int));
            assert(done.last() == steps@[i as int]);
            assert(runs(ops, done.drop_last(), from, current));
            assert(call_ensures(A::convert, (ops, done.last(), current), next));
            assert(runs(ops, done, from, next));
        }
        current = next;
        i = i + 1;
    }
    assert(steps@.subrange(0, i as int) =~= steps@);
    current
}

impl<C: Copy> Color<C> {
    /// True if `to` is this color converted to the given space by `ops`.
    ///
    /// - Within one space the color stays as it is.
    /// - Otherwise the components are taken through the steps of the
    ///   conversion from the one space to the other.
    /// - A component of the result is missing if it is analogous to a
    ///   missing component of this color, or if the conversion found it
    ///   powerless.
    /// - The alpha stays as it is, missing or not.
    pub open spec fn converts_to<A: Arithmetic<C>>(self, ops: &A, space: Space, to: Color<C>) -> bool {
        if self.space == space {
            to == self
        } else {
            exists|out: Components<C>|
                {
                    &&& #[trigger] runs(ops, conversion(self.space, space), self.components, out)
                    &&& lands(ops, self.space, space, self.flags, Channel::C0, out.0,
                        to.flags.has(Channel::C0), to.components.0)
                    &&& lands(ops, self.space, space, self.flags, Channel::C1, out.1,
                        to.flags.has(Channel::C1), to.components.1)
                    &&& lands(ops, self.space, space, self.flags, Channel::C2, out.2,
                        to.flags.has(Channel::C2), to.components.2)
                    &&& to.space == space
                    &&& to.alpha == self.alpha
                    &&& to.flags.has(Channel::Alpha) == self.flags.has(Channel::Alpha)
                    &&& to.flags.wf()
                }
        }
    }

    /// Convert this color from its current color space/notation to the
    /// specified color space/notation.
    pub fn to_space<A: Arithmetic<C>>(&self, ops: &A, space: Space) -> (r: Self)
        ensures
            self.converts_to(ops, space, r),
            r.space == space,
            r.channel(Channel::Alpha) == self.channel(Channel::Alpha),
    {
        if self.space == space {
            return *self;
        }
        let steps = conversion_steps(self.space, space);
        let out = run(ops, &steps, self.components);
        let mut flags = _analogous_missing_components(self.space, space, self.flags);
        let ghost carried = flags;
        let c0 = Self::land(ops, out.0, &mut flags, Channel::C0);
        let c1 = Self::land(ops, out.1, &mut flags, Channel::C1);
        let c2 = Self::land(ops, out.2, &mut flags, Channel::C2);
        let r = Color { components: Components(c0, c1, c2), alpha: self.alpha, flags, space };
        proof {
            assert(carried_into(self.space, space, self.flags, Channel::Alpha) == self.flags.has(
                Channel::Alpha,
            ));
            assert(carried.has(Channel::C0) == carried_into(
                self.space,
                space,
                self.flags,
                Channel::C0,
            ));
            assert(carried.has(Channel::C1) == carried_into(
                self.space,
                space,
                self.flags,
                Channel::C1,
            ));
            assert(carried.has(Channel::C2) == carried_into(
                self.space,
                space,
                self.flags,
                Channel::C2,
            ));
            assert(carried.has(Channel::Alpha) == self.flags.has(Channel::Alpha));
            assert(runs(ops, conversion(self.space, space), self.components, out));
        }
        r
    }

    /// Store a component that a conversion made: if it is no number, mark
    /// the channel as missing and store zero in its place.
    fn land<A: Arithmetic<C>>(ops: &A, value: C, flags: &mut Flags, channel: Channel) -> (r: C)
        ensures
            exists|powerless: bool|
                {
                    &&& #[trigger] call_ensures(A::is_nan, (ops, value), powerless)
                    &&& final(flags).has(channel) == (powerless || old(flags).has(channel))
                    &&& if powerless {
                        constant(ops, 0, 1, r)
                    } else {
                        r == value
                    }
                },
            forall|c: Channel| c != channel ==> #[trigger] final(flags).has(c) == old(flags).has(c),
            old(flags).wf() ==> final(flags).wf(),
    {
        if ops.is_nan(value) {
            flags.insert(Flags::only(channel));
            zero(ops)
        } else {
            value
        }
    }
}

/// True if, in this arithmetic, the step is undone by its inverse: what
/// the inverse makes of the outcome of the step is what the step was
/// given.
pub open spec fn undone<C, A: Arithmetic<C>>(ops: &A, step: Step) -> bool {
    forall|from: Components<C>, to: Components<C>, back: Components<C>|
        #[trigger] call_ensures(A::convert, (ops, step, from), to) && #[trigger] call_ensures(
            A::convert,
            (ops, step.inverse(), to),
            back,
        ) ==> back == from
}

/// True if, in this arithmetic, each of the steps is undone by its
/// inverse.
pub open spec fn undoes<C, A: Arithmetic<C>>(ops: &A, steps: Seq<Step>) -> bool {
    forall|i: int| 0 <= i < steps.len() ==> undone(ops, #[trigger] steps[i])
}

/// True if, in this arithmetic, a step always makes the same of the same
/// components.
pub open spec fn repeats<C, A: Arithmetic<C>>(ops: &A) -> bool {
    forall|step: Step, from: Components<C>, first: Components<C>, second: Components<C>|
        #[trigger] call_ensures(A::convert, (ops, step, from), first) && #[trigger] call_ensures(
            A::convert,
            (ops, step, from),
            second,
        ) ==> first == second
}

/// Taking one step makes of the components what the step makes of them.
pub proof fn lemma_runs_one<C, A: Arithmetic<C>>(
    ops: &A,
    step: Step,
    from: Components<C>,
    to: Components<C>,
)
    ensures
        runs(ops, seq![step], from, to) == call_ensures(A::convert, (ops, step, from), to),
{
    reveal_with_fuel(runs, 3);
    assert(seq![step].drop_last() =~= Seq::<Step>::empty());
    assert(seq![step].last() == step);
    if call_ensures(A::convert, (ops, step, from), to) {
        assert(runs(ops, seq![step].drop_last(), from, from));
    }
}

/// Steps that are taken one chain after another pass through some
/// components between the two chains.
pub proof fn lemma_runs_split<C, A: Arithmetic<C>>(
    ops: &A,
    first: Seq<Step>,
    second: Seq<Step>,
    from: Components<C>,
    to: Components<C>,
)
    requires
        runs(ops, first + second, from, to),
    ensures
        exists|between: Components<C>|
            #[trigger] runs(ops, first, from, between) && runs(ops, second, between, to),
    decreases second.len(),
{
    let all = first + second;
    if second.len() == 0 {
        assert(all =~= first);
        assert(runs(ops, first, from, to) && runs(ops, second, to, to));
    } else {
        assert(all.drop_last() =~= first + second.drop_last());
        assert(all.last() == second.last());
        let mid = choose|mid: Components<C>|
            runs(ops, all.drop_last(), from, mid) && #[trigger] call_ensures(
                A::convert,
                (ops, all.last(), mid),
                to,
            );
        lemma_runs_split(ops, first, second.drop_last(), from, mid);
        let between = choose|between: Components<C>|
            #[trigger] runs(ops, first, from, between) && runs(
                ops,
                second.drop_last(),
                between,
                mid,
            );
        assert(runs(ops, second, between, to));
        assert(runs(ops, first, from, between) && runs(ops, second, between, to));
    }
}

/// Components that were taken through a chain of steps and then through
/// the steps that undo it are what they were, in an arithmetic in which
/// each step of the chain is undone by its inverse.
pub proof fn lemma_steps_round_trip<C, A: Arithmetic<C>>(
    ops: &A,
    steps: Seq<Step>,
    from: Components<C>,
    there: Components<C>,
    back: Components<C>,
)
    requires
        undoes(ops, steps),
        runs(ops, steps, from, there),
        runs(ops, undo(steps), there, back),
    ensures
        back == from,
    decreases steps.len(),
{
    if steps.len() == 0 {
        assert(undo(steps) =~= Seq::<Step>::empty());
    } else {
        let init = steps.drop_last();
        let last = steps.last();
        assert(undone(ops, steps[steps.len() - 1]));
        assert forall|i: int| 0 <= i < init.len() implies undone(ops, #[trigger] init[i]) by {
            assert(init[i] == steps[i]);
        }
        assert(undo(steps) =~= seq![last.inverse()] + undo(init));
        let mid = choose|mid: Components<C>|
            runs(ops, init, from, mid) && #[trigger] call_ensures(A::convert, (ops, last, mid), there);
        lemma_runs_split(ops, seq![last.inverse()], undo(init), there, back);
        let turned = choose|turned: Components<C>|
            #[trigger] runs(ops, seq![last.inverse()], there, turned) && runs(
                ops,
                undo(init),
                turned,
                back,
            );
        lemma_runs_one(ops, last.inverse(), there, turned);
        assert(turned == mid);
        lemma_steps_round_trip(ops, init, from, mid, back);
    }
}

/// Components that were converted from one space to another and back are
/// what they were, in an arithmetic in which each step of the way there is
/// undone by its inverse.
pub proof fn lemma_conversion_round_trip<C, A: Arithmetic<C>>(
    ops: &A,
    a: Space,
    b: Space,
    from: Components<C>,
    there: Components<C>,
    back: Components<C>,
)
    requires
        undoes(ops, conversion(a, b)),
        runs(ops, conversion(a, b), from, there),
        runs(ops, conversion(b, a), there, back),
    ensures
        back == from,
{
    lemma_conversion_reverses(a, b);
    assert(conversion(b, a) == undo(conversion(a, b)));
    lemma_steps_round_trip(ops, conversion(a, b), from, there, back);
}

/// Components of sRGB that were converted to HSL directly and by way of
/// the base are the same, in an arithmetic in which each step from sRGB to
/// the base is undone by its inverse, and in which a step always makes the
/// same of the same components.
pub proof fn lemma_direct_is_pivoted<C, A: Arithmetic<C>>(
    ops: &A,
    from: Components<C>,
    direct: Components<C>,
    base: Components<C>,
    pivoted: Components<C>,
)
    requires
        undoes(ops, conversion(Space::Srgb, Space::XyzD65)),
        repeats(ops),
        runs(ops, conversion(Space::Srgb, Space::Hsl), from, direct),
        runs(ops, conversion(Space::Srgb, Space::XyzD65), from, base),
        runs(ops, conversion(Space::XyzD65, Space::Hsl), base, pivoted),
    ensures
        pivoted == direct,
{
    let there = conversion(Space::Srgb, Space::XyzD65);
    let on = conversion(Space::XyzD65, Space::Hsl);
    lemma_conversion_reverses(Space::Srgb, Space::XyzD65);
    assert(conversion(Space::Srgb, Space::Hsl) =~= seq![Step::SrgbToHsl]);
    assert(on =~= undo(there) + seq![Step::SrgbToHsl]);
    lemma_runs_split(ops, undo(there), seq![Step::SrgbToHsl], base, pivoted);
    let again = choose|again: Components<C>|
        #[trigger] runs(ops, undo(there), base, again) && runs(
            ops,
            seq![Step::SrgbToHsl],
            again,
            pivoted,
        );
    lemma_steps_round_trip(ops, there, from, base, again);
    lemma_runs_one(ops, Step::SrgbToHsl, from, pivoted);
    lemma_runs_one(ops, Step::SrgbToHsl, from, direct);
}

} // verus!
