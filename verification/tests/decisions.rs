use camelion::convert::{direct, encoded_chain, from_base, linear_chain, to_base, RgbSpace, Step};
use camelion::gamut::Closeness as C;
use camelion::gamut::Lightness as L;
use camelion::gamut::{narrow, verdict, Narrow, Verdict};
use camelion::interpolate::HueDelta as D;
use camelion::interpolate::HueInterpolationMethod as M;
use camelion::interpolate::HueShift as S;
use camelion::interpolate::{alpha_fill, fill_missing_alpha, AlphaFill};
use camelion::models::{rgb_form, HasSpace, Hsl, Lch, ProPhotoRgb, SrgbLinear, XyzD50};
use camelion::tags::{ColorSpace, Encoding, GammaEncoded, LinearLight, WhitePoint, D50, D65};
use camelion::{Channel, Flags, Role, Space};

#[test]
fn flags_behave_as_a_set_of_four_bits() {
    let c0 = Flags::only(Channel::C0);
    let c2 = Flags::only(Channel::C2);
    let alpha = Flags::only(Channel::Alpha);
    assert_eq!(Flags::empty().bits(), 0);
    assert_eq!(Flags::all().bits(), 15);
    assert_eq!((c0.bits(), Flags::only(Channel::C1).bits(), c2.bits(), alpha.bits()), (1, 2, 4, 8));
    assert_eq!(c0.union(alpha).bits(), 9);
    assert_eq!(c0.union(alpha).intersection(alpha.union(c2)), alpha);
    assert_eq!(Flags::from_bits_truncate(0xf5).bits(), 5);
    assert!(Flags::empty().is_empty());
    assert!(!c0.is_empty());
    assert!(c0.union(c2).contains(c2));
    assert!(!c0.union(c2).contains(c2.union(alpha)));
    assert!(c0.contains(Flags::empty()));
    assert!(c0.is_missing(Channel::C0));
    assert!(!c0.is_missing(Channel::C1));

    let mut flags = c0;
    flags.insert(alpha);
    assert_eq!(flags.bits(), 9);
    flags.remove(c0.union(c2));
    assert_eq!(flags, alpha);
    flags.set(c2, true);
    assert_eq!(flags.bits(), 12);
    flags.set(alpha, false);
    assert_eq!(flags, c2);
}

#[test]
fn spaces_are_classified() {
    assert!(Space::Srgb._is_rgb_like());
    assert!(Space::Rec2020._is_rgb_like());
    assert!(!Space::Hsl._is_rgb_like());
    assert!(!Space::XyzD50._is_rgb_like());
    assert!(Space::XyzD50._is_xyz_like());
    assert!(Space::XyzD65._is_xyz_like());
    assert!(!Space::Lab._is_xyz_like());
    assert_eq!(Space::Hsl.hue_index(), Some(0));
    assert_eq!(Space::Hwb.hue_index(), Some(0));
    assert_eq!(Space::Lch.hue_index(), Some(2));
    assert_eq!(Space::Oklch.hue_index(), Some(2));
    assert_eq!(Space::Oklab.hue_index(), None);
    assert_eq!(Space::Srgb.hue_index(), None);
    assert_eq!(Space::Hwb.channel_role(Channel::C1), Role::Whiteness);
    assert_eq!(Space::Hsl.channel_role(Channel::C2), Role::Lightness);
    assert_eq!(Space::Oklch.channel_role(Channel::C2), Role::Hue);
    assert_eq!(Space::A98Rgb.channel_role(Channel::C1), Role::Green);
    assert_eq!(Space::XyzD65.channel_role(Channel::Alpha), Role::Alpha);
    assert!(Space::Hsl.has_gamut_limits());
    assert!(!Space::Oklch.has_gamut_limits());
    assert_eq!(Space::Hwb.gamut_space(), Some(Space::Srgb));
    assert_eq!(Space::DisplayP3.gamut_space(), Some(Space::DisplayP3));
    assert_eq!(Space::XyzD50.gamut_space(), None);
}

#[test]
fn chains_to_and_from_the_base() {
    assert_eq!(to_base(Space::XyzD65), vec![]);
    assert_eq!(
        to_base(Space::ProPhotoRgb),
        vec![
            Step::ToLinearLight(RgbSpace::ProPhotoRgb),
            Step::RgbToXyz(RgbSpace::ProPhotoRgb),
            Step::D50ToD65
        ]
    );
    assert_eq!(
        from_base(Space::Hsl),
        vec![
            Step::XyzToRgb(RgbSpace::Srgb),
            Step::ToGammaEncoded(RgbSpace::Srgb),
            Step::SrgbToHsl
        ]
    );
    assert_eq!(from_base(Space::Lch), vec![Step::D65ToD50, Step::XyzToLab, Step::LabToLch]);
    assert_eq!(linear_chain(RgbSpace::Rec2020), vec![Step::RgbToXyz(RgbSpace::Rec2020)]);
    assert_eq!(
        linear_chain(RgbSpace::ProPhotoRgb),
        vec![Step::RgbToXyz(RgbSpace::ProPhotoRgb), Step::D50ToD65]
    );
    assert_eq!(encoded_chain(RgbSpace::Srgb), to_base(Space::Srgb));
    assert_eq!(encoded_chain(RgbSpace::ProPhotoRgb), to_base(Space::ProPhotoRgb));
    assert_eq!(direct(Space::Srgb, Space::SrgbLinear), Some(vec![Step::ToLinearLight(RgbSpace::Srgb)]));
    assert_eq!(direct(Space::XyzD65, Space::XyzD50), Some(vec![Step::D65ToD50]));
    assert_eq!(direct(Space::Srgb, Space::DisplayP3), None);
    assert_eq!(direct(Space::Srgb, Space::Srgb), None);
    assert_eq!(Step::SrgbToHwb.reversed(), Step::HwbToSrgb);
}

#[test]
fn tags_stand_for_places_in_the_graph() {
    assert!(!GammaEncoded::is_linear());
    assert!(LinearLight::is_linear());
    assert_eq!(D50::xyz_space(), Space::XyzD50);
    assert_eq!(D65::xyz_space(), Space::XyzD65);
    assert_eq!(camelion::tags::Rec2020::rgb_space(), RgbSpace::Rec2020);
    assert_eq!(camelion::tags::A98Rgb::encoded_space(), Space::A98Rgb);
    assert_eq!(<camelion::tags::Lab as camelion::tags::Space>::polar_space(), Space::Lch);
    assert_eq!(<camelion::tags::Oklab as camelion::tags::Space>::to_xyz_step(), Step::OklabToXyz);
    assert_eq!(format!("{:?}", rgb_form::<LinearLight>(RgbSpace::Rec2020)), "Linear(Rec2020)");
    assert_eq!(format!("{:?}", rgb_form::<GammaEncoded>(RgbSpace::Srgb)), "Encoded(Srgb)");
}

#[test]
fn models_know_their_space() {
    assert_eq!(Hsl::<u8>::space(), Space::Hsl);
    assert_eq!(Lch::<u8>::space(), Space::Lch);
    assert_eq!(ProPhotoRgb::<u8>::space(), Space::ProPhotoRgb);
    assert_eq!(SrgbLinear::<u8>::space(), Space::SrgbLinear);
    assert_eq!(XyzD50::<u8>::space(), Space::XyzD50);
}

#[test]
fn gamut_verdicts() {
    assert_eq!(verdict(Space::Lab, false, L::Light, C::Far), Verdict::Unchanged);
    assert_eq!(verdict(Space::Srgb, true, L::Light, C::Far), Verdict::Unchanged);
    assert_eq!(verdict(Space::Srgb, false, L::Light, C::Near), Verdict::White);
    assert_eq!(verdict(Space::Hsl, false, L::Dark, C::Near), Verdict::Black);
    assert_eq!(verdict(Space::Srgb, false, L::Between, C::Near), Verdict::Clipped);
    assert_eq!(verdict(Space::Srgb, false, L::Between, C::Converged), Verdict::Clipped);
    assert_eq!(verdict(Space::Srgb, false, L::Between, C::Far), Verdict::Search);

    assert_eq!(narrow(true, true, C::Far), Narrow::RaiseMin);
    assert_eq!(narrow(true, false, C::Far), Narrow::LowerMax);
    assert_eq!(narrow(true, false, C::Near), Narrow::RaiseMinOutside);
    assert_eq!(narrow(true, false, C::Converged), Narrow::ReturnClipped);
    assert_eq!(narrow(false, true, C::Far), Narrow::LowerMax);
    assert_eq!(narrow(false, true, C::Near), Narrow::RaiseMinOutside);
    assert_eq!(narrow(false, true, C::Converged), Narrow::ReturnClipped);
}

#[test]
fn hue_shift_by_method_and_difference() {
    let all = [
        D::BelowMinusHalf,
        D::MinusHalf,
        D::Negative,
        D::Zero,
        D::Positive,
        D::Half,
        D::AboveHalf,
        D::Unordered,
    ];
    let n = S::Neither;
    let shorter = [S::Right, n, n, n, n, n, S::Left, n];
    let longer = [n, n, S::Right, S::Right, S::Left, n, n, n];
    let increasing = [S::Right, S::Right, S::Right, n, n, n, n, n];
    let decreasing = [n, n, n, n, S::Left, S::Left, S::Left, n];
    for i in 0..8 {
        assert_eq!(M::Shorter.shift_for(all[i]), shorter[i]);
        assert_eq!(M::Longer.shift_for(all[i]), longer[i]);
        assert_eq!(M::Increasing.shift_for(all[i]), increasing[i]);
        assert_eq!(M::Decreasing.shift_for(all[i]), decreasing[i]);
    }
}

#[test]
fn a_missing_alpha_is_filled_from_the_other_side() {
    let none = Flags::only(Channel::Alpha).union(Flags::only(Channel::C1));
    let some = Flags::only(Channel::C0);
    assert_eq!(alpha_fill(none, some), AlphaFill::Left);
    assert_eq!(alpha_fill(some, none), AlphaFill::Right);
    assert_eq!(alpha_fill(some, some), AlphaFill::Neither);
    assert_eq!(alpha_fill(none, none), AlphaFill::Neither);
    assert_eq!(fill_missing_alpha(none, some), (Flags::only(Channel::C1), some));
    assert_eq!(fill_missing_alpha(some, none), (some, Flags::only(Channel::C1)));
    assert_eq!(fill_missing_alpha(none, none), (none, none));
}
