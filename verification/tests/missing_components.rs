use camelion::Space as S;
use camelion::{Channel, Flags, _analogous_missing_components};

fn c0() -> Flags {
    Flags::only(Channel::C0)
}

fn c1() -> Flags {
    Flags::only(Channel::C1)
}

fn c2() -> Flags {
    Flags::only(Channel::C2)
}

fn alpha() -> Flags {
    Flags::only(Channel::Alpha)
}

#[test]
fn test_analogous_missing_components() {
    let tests = [
        // Reds             r, x
        // Greens           g, y
        // Blues            b, z
        (S::Srgb, S::DisplayP3, c0(), c0()),
        (S::Srgb, S::DisplayP3, c1(), c1()),
        (S::Srgb, S::DisplayP3, c2(), c2()),
        (S::Srgb, S::DisplayP3, alpha(), alpha()),
        (
            S::Srgb,
            S::DisplayP3,
            c0().union(c1()).union(c2()).union(alpha()),
            c0().union(c1()).union(c2()).union(alpha()),
        ),
        // Lightness        L
        (S::Lab, S::Lab, c0(), c0()),
        (S::Lab, S::Lch, c0(), c0()),
        (S::Lch, S::Lch, c0(), c0()),
        (S::Lch, S::Lab, c0(), c0()),
        (S::Lab, S::Hsl, c0(), c2()),
        (S::Lch, S::Hsl, c0(), c2()),
        (S::Hsl, S::Lab, c2(), c0()),
        (S::Hsl, S::Lch, c2(), c0()),
        (S::Oklab, S::Oklab, c0(), c0()),
        (S::Oklab, S::Oklch, c0(), c0()),
        (S::Oklch, S::Oklch, c0(), c0()),
        (S::Oklch, S::Oklab, c0(), c0()),
        (S::Oklab, S::Hsl, c0(), c2()),
        (S::Oklch, S::Hsl, c0(), c2()),
        (S::Hsl, S::Oklab, c2(), c0()),
        (S::Hsl, S::Oklch, c2(), c0()),
        // Colorfulness     C, S
        (S::Hsl, S::Hsl, c1(), c1()),
        (S::Hsl, S::Lch, c1(), c1()),
        (S::Hsl, S::Oklch, c1(), c1()),
        (S::Lch, S::Hsl, c1(), c1()),
        (S::Lch, S::Lch, c1(), c1()),
        (S::Lch, S::Oklch, c1(), c1()),
        (S::Oklch, S::Hsl, c1(), c1()),
        (S::Oklch, S::Lch, c1(), c1()),
        (S::Oklch, S::Oklch, c1(), c1()),
        // Hue              H
        (S::Hsl, S::Hsl, c0(), c0()),
        (S::Hsl, S::Hwb, c0(), c0()),
        (S::Hsl, S::Lch, c0(), c2()),
        (S::Hsl, S::Oklch, c0(), c2()),
        (S::Hwb, S::Hsl, c0(), c0()),
        (S::Hwb, S::Hwb, c0(), c0()),
        (S::Hwb, S::Lch, c0(), c2()),
        (S::Hwb, S::Oklch, c0(), c2()),
        (S::Lch, S::Hsl, c2(), c0()),
        (S::Lch, S::Hwb, c2(), c0()),
        (S::Lch, S::Lch, c2(), c2()),
        (S::Lch, S::Oklch, c2(), c2()),
        (S::Oklch, S::Hsl, c2(), c0()),
        (S::Oklch, S::Hwb, c2(), c0()),
        (S::Oklch, S::Lch, c2(), c2()),
        (S::Oklch, S::Oklch, c2(), c2()),
        // Opponent         a, a
        // Opponent         b, b
        (S::Lab, S::Lab, c1().union(c2()), c1().union(c2())),
        (S::Lab, S::Oklab, c1().union(c2()), c1().union(c2())),
        (S::Oklab, S::Lab, c1().union(c2()), c1().union(c2())),
        (S::Oklab, S::Oklab, c1().union(c2()), c1().union(c2())),
    ];

    for (from, to, flags, expected) in tests {
        let result = _analogous_missing_components(from, to, flags);
        assert_eq!(
            result, expected,
            "{:?} to {:?}, {:?} != {:?}",
            from, to, result, expected
        );
    }
}

#[test]
fn ad_hoc() {}
