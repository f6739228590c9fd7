//! A color of any of the supported color spaces.
//!
//! The type of a component is a parameter. Nothing here computes with
//! components; they are stored, moved and handed out, and the flags say
//! which of them are missing.

use crate::arith::{clamp_unit, clamps, constant, zero, Arithmetic};
use crate::flags::{Channel, Flags};
use crate::space::Space;
use vstd::prelude::*;
use vstd::std_specs::convert::{FromSpecImpl, IntoSpec};

verus! {

/// The three components that describe any color.
#[derive(Clone, Copy, Debug, PartialEq)]
pub struct Components<C>(pub C, pub C, pub C);

impl<C: Copy> Components<C> {
    /// Return new components with each component mapped with the given
    /// function.
    pub fn map<F: Fn(C) -> C>(&self, f: F) -> (r: Self)
        requires
            f.requires((self.0,)),
            f.requires((self.1,)),
            f.requires((self.2,)),
        ensures
            f.ensures((self.0,), r.0),
            f.ensures((self.1,), r.1),
            f.ensures((self.2,), r.2),
    {
        Components(f(self.0), f(self.1), f(self.2))
    }
}

/// A component as it is handed to a constructor: a value, or nothing where
/// the component is missing.
pub struct ComponentDetails<C> {
    /// The value of the component, if it has one.
    pub value: Option<C>,
}

impl<C: Copy> ComponentDetails<C> {
    /// Extract the value and set the given flag if the component is none.
    /// For a component that is none the value is zero.
    pub fn value_and_flag<A: Arithmetic<C>>(&self, ops: &A, flags: &mut Flags, flag: Flags) -> (r: C)
        ensures
            stored(ops, self.value, r),
            forall|c: Channel| #[trigger]
                final(flags).has(c) == (old(flags).has(c) || (self.value is None && flag.has(c))),
            old(flags).wf() && flag.wf() ==> final(flags).wf(),
    {
        match self.value {
            Some(value) => value,
            None => {
                flags.insert(flag);
                zero(ops)
            },
        }
    }
}

/// True if `out` is what is stored for a component that was given as
/// `given`: its value, and zero if the component is missing.
pub open spec fn stored<C, A: Arithmetic<C>>(ops: &A, given: Option<C>, out: C) -> bool {
    match given {
        Some(value) => out == value,
        None => constant(ops, 0, 1, out),
    }
}

impl<C> From<C> for ComponentDetails<C> {
    fn from(value: C) -> (r: Self) {
        ComponentDetails { value: Some(value) }
    }
}

impl<C> FromSpecImpl<C> for ComponentDetails<C> {
    open spec fn obeys_from_spec() -> bool {
        true
    }

    open spec fn from_spec(value: C) -> Self {
        ComponentDetails { value: Some(value) }
    }
}

impl<C> From<Option<C>> for ComponentDetails<C> {
    fn from(value: Option<C>) -> (r: Self) {
        ComponentDetails { value }
    }
}

impl<C> FromSpecImpl<Option<C>> for ComponentDetails<C> {
    open spec fn obeys_from_spec() -> bool {
        true
    }

    open spec fn from_spec(value: Option<C>) -> Self {
        ComponentDetails { value }
    }
}

/// Struct that can hold a color of any color space.
#[derive(Clone, Copy, Debug)]
pub struct Color<C> {
    /// The three components that make up any color.
    pub components: Components<C>,
    /// The alpha component of the color.
    pub alpha: C,
    /// Holds any flags that might be enabled for this color.
    pub flags: Flags,
    /// The color space in which the components are set.
    pub space: Space,
}

impl<C: Copy> Color<C> {
    /// The value of the given channel as a reader sees it: none where the
    /// flag of the channel says that it is missing, whatever is stored.
    pub open spec fn channel(self, channel: Channel) -> Option<C> {
        if self.flags.has(channel) {
            None
        } else {
            Some(
                match channel {
                    Channel::C0 => self.components.0,
                    Channel::C1 => self.components.1,
                    Channel::C2 => self.components.2,
                    Channel::Alpha => self.alpha,
                },
            )
        }
    }

    /// True if zero is stored in place of every channel that is missing.
    pub open spec fn settled<A: Arithmetic<C>>(self, ops: &A) -> bool {
        &&& stored(ops, self.channel(Channel::C0), self.components.0)
        &&& stored(ops, self.channel(Channel::C1), self.components.1)
        &&& stored(ops, self.channel(Channel::C2), self.components.2)
        &&& stored(ops, self.channel(Channel::Alpha), self.alpha)
    }

    /// True if `out` is the alpha `given` as a color holds it: missing if
    /// none was given, and else clamped to the range from zero to one.
    pub open spec fn clamped<A: Arithmetic<C>>(ops: &A, given: Option<C>, out: Option<C>) -> bool {
        match given {
            None => out is None,
            Some(alpha) => out matches Some(a) && clamps(ops, alpha, a),
        }
    }

    /// Create a new color. Each color or alpha component can take a value,
    /// or `None` to mark the component as missing. An alpha that is given
    /// is clamped to the range from zero to one.
    pub fn new<A, A0, A1, A2, A3>(ops: &A, space: Space, c0: A0, c1: A1, c2: A2, alpha: A3) -> (r:
        Self) where
        A: Arithmetic<C>,
        A0: Into<ComponentDetails<C>>,
        A1: Into<ComponentDetails<C>>,
        A2: Into<ComponentDetails<C>>,
        A3: Into<ComponentDetails<C>>,

        ensures
            r.space == space,
            r.flags.wf(),
            A0::obeys_into_spec() ==> r.channel(Channel::C0) == c0.into_spec().value,
            A1::obeys_into_spec() ==> r.channel(Channel::C1) == c1.into_spec().value,
            A2::obeys_into_spec() ==> r.channel(Channel::C2) == c2.into_spec().value,
            A3::obeys_into_spec() ==> Self::clamped(
                ops,
                alpha.into_spec().value,
                r.channel(Channel::Alpha),
            ),
            r.settled(ops),
    {
        Self::from_parts(ops, space, c0.into().value, c1.into().value, c2.into().value, alpha.into().value)
    }

    /// Create a new color of the three components and the alpha, each of
    /// which may be missing. An alpha that is given is clamped to the range
    /// from zero to one.
    pub fn from_parts<A: Arithmetic<C>>(
        ops: &A,
        space: Space,
        c0: Option<C>,
        c1: Option<C>,
        c2: Option<C>,
        alpha: Option<C>,
    ) -> (r: Self)
        ensures
            r.space == space,
            r.flags.wf(),
            r.channel(Channel::C0) == c0,
            r.channel(Channel::C1) == c1,
            r.channel(Channel::C2) == c2,
            Self::clamped(ops, alpha, r.channel(Channel::Alpha)),
            r.settled(ops),
    {
        let alpha = match alpha {
            Some(alpha) => Some(clamp_unit(ops, alpha)),
            None => None,
        };
        let mut flags = Flags::empty();
        let c0 = ComponentDetails { value: c0 }.value_and_flag(ops, &mut flags, Flags::only(Channel::C0));
        let c1 = ComponentDetails { value: c1 }.value_and_flag(ops, &mut flags, Flags::only(Channel::C1));
        let c2 = ComponentDetails { value: c2 }.value_and_flag(ops, &mut flags, Flags::only(Channel::C2));
        let alpha = ComponentDetails { value: alpha }.value_and_flag(
            ops,
            &mut flags,
            Flags::only(Channel::Alpha),
        );
        Color { components: Components(c0, c1, c2), alpha, flags, space }
    }

    /// Return the first component of the color.
    pub fn c0(&self) -> (r: Option<C>)
        ensures
            r == self.channel(Channel::C0),
    {
        if self.flags.is_missing(Channel::C0) {
            None
        } else {
            Some(self.components.0)
        }
    }

    /// Return the second component of the color.
    pub fn c1(&self) -> (r: Option<C>)
        ensures
            r == self.channel(Channel::C1),
    {
        if self.flags.is_missing(Channel::C1) {
            None
        } else {
            Some(self.components.1)
        }
    }

    /// Return the third component of the color.
    pub fn c2(&self) -> (r: Option<C>)
        ensures
            r == self.channel(Channel::C2),
    {
        if self.flags.is_missing(Channel::C2) {
            None
        } else {
            Some(self.components.2)
        }
    }

    /// Return the alpha component of the color.
    pub fn alpha(&self) -> (r: Option<C>)
        ensures
            r == self.channel(Channel::Alpha),
    {
        if self.flags.is_missing(Channel::Alpha) {
            None
        } else {
            Some(self.alpha)
        }
    }
}

} // verus!
