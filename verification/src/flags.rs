//! Flags that mark which components of a color are missing.

use vstd::prelude::*;

verus! {

/// The four channels of a color that can be marked as missing.
#[derive(Clone, Copy, Debug, PartialEq, Eq, Structural)]
pub enum Channel {
    /// The first component.
    C0,
    /// The second component.
    C1,
    /// The third component.
    C2,
    /// The alpha component.
    Alpha,
}

impl Channel {
    /// The bit that stands for this channel in a [`Flags`] value.
    pub open spec fn mask(self) -> u8 {
        match self {
            Channel::C0 => 1u8,
            Channel::C1 => 2u8,
            Channel::C2 => 4u8,
            Channel::Alpha => 8u8,
        }
    }

    /// The bit that stands for this channel in a [`Flags`] value.
    pub fn bit(self) -> (r: u8)
        ensures
            r == self.mask(),
    {
        match self {
            Channel::C0 => 1u8,
            Channel::C1 => 2u8,
            Channel::C2 => 4u8,
            Channel::Alpha => 8u8,
        }
    }
}

/// Facts about single bits of a byte that the flag operations rest on.
proof fn lemma_bits(a: u8, b: u8, m: u8)
    by (bit_vector)
    requires
        m == 1u8 || m == 2u8 || m == 4u8 || m == 8u8,
    ensures
        ((a | b) & m != 0) == ((a & m != 0) || (b & m != 0)),
        ((a & !b) & m != 0) == ((a & m != 0) && !(b & m != 0)),
        ((a & b) & m != 0) == ((a & m != 0) && (b & m != 0)),
        ((a & 0x0fu8) & m != 0) == (a & m != 0),
        (0u8 & m != 0) == false,
        (0x0fu8 & m != 0) == true,
        (a | b) & 0xf0u8 == 0 <==> (a & 0xf0u8 == 0 && b & 0xf0u8 == 0),
        a & 0xf0u8 == 0 ==> (a & !b) & 0xf0u8 == 0,
        a & 0xf0u8 == 0 || b & 0xf0u8 == 0 ==> (a & b) & 0xf0u8 == 0,
        (a & 0x0fu8) & 0xf0u8 == 0,
        m & 0xf0u8 == 0,
        0u8 & 0xf0u8 == 0,
        0x0fu8 & 0xf0u8 == 0,
        (m & 1u8 != 0) == (m == 1u8),
        (m & 2u8 != 0) == (m == 2u8),
        (m & 4u8 != 0) == (m == 4u8),
        (m & 8u8 != 0) == (m == 8u8),
{
}

/// A byte without high bits is determined by its four low bits.
proof fn lemma_low_bits_decide(a: u8, b: u8)
    by (bit_vector)
    requires
        a & 0xf0u8 == 0,
        b & 0xf0u8 == 0,
        (a & 1u8 != 0) == (b & 1u8 != 0),
        (a & 2u8 != 0) == (b & 2u8 != 0),
        (a & 4u8 != 0) == (b & 4u8 != 0),
        (a & 8u8 != 0) == (b & 8u8 != 0),
    ensures
        a == b,
{
}

/// What `a & b == b` says bit by bit.
proof fn lemma_subset(a: u8, b: u8)
    by (bit_vector)
    requires
        b & 0xf0u8 == 0,
    ensures
        (a & b == b) == (((b & 1u8 != 0) ==> (a & 1u8 != 0)) && ((b & 2u8 != 0) ==> (a & 2u8
            != 0)) && ((b & 4u8 != 0) ==> (a & 4u8 != 0)) && ((b & 8u8 != 0) ==> (a & 8u8 != 0))),
{
}

/// Flags to mark any missing components on a color: one bit per channel.
#[derive(Clone, Copy, Debug, PartialEq, Eq, Structural)]
pub struct Flags {
    bits: u8,
}

impl Flags {
    /// The raw bits, as a mathematical value.
    pub closed spec fn raw(self) -> u8 {
        self.bits
    }

    /// True if the flag of `channel` is set: the channel is missing.
    pub closed spec fn has(self, channel: Channel) -> bool {
        self.bits & channel.mask() != 0
    }

    /// No bit other than those of the four channels is set.
    pub closed spec fn wf(self) -> bool {
        self.bits & 0xf0u8 == 0
    }

    /// Every flag of `other` is also set in `self`.
    pub open spec fn includes(self, other: Flags) -> bool {
        forall|c: Channel| #[trigger] other.has(c) ==> self.has(c)
    }

    /// Two well-formed values with the same flags are the same value.
    pub proof fn lemma_same_flags(a: Flags, b: Flags)
        requires
            a.wf(),
            b.wf(),
            forall|c: Channel| #[trigger] a.has(c) == b.has(c),
        ensures
            a == b,
    {
        assert(a.has(Channel::C0) == b.has(Channel::C0));
        assert(a.has(Channel::C1) == b.has(Channel::C1));
        assert(a.has(Channel::C2) == b.has(Channel::C2));
        assert(a.has(Channel::Alpha) == b.has(Channel::Alpha));
        lemma_low_bits_decide(a.bits, b.bits);
    }

    /// The value with no flag set.
    pub closed spec fn empty_spec() -> Flags {
        Flags { bits: 0 }
    }

    /// The value with no flag set.
    pub fn empty() -> (r: Flags)
        ensures
            r == Flags::empty_spec(),
            r.wf(),
            r.raw() == 0,
            forall|c: Channel| !#[trigger] r.has(c),
    {
        proof {
            assert forall|c: Channel| !(0u8 & #[trigger] c.mask() != 0) by {
                lemma_bits(0, 0, c.mask());
            }
            lemma_bits(0, 0, 1);
        }
        Flags { bits: 0 }
    }

    /// The value with all four flags set.
    pub fn all() -> (r: Flags)
        ensures
            r.wf(),
            r.raw() == 15,
            forall|c: Channel| #[trigger] r.has(c),
    {
        proof {
            assert forall|c: Channel| 15u8 & #[trigger] c.mask() != 0 by {
                lemma_bits(0, 0, c.mask());
            }
            lemma_bits(15, 15, 1);
        }
        Flags { bits: 15 }
    }

    /// The value in which exactly the flag of `channel` is set.
    pub fn only(channel: Channel) -> (r: Flags)
        ensures
            r.wf(),
            r.raw() == channel.mask(),
            forall|c: Channel| #[trigger] r.has(c) == (c == channel),
    {
        let bits = channel.bit();
        proof {
            lemma_bits(0, 0, bits);
        }
        Flags { bits }
    }

    /// The flags as a byte: bit 0, 1 and 2 for the three components, bit 3
    /// for alpha.
    pub fn bits(&self) -> (r: u8)
        ensures
            r == self.raw(),
            forall|c: Channel| #[trigger] self.has(c) == (r & c.mask() != 0),
            self.wf() ==> r < 16,
    {
        proof {
            let b = self.bits;
            assert(b & 0xf0u8 == 0 ==> b < 16) by (bit_vector);
        }
        self.bits
    }

    /// The flags held by the low four bits of `bits`; other bits are
    /// dropped.
    pub fn from_bits_truncate(bits: u8) -> (r: Flags)
        ensures
            r.wf(),
            r.raw() == bits & 0x0fu8,
            forall|c: Channel| #[trigger] r.has(c) == (bits & c.mask() != 0),
    {
        proof {
            assert forall|c: Channel|
                ((bits & 0x0fu8) & #[trigger] c.mask() != 0) == (bits & c.mask() != 0) by {
                lemma_bits(bits, 0, c.mask());
            }
            lemma_bits(bits, 0, 1);
        }
        Flags { bits: bits & 0x0f }
    }

    /// True if no flag is set.
    pub fn is_empty(&self) -> (r: bool)
        ensures
            r == (forall|c: Channel| !#[trigger] self.has(c)),
    {
        let low = self.bits & 0x0f;
        proof {
            lemma_bits(self.bits, 0, 1);
            lemma_bits(self.bits, 0, 2);
            lemma_bits(self.bits, 0, 4);
            lemma_bits(self.bits, 0, 8);
            if low == 0 {
                assert forall|c: Channel| !#[trigger] self.has(c) by {
                    lemma_bits(self.bits, 0, c.mask());
                }
            } else if forall|c: Channel| !#[trigger] self.has(c) {
                assert(!self.has(Channel::C0) && !self.has(Channel::C1) && !self.has(Channel::C2)
                    && !self.has(Channel::Alpha));
                lemma_low_bits_decide(low, 0);
            }
        }
        low == 0
    }

    /// True if the flag of `channel` is set.
    pub fn is_missing(&self, channel: Channel) -> (r: bool)
        ensures
            r == self.has(channel),
    {
        self.bits & channel.bit() != 0
    }

    /// True if every flag that is set in `other` is set in `self`.
    pub fn contains(&self, other: Flags) -> (r: bool)
        ensures
            r == self.includes(other),
    {
        let wanted = other.bits & 0x0f;
        proof {
            lemma_bits(other.bits, 0, 1);
            lemma_bits(other.bits, 0, 2);
            lemma_bits(other.bits, 0, 4);
            lemma_bits(other.bits, 0, 8);
            lemma_subset(self.bits, wanted);
            if self.includes(other) {
                assert(other.has(Channel::C0) ==> self.has(Channel::C0));
                assert(other.has(Channel::C1) ==> self.has(Channel::C1));
                assert(other.has(Channel::C2) ==> self.has(Channel::C2));
                assert(other.has(Channel::Alpha) ==> self.has(Channel::Alpha));
            }
        }
        self.bits & wanted == wanted
    }

    /// The flags that are set in `self` or in `other`.
    pub fn union(self, other: Flags) -> (r: Flags)
        ensures
            r.wf() == (self.wf() && other.wf()),
            r.raw() == self.raw() | other.raw(),
            forall|c: Channel| #[trigger] r.has(c) == (self.has(c) || other.has(c)),
    {
        proof {
            assert forall|c: Channel|
                ((self.bits | other.bits) & #[trigger] c.mask() != 0) == ((self.bits & c.mask()
                    != 0) || (other.bits & c.mask() != 0)) by {
                lemma_bits(self.bits, other.bits, c.mask());
            }
            lemma_bits(self.bits, other.bits, 1);
        }
        Flags { bits: self.bits | other.bits }
    }

    /// The flags that are set in both `self` and `other`.
    pub fn intersection(self, other: Flags) -> (r: Flags)
        ensures
            self.wf() || other.wf() ==> r.wf(),
            r.raw() == self.raw() & other.raw(),
            forall|c: Channel| #[trigger] r.has(c) == (self.has(c) && other.has(c)),
    {
        proof {
            assert forall|c: Channel|
                ((self.bits & other.bits) & #[trigger] c.mask() != 0) == ((self.bits & c.mask()
                    != 0) && (other.bits & c.mask() != 0)) by {
                lemma_bits(self.bits, other.bits, c.mask());
            }
            lemma_bits(self.bits, other.bits, 1);
        }
        Flags { bits: self.bits & other.bits }
    }

    /// Set every flag that is set in `other`.
    pub fn insert(&mut self, other: Flags)
        ensures
            final(self).wf() == (old(self).wf() && other.wf()),
            forall|c: Channel| #[trigger] final(self).has(c) == (old(self).has(c) || other.has(c)),
    {
        *self = self.union(other);
    }

    /// Clear every flag that is set in `other`.
    pub fn remove(&mut self, other: Flags)
        ensures
            old(self).wf() ==> final(self).wf(),
            forall|c: Channel| #[trigger] final(self).has(c) == (old(self).has(c) && !other.has(c)),
    {
        proof {
            assert forall|c: Channel|
                ((self.bits & !other.bits) & #[trigger] c.mask() != 0) == ((self.bits & c.mask()
                    != 0) && !(other.bits & c.mask() != 0)) by {
                lemma_bits(self.bits, other.bits, c.mask());
            }
            lemma_bits(self.bits, other.bits, 1);
        }
        self.bits = self.bits & !other.bits;
    }

    /// Set the flags of `other` if `value` is true, clear them otherwise.
    pub fn set(&mut self, other: Flags, value: bool)
        ensures
            old(self).wf() && other.wf() ==> final(self).wf(),
            forall|c: Channel| #[trigger]
                final(self).has(c) == if other.has(c) {
                    value
                } else {
                    old(self).has(c)
                },
    {
        if value {
            self.insert(other);
        } else {
            self.remove(other);
        }
    }
}

} // verus!
