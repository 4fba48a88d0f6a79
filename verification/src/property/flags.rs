//! The flags of a property record.

use vstd::prelude::*;
use vstd::std_specs::iter::IteratorSpec;

verus! {

pub const ANIMATABLE: u32 = 0x02;

pub const ANIMATED: u32 = 0x04;

pub const USER_DEFINED: u32 = 0x10;

pub const HIDDEN: u32 = 0x20;

pub const LOCKED_MEMBER_SHIFT: u32 = 7;

pub const LOCKED_MEMBER_MASK: u32 = 0x780;

/// The bits that stand for a flag or for the count of locked members.
pub const FLAG_BITS: u32 = 0x7B6;

/// Flags of property node.
///
/// A set over animatable, animated, user defined and hidden, and a count of
/// locked members from 0 to 9. The setters keep animated flags animatable.
#[derive(Debug, Clone, Copy, PartialEq, Eq, Structural)]
pub struct PropertyFlags(pub u32);

/// The flags as a mathematical value.
pub ghost struct FlagSet {
    pub animatable: bool,
    pub animated: bool,
    pub user_defined: bool,
    pub hidden: bool,
    pub locked_member: int,
}

impl View for PropertyFlags {
    type V = FlagSet;

    open spec fn view(&self) -> FlagSet {
        FlagSet {
            animatable: self.0 & ANIMATABLE != 0,
            animated: self.0 & ANIMATED != 0,
            user_defined: self.0 & USER_DEFINED != 0,
            hidden: self.0 & HIDDEN != 0,
            locked_member: ((self.0 & LOCKED_MEMBER_MASK) >> LOCKED_MEMBER_SHIFT) as int,
        }
    }
}

/// What the character at `at` and those after it make of `flags`.
///
/// `U` sets user defined, `A` animatable, `A+` animated, `H` hidden, and `L`
/// with a digit after it sets the count of locked members. Any other
/// character changes nothing.
pub open spec fn parsed_from(text: Seq<char>, at: int, flags: FlagSet) -> FlagSet
    decreases text.len() - at,
{
    if at < 0 || at >= text.len() {
        flags
    } else if text[at] == 'U' {
        parsed_from(text, at + 1, FlagSet { user_defined: true, ..flags })
    } else if text[at] == 'A' {
        if at + 1 < text.len() && text[at + 1] == '+' {
            parsed_from(text, at + 2, FlagSet { animatable: true, animated: true, ..flags })
        } else {
            parsed_from(text, at + 1, FlagSet { animatable: true, ..flags })
        }
    } else if text[at] == 'H' {
        parsed_from(text, at + 1, FlagSet { hidden: true, ..flags })
    } else if text[at] == 'L' {
        if at + 1 < text.len() && '0' <= text[at + 1] <= '9' {
            parsed_from(
                text,
                at + 2,
                FlagSet { locked_member: text[at + 1] as int - '0' as int, ..flags },
            )
        } else {
            parsed_from(text, at + 1, flags)
        }
    } else {
        parsed_from(text, at + 1, flags)
    }
}

/// The empty set of flags.
pub open spec fn no_flags() -> FlagSet {
    FlagSet {
        animatable: false,
        animated: false,
        user_defined: false,
        hidden: false,
        locked_member: 0,
    }
}

/// Flags that show the same set and agree in the bits that stand for no
/// flag are the same value.
pub proof fn same_flags_same_value(a: PropertyFlags, b: PropertyFlags)
    requires
        a@ == b@,
        a.other_bits() == b.other_bits(),
    ensures
        a == b,
{
    let x = a.0;
    let y = b.0;
    assert(a@.locked_member == b@.locked_member);
    assert((x & 0x780) >> 7 == (y & 0x780) >> 7);
    assert(x == y) by (bit_vector)
        requires
            (x & 0x02 != 0) == (y & 0x02 != 0),
            (x & 0x04 != 0) == (y & 0x04 != 0),
            (x & 0x10 != 0) == (y & 0x10 != 0),
            (x & 0x20 != 0) == (y & 0x20 != 0),
            (x & 0x780) >> 7 == (y & 0x780) >> 7,
            x & !0x7B6u32 == y & !0x7B6u32,
    ;
}

impl PropertyFlags {
    /// The bits that stand for no flag. The functions here leave them as
    /// they are, and in flags made by `none` or `from_string` they are zero.
    pub open spec fn other_bits(&self) -> u32 {
        self.0 & !FLAG_BITS
    }

    /// Animated flags are animatable, and at most 9 members are locked.
    pub open spec fn wf(&self) -> bool {
        &&& self@.animated ==> self@.animatable
        &&& 0 <= self@.locked_member <= 9
    }

    pub fn none() -> (r: Self)
        ensures
            r.0 == 0,
            r@ == no_flags(),
            r.other_bits() == 0,
            r.wf(),
    {
        assert(0u32 & 0x02 == 0 && 0u32 & 0x04 == 0 && 0u32 & 0x10 == 0 && 0u32 & 0x20 == 0 && (0u32
            & 0x780) >> 7 == 0 && 0u32 & !0x7B6u32 == 0) by (bit_vector);
        PropertyFlags(0_u32)
    }

    /// Sets or clears animatable. Flags that are no longer animatable are no
    /// longer animated either.
    pub fn set_animatable(self, value: bool) -> (r: Self)
        ensures
            r.0 == (if value {
                self.0 | ANIMATABLE
            } else {
                self.0 & !(ANIMATABLE | ANIMATED)
            }),
            r@ == (FlagSet { animatable: value, animated: value && self@.animated, ..self@ }),
            r.other_bits() == self.other_bits(),
            self.wf() ==> r.wf(),
    {
        let bits = self.0;
        assert((bits | 0x02) & !0x7B6u32 == bits & !0x7B6u32 && (bits & !(0x02u32 | 0x04u32)) & !0x7B6u32 == bits & !0x7B6u32)
            by (bit_vector);
        if value {
            assert((bits | 0x02) & 0x02 != 0 && (bits | 0x02) & 0x04 == bits & 0x04 && (bits | 0x02)
                & 0x10 == bits & 0x10 && (bits | 0x02) & 0x20 == bits & 0x20 && ((bits | 0x02)
                & 0x780) >> 7 == (bits & 0x780) >> 7) by (bit_vector);
            PropertyFlags(bits | ANIMATABLE)
        } else {
            assert((bits & !(0x02u32 | 0x04u32)) & 0x02 == 0 && (bits & !(0x02u32 | 0x04u32)) & 0x04
                == 0 && (bits & !(0x02u32 | 0x04u32)) & 0x10 == bits & 0x10 && (bits & !(0x02u32
                | 0x04u32)) & 0x20 == bits & 0x20 && ((bits & !(0x02u32 | 0x04u32)) & 0x780) >> 7
                == (bits & 0x780) >> 7) by (bit_vector);
            PropertyFlags(bits & !(ANIMATABLE | ANIMATED))
        }
    }

    /// Sets or clears animated. Animated flags become animatable.
    pub fn set_animated(self, value: bool) -> (r: Self)
        ensures
            r.0 == (if value {
                self.0 | ANIMATABLE | ANIMATED
            } else {
                self.0 & !ANIMATED
            }),
            r@ == (FlagSet { animatable: value || self@.animatable, animated: value, ..self@ }),
            r.other_bits() == self.other_bits(),
            self.wf() ==> r.wf(),
    {
        let bits = self.0;
        assert((bits | 0x02 | 0x04) & !0x7B6u32 == bits & !0x7B6u32 && (bits & !0x04u32) & !0x7B6u32 == bits & !0x7B6u32)
            by (bit_vector);
        if value {
            assert((bits | 0x02 | 0x04) & 0x02 != 0 && (bits | 0x02 | 0x04) & 0x04 != 0 && (bits
                | 0x02 | 0x04) & 0x10 == bits & 0x10 && (bits | 0x02 | 0x04) & 0x20 == bits & 0x20
                && ((bits | 0x02 | 0x04) & 0x780) >> 7 == (bits & 0x780) >> 7) by (bit_vector);
            PropertyFlags(bits | ANIMATABLE | ANIMATED)
        } else {
            assert((bits & !0x04u32) & 0x02 == bits & 0x02 && (bits & !0x04u32) & 0x04 == 0 && (bits
                & !0x04u32) & 0x10 == bits & 0x10 && (bits & !0x04u32) & 0x20 == bits & 0x20 && ((
            bits & !0x04u32) & 0x780) >> 7 == (bits & 0x780) >> 7) by (bit_vector);
            PropertyFlags(bits & !ANIMATED)
        }
    }

    pub fn set_user_defined(self, value: bool) -> (r: Self)
        ensures
            r.0 == (if value {
                self.0 | USER_DEFINED
            } else {
                self.0 & !USER_DEFINED
            }),
            r@ == (FlagSet { user_defined: value, ..self@ }),
            r.other_bits() == self.other_bits(),
            self.wf() ==> r.wf(),
    {
        let bits = self.0;
        assert((bits | 0x10) & !0x7B6u32 == bits & !0x7B6u32 && (bits & !0x10u32) & !0x7B6u32 == bits & !0x7B6u32)
            by (bit_vector);
        if value {
            assert((bits | 0x10) & 0x02 == bits & 0x02 && (bits | 0x10) & 0x04 == bits & 0x04 && (
            bits | 0x10) & 0x10 != 0 && (bits | 0x10) & 0x20 == bits & 0x20 && ((bits | 0x10)
                & 0x780) >> 7 == (bits & 0x780) >> 7) by (bit_vector);
            PropertyFlags(bits | USER_DEFINED)
        } else {
            assert((bits & !0x10u32) & 0x02 == bits & 0x02 && (bits & !0x10u32) & 0x04 == bits
                & 0x04 && (bits & !0x10u32) & 0x10 == 0 && (bits & !0x10u32) & 0x20 == bits & 0x20
                && ((bits & !0x10u32) & 0x780) >> 7 == (bits & 0x780) >> 7) by (bit_vector);
            PropertyFlags(bits & !USER_DEFINED)
        }
    }

    pub fn set_hidden(self, value: bool) -> (r: Self)
        ensures
            r.0 == (if value {
                self.0 | HIDDEN
            } else {
                self.0 & !HIDDEN
            }),
            r@ == (FlagSet { hidden: value, ..self@ }),
            r.other_bits() == self.other_bits(),
            self.wf() ==> r.wf(),
    {
        let bits = self.0;
        assert((bits | 0x20) & !0x7B6u32 == bits & !0x7B6u32 && (bits & !0x20u32) & !0x7B6u32 == bits & !0x7B6u32)
            by (bit_vector);
        if value {
            assert((bits | 0x20) & 0x02 == bits & 0x02 && (bits | 0x20) & 0x04 == bits & 0x04 && (
            bits | 0x20) & 0x10 == bits & 0x10 && (bits | 0x20) & 0x20 != 0 && ((bits | 0x20)
                & 0x780) >> 7 == (bits & 0x780) >> 7) by (bit_vector);
            PropertyFlags(bits | HIDDEN)
        } else {
            assert((bits & !0x20u32) & 0x02 == bits & 0x02 && (bits & !0x20u32) & 0x04 == bits
                & 0x04 && (bits & !0x20u32) & 0x10 == bits & 0x10 && (bits & !0x20u32) & 0x20 == 0
                && ((bits & !0x20u32) & 0x780) >> 7 == (bits & 0x780) >> 7) by (bit_vector);
            PropertyFlags(bits & !HIDDEN)
        }
    }

    /// Sets the count of locked members, which is at most 9.
    pub fn set_locked_member(self, members: u8) -> (r: Self)
        requires
            members <= 9,
        ensures
            r.0 == (self.0 & !LOCKED_MEMBER_MASK) | ((members as u32) << LOCKED_MEMBER_SHIFT),
            r@ == (FlagSet { locked_member: members as int, ..self@ }),
            r.other_bits() == self.other_bits(),
            self.wf() ==> r.wf(),
    {
        let bits = self.0;
        let count = members as u32;
        assert(count <= 9 ==> ((bits & !0x780u32) | (count << 7)) & !0x7B6u32 == bits & !0x7B6u32)
            by (bit_vector);
        assert(count <= 9 ==> ((bits & !0x780u32) | (count << 7)) & 0x02 == bits & 0x02 && ((bits
            & !0x780u32) | (count << 7)) & 0x04 == bits & 0x04 && ((bits & !0x780u32) | (count
            << 7)) & 0x10 == bits & 0x10 && ((bits & !0x780u32) | (count << 7)) & 0x20 == bits
            & 0x20 && (((bits & !0x780u32) | (count << 7)) & 0x780) >> 7 == count) by (bit_vector);
        PropertyFlags((bits & !LOCKED_MEMBER_MASK) | (count << LOCKED_MEMBER_SHIFT))
    }

    /// Reads flags from their text, as `parsed_from` says. The bits that
    /// stand for no flag are zero, so that the text decides the whole value.
    pub fn from_string(flags_str: &str) -> (r: Self)
        ensures
            r@ == parsed_from(flags_str@, 0, no_flags()),
            r.other_bits() == 0,
            r.wf(),
    {
        let mut ret = Self::none();
        let mut chars = flags_str.chars();
        let mut c = chars.next();
        let ghost text = flags_str@;
        let ghost mut at: int = 0;
        loop
            invariant
                0 <= at <= text.len(),
                text == flags_str@,
                ret.wf(),
                ret.other_bits() == 0,
                chars.remaining() == text.skip(if at < text.len() {
                    at + 1
                } else {
                    at
                }),
                c == (if at < text.len() {
                    Some(text[at])
                } else {
                    None
                }),
                parsed_from(text, at, ret@) == parsed_from(text, 0, no_flags()),
            ensures
                at == text.len(),
            decreases text.len() - at,
        {
            match c {
                Some('U') => {
                    ret = ret.set_user_defined(true);
                    c = chars.next();
                    proof {
                        at = at + 1;
                    }
                },
                Some('A') => {
                    ret = ret.set_animatable(true);
                    c = chars.next();
                    proof {
                        at = at + 1;
                    }
                    if c == Some('+') {
                        ret = ret.set_animated(true);
                        c = chars.next();
                        proof {
                            at = at + 1;
                        }
                    }
                },
                Some('H') => {
                    ret = ret.set_hidden(true);
                    c = chars.next();
                    proof {
                        at = at + 1;
                    }
                },
                Some('L') => {
                    c = chars.next();
                    proof {
                        at = at + 1;
                    }
                    match c {
                        Some(code) => {
                            if '0' <= code && code <= '9' {
                                ret = ret.set_locked_member((code as u32 - '0' as u32) as u8);
                                c = chars.next();
                                proof {
                                    at = at + 1;
                                }
                            }
                        },
                        None => {},
                    }
                },
                Some(_) => {
                    c = chars.next();
                    proof {
                        at = at + 1;
                    }
                },
                None => {
                    break ;
                },
            }
        }
        ret
    }
}

impl Default for PropertyFlags {
    /// No flags.
    fn default() -> (r: Self)
        ensures
            r.0 == 0,
    {
        PropertyFlags(0_u32)
    }
}

} // verus!
