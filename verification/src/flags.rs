//! Flag words handed to the foreign engine.
//!
//! The engine's C interface takes small bit masks: one selecting the mode an
//! interpreter instance is created with, one describing property attributes,
//! and one holding regular-expression options.  Each mask is mirrored here as
//! a small struct over the raw bits, with the documented bit values pinned
//! down in the constructors.

use vstd::prelude::*;

verus! {

/// Mode flags selecting how an interpreter instance evaluates code.
#[derive(Clone, Copy, Debug, PartialEq, Eq, Structural)]
pub struct StateFlags {
    pub bits: i32,
}

impl StateFlags {
    /// No flag set: the engine's default, non-strict mode.
    pub fn empty() -> (r: StateFlags)
        ensures
            r.bits == 0,
    {
        StateFlags { bits: 0 }
    }

    /// Compile and run code using strict evaluation semantics.
    pub fn strict() -> (r: StateFlags)
        ensures
            r.bits == 1,
    {
        StateFlags { bits: 1 }
    }

    /// Combine two flag words bit for bit.
    pub fn union(self, other: StateFlags) -> (r: StateFlags)
        ensures
            r.bits == (self.bits | other.bits),
    {
        StateFlags { bits: self.bits | other.bits }
    }
}

/// Attributes attached to a property when it is defined.
#[derive(Clone, Copy, Debug, PartialEq, Eq, Structural)]
pub struct PropertyAttributes {
    pub bits: i32,
}

impl PropertyAttributes {
    /// No attribute set: the property is writable, enumerable, configurable.
    pub fn empty() -> (r: PropertyAttributes)
        ensures
            r.bits == 0,
    {
        PropertyAttributes { bits: 0 }
    }

    /// The property cannot be assigned a new value.
    pub fn read_only() -> (r: PropertyAttributes)
        ensures
            r.bits == 1,
    {
        PropertyAttributes { bits: 1 }
    }

    /// The property does not show up in enumeration.
    pub fn dont_enum() -> (r: PropertyAttributes)
        ensures
            r.bits == 2,
    {
        PropertyAttributes { bits: 2 }
    }

    /// The property cannot be reconfigured or deleted.
    pub fn dont_conf() -> (r: PropertyAttributes)
        ensures
            r.bits == 4,
    {
        PropertyAttributes { bits: 4 }
    }

    /// Combine two attribute words bit for bit.
    pub fn union(self, other: PropertyAttributes) -> (r: PropertyAttributes)
        ensures
            r.bits == (self.bits | other.bits),
    {
        PropertyAttributes { bits: self.bits | other.bits }
    }
}

/// The attribute word protecting the hidden closure slot: read-only,
/// non-enumerable and non-configurable, so script code can neither see,
/// overwrite, nor delete the slot.
pub open spec fn hidden_slot_bits() -> i32 {
    7
}

/// Build the attribute word for the hidden closure slot out of the three
/// named attributes.
pub fn hidden_slot_attrs() -> (r: PropertyAttributes)
    ensures
        r.bits == hidden_slot_bits(),
{
    let r = PropertyAttributes::read_only().union(PropertyAttributes::dont_enum()).union(
        PropertyAttributes::dont_conf(),
    );
    assert(((1i32 | 2i32) | 4i32) == 7i32) by (bit_vector);
    r
}

/// Option flags for a regular-expression value.
#[derive(Clone, Copy, Debug, PartialEq, Eq, Structural)]
pub struct RegExpFlags {
    pub bits: i32,
}

impl RegExpFlags {
    /// No option set.
    pub fn empty() -> (r: RegExpFlags)
        ensures
            r.bits == 0,
    {
        RegExpFlags { bits: 0 }
    }

    /// Global match: find all matches rather than stopping after the first.
    pub fn global() -> (r: RegExpFlags)
        ensures
            r.bits == 1,
    {
        RegExpFlags { bits: 1 }
    }

    /// Ignore case while matching.
    pub fn ignore_case() -> (r: RegExpFlags)
        ensures
            r.bits == 2,
    {
        RegExpFlags { bits: 2 }
    }

    /// Multiline: `^` and `$` match at line boundaries.
    pub fn multiline() -> (r: RegExpFlags)
        ensures
            r.bits == 4,
    {
        RegExpFlags { bits: 4 }
    }

    /// Combine two option words bit for bit.
    pub fn union(self, other: RegExpFlags) -> (r: RegExpFlags)
        ensures
            r.bits == (self.bits | other.bits),
    {
        RegExpFlags { bits: self.bits | other.bits }
    }
}

} // verus!
