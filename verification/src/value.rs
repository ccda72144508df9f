//! Tagged values of the operand stack.
//!
//! Every slot of the engine's operand stack holds a tagged value: one of the
//! primitives, or an object of some class.  Beyond its tag and — for the
//! primitives and the primitive wrapper objects — its payload, a value is
//! opaque to the binding: object identity lives on the foreign heap.
//! Numbers are carried as their 64-bit IEEE-754 bit patterns, so that they
//! round-trip bit for bit without this crate doing any floating-point
//! arithmetic.

use vstd::prelude::*;
use crate::errors::rendered;
use crate::errors::render_error;
use crate::errors::ErrorKind;
use vstd::string::StringExecFns;

verus! {

/// The bit pattern of the canonical quiet NaN, the result of a coercion
/// that does not yield a number.
pub const NAN_BITS: u64 = 0x7ff8_0000_0000_0000;

/// The bit pattern of the number one.
pub const ONE_BITS: u64 = 0x3ff0_0000_0000_0000;

/// Whether a bit pattern encodes a NaN: all exponent bits set and a
/// non-zero mantissa.
pub open spec fn is_nan_bits(b: u64) -> bool {
    ((b >> 52) & 0x7ff) == 0x7ff && (b & 0xf_ffff_ffff_ffff) != 0
}

/// Whether a bit pattern encodes a zero of either sign.
pub open spec fn is_zero_bits(b: u64) -> bool {
    (b & 0x7fff_ffff_ffff_ffff) == 0
}

/// One tagged value, as held in a stack slot.
#[derive(Debug)]
pub enum Value {
    /// The undefined primitive.
    Undefined,
    /// The null primitive.
    Null,
    /// A boolean primitive.
    Boolean(bool),
    /// A number primitive, by its IEEE-754 bit pattern.
    Number(u64),
    /// A string primitive.
    Str(String),
    /// A plain object; its properties live on the foreign heap.
    Object,
    /// An array object.
    Array,
    /// A regular-expression object.
    RegExp,
    /// A function compiled from script source.
    Script,
    /// A native function bridged from a host closure, by the key of its
    /// hidden slot.
    Function(u64),
    /// A boolean wrapper object.
    BooleanObj(bool),
    /// A number wrapper object, by the wrapped bit pattern.
    NumberObj(u64),
    /// A string wrapper object.
    StrObj(String),
    /// An error object of one of the closed set of kinds.
    Error(ErrorKind, String),
}

/// The mathematical shape of a [`Value`]: the same tags, with text as
/// character sequences.
pub ghost enum ValueSpec {
    /// The undefined primitive.
    Undefined,
    /// The null primitive.
    Null,
    /// A boolean primitive.
    Boolean(bool),
    /// A number primitive, by its IEEE-754 bit pattern.
    Number(u64),
    /// A string primitive.
    Str(Seq<char>),
    /// A plain object.
    Object,
    /// An array object.
    Array,
    /// A regular-expression object.
    RegExp,
    /// A function compiled from script source.
    Script,
    /// A native function bridged from a host closure.
    Function(u64),
    /// A boolean wrapper object.
    BooleanObj(bool),
    /// A number wrapper object.
    NumberObj(u64),
    /// A string wrapper object.
    StrObj(Seq<char>),
    /// An error object.
    Error(ErrorKind, Seq<char>),
}

impl View for Value {
    type V = ValueSpec;

    open spec fn view(&self) -> ValueSpec {
        match self {
            Value::Undefined => ValueSpec::Undefined,
            Value::Null => ValueSpec::Null,
            Value::Boolean(b) => ValueSpec::Boolean(*b),
            Value::Number(n) => ValueSpec::Number(*n),
            Value::Str(s) => ValueSpec::Str(s@),
            Value::Object => ValueSpec::Object,
            Value::Array => ValueSpec::Array,
            Value::RegExp => ValueSpec::RegExp,
            Value::Script => ValueSpec::Script,
            Value::Function(k) => ValueSpec::Function(*k),
            Value::BooleanObj(b) => ValueSpec::BooleanObj(*b),
            Value::NumberObj(n) => ValueSpec::NumberObj(*n),
            Value::StrObj(s) => ValueSpec::StrObj(s@),
            Value::Error(k, m) => ValueSpec::Error(*k, m@),
        }
    }
}

impl ValueSpec {
    /// Whether the value is the undefined primitive.
    pub open spec fn is_undefined(self) -> bool {
        self is Undefined
    }

    /// Whether the value is anything but the undefined primitive.
    pub open spec fn is_defined(self) -> bool {
        !(self is Undefined)
    }

    /// Whether the value is the null primitive.
    pub open spec fn is_null(self) -> bool {
        self is Null
    }

    /// Whether the value is a boolean primitive.
    pub open spec fn is_boolean(self) -> bool {
        self is Boolean
    }

    /// Whether the value is a number primitive.
    pub open spec fn is_number(self) -> bool {
        self is Number
    }

    /// Whether the value is a string primitive.
    pub open spec fn is_string(self) -> bool {
        self is Str
    }

    /// Whether the value is a primitive: undefined, null, boolean, number
    /// or string.
    pub open spec fn is_primitive(self) -> bool {
        self is Undefined || self is Null || self is Boolean || self is Number || self is Str
    }

    /// Whether the value is an object of any class.
    pub open spec fn is_object(self) -> bool {
        !self.is_primitive()
    }

    /// Whether the value can be called: a compiled script function or a
    /// bridged native function.
    pub open spec fn is_callable(self) -> bool {
        self is Script || self is Function
    }
}

/// The boolean coercion of a value: false for undefined, null, false, a
/// zero or NaN number and the empty string; true for everything else,
/// including every object.
pub open spec fn to_boolean(v: ValueSpec) -> bool {
    match v {
        ValueSpec::Undefined => false,
        ValueSpec::Null => false,
        ValueSpec::Boolean(b) => b,
        ValueSpec::Number(b) => !(is_zero_bits(b) || is_nan_bits(b)),
        ValueSpec::Str(s) => s.len() != 0,
        _ => true,
    }
}

/// Whether a character is one of the ASCII whitespace characters the
/// number grammar strips from either end.
pub open spec fn is_number_space(c: char) -> bool {
    let u = c as u32;
    u == 0x20 || u == 0x09 || u == 0x0a || u == 0x0d || u == 0x0b || u == 0x0c
}

/// Whether a character can appear anywhere in a numeric literal: digits,
/// hex digits, a base prefix letter, sign, point, exponent letter, or a
/// letter of the word "Infinity".
pub open spec fn is_number_char(c: char) -> bool {
    let u = c as u32;
    (0x30 <= u && u <= 0x39) || (0x41 <= u && u <= 0x46) || (0x61 <= u && u <= 0x66) || u == 0x2b
        || u == 0x2d || u == 0x2e || u == 0x58 || u == 0x78 || u == 0x4f || u == 0x6f || u == 0x49
        || u == 0x69 || u == 0x6e || u == 0x74 || u == 0x79
}

/// Whether a character is outside the ASCII range.
pub open spec fn is_non_ascii(c: char) -> bool {
    (c as u32) > 0x7f
}

/// The number coercion of a string, as far as the binding can decide it
/// without the engine's number parser: a string of nothing but whitespace
/// is zero; a string holding, between its outermost non-space characters, a
/// character no numeric literal can contain is NaN; any other string — one
/// the engine's parser may accept, or one holding characters outside ASCII —
/// is left to the engine.
pub open spec fn str_to_number(s: Seq<char>) -> Option<u64> {
    if exists|i: int| 0 <= i < s.len() && is_non_ascii(#[trigger] s[i]) {
        None
    } else if forall|i: int| 0 <= i < s.len() ==> is_number_space(#[trigger] s[i]) {
        Some(0)
    } else if exists|a: int, p: int, b: int|
        0 <= a <= p <= b < s.len() && !is_number_space(#[trigger] s[a]) && !is_number_space(
            #[trigger] s[b],
        ) && !is_number_char(#[trigger] s[p]) {
        Some(NAN_BITS)
    } else {
        None
    }
}

/// The number coercion of a value, where the value's tag and payload alone
/// decide it: undefined is NaN, null and false are zero, true is one, a
/// number is itself, and a boolean or number wrapper coerces like the
/// primitive it wraps.  A string coerces per [`str_to_number`]; for every
/// other object the coercion runs through the evaluator and is `None` here.
pub open spec fn to_number_bits(v: ValueSpec) -> Option<u64> {
    match v {
        ValueSpec::Undefined => Some(NAN_BITS),
        ValueSpec::Null => Some(0u64),
        ValueSpec::Boolean(b) => Some(if b { ONE_BITS } else { 0u64 }),
        ValueSpec::Number(b) => Some(b),
        ValueSpec::Str(s) => str_to_number(s),
        ValueSpec::BooleanObj(b) => Some(if b { ONE_BITS } else { 0u64 }),
        ValueSpec::NumberObj(b) => Some(b),
        ValueSpec::StrObj(s) => str_to_number(s),
        _ => None,
    }
}

/// The string conversion of a value, for the value shapes it is decided by
/// tag and payload alone: the fixed words for undefined, null and the
/// booleans, a string itself, an error's rendering, and the payload of a
/// boolean or string wrapper.  Numbers and the remaining object classes
/// render through the evaluator and are `None` here.
pub open spec fn try_render(v: ValueSpec) -> Option<Seq<char>> {
    match v {
        ValueSpec::Undefined => Some("undefined"@),
        ValueSpec::Null => Some("null"@),
        ValueSpec::Boolean(b) => Some(if b { "true"@ } else { "false"@ }),
        ValueSpec::Str(s) => Some(s),
        ValueSpec::BooleanObj(b) => Some(if b { "true"@ } else { "false"@ }),
        ValueSpec::StrObj(s) => Some(s),
        ValueSpec::Error(k, m) => Some(rendered(k, m)),
        _ => None,
    }
}

impl Value {
    /// A deep copy of the value, equal to the original.
    pub fn dup(&self) -> (r: Value)
        ensures
            r@ == self@,
    {
        match self {
            Value::Undefined => Value::Undefined,
            Value::Null => Value::Null,
            Value::Boolean(b) => Value::Boolean(*b),
            Value::Number(n) => Value::Number(*n),
            Value::Str(s) => Value::Str(s.clone()),
            Value::Object => Value::Object,
            Value::Array => Value::Array,
            Value::RegExp => Value::RegExp,
            Value::Script => Value::Script,
            Value::Function(k) => Value::Function(*k),
            Value::BooleanObj(b) => Value::BooleanObj(*b),
            Value::NumberObj(n) => Value::NumberObj(*n),
            Value::StrObj(s) => Value::StrObj(s.clone()),
            Value::Error(k, m) => Value::Error(*k, m.clone()),
        }
    }

    /// The boolean coercion of the value.
    pub fn truthiness(&self) -> (r: bool)
        ensures
            r == to_boolean(self@),
    {
        match self {
            Value::Undefined => false,
            Value::Null => false,
            Value::Boolean(b) => *b,
            Value::Number(b) => {
                let zero = (*b & 0x7fff_ffff_ffff_ffff) == 0;
                let nan = ((*b >> 52) & 0x7ff) == 0x7ff && (*b & 0xf_ffff_ffff_ffff) != 0;
                !(zero || nan)
            },
            Value::Str(s) => !s.as_str().is_empty(),
            _ => true,
        }
    }

    /// The number coercion of the value, where tag and payload decide it.
    pub fn number_bits(&self) -> (r: Option<u64>)
        ensures
            r == to_number_bits(self@),
    {
        match self {
            Value::Undefined => Some(NAN_BITS),
            Value::Null => Some(0u64),
            Value::Boolean(b) => Some(if *b { ONE_BITS } else { 0u64 }),
            Value::Number(b) => Some(*b),
            Value::Str(s) => string_to_number(s.as_str()),
            Value::BooleanObj(b) => Some(if *b { ONE_BITS } else { 0u64 }),
            Value::NumberObj(b) => Some(*b),
            Value::StrObj(s) => string_to_number(s.as_str()),
            _ => None,
        }
    }

    /// The string conversion of the value, where tag and payload decide it.
    pub fn render(&self) -> (r: Option<String>)
        ensures
            match r {
                Some(s) => try_render(self@) == Some(s@),
                None => try_render(self@) is None,
            },
    {
        match self {
            Value::Undefined => Some(String::from_str("undefined")),
            Value::Null => Some(String::from_str("null")),
            Value::Boolean(b) => Some(
                if *b {
                    String::from_str("true")
                } else {
                    String::from_str("false")
                },
            ),
            Value::Str(s) => Some(s.clone()),
            Value::BooleanObj(b) => Some(
                if *b {
                    String::from_str("true")
                } else {
                    String::from_str("false")
                },
            ),
            Value::StrObj(s) => Some(s.clone()),
            Value::Error(k, m) => Some(render_error(*k, m.as_str())),
            _ => None,
        }
    }
}

/// Compute [`str_to_number`] for a string: find the outermost non-space
/// characters, then look between them for a character no numeric literal
/// can contain.
pub fn string_to_number(s: &str) -> (r: Option<u64>)
    ensures
        r == str_to_number(s@),
{
    let n = s.unicode_len();
    let mut i: usize = 0;
    let mut stop: bool = false;
    while !stop && i < n
        invariant
            0 <= i <= n,
            n == s@.len(),
            stop ==> i < n,
            forall|k: int| 0 <= k < i ==> is_number_space(#[trigger] s@[k]),
            forall|k: int| 0 <= k < i ==> !is_non_ascii(#[trigger] s@[k]),
            stop ==> is_non_ascii(s@[i as int]) || !is_number_space(s@[i as int]),
        decreases n - i, if stop { 0int } else { 1int },
    {
        let c = s.get_char(i);
        if (c as u32) <= 0x7f && is_space_exec(c) {
            i = i + 1;
        } else {
            stop = true;
        }
    }
    if i == n {
        // every character is ASCII whitespace (or the string is empty)
        return Some(0u64);
    }
    let first = s.get_char(i);
    if (first as u32) > 0x7f {
        return None;
    }
    // s@[i] is ASCII and not a space: a trim bound exists.
    let mut j: usize = n;
    stop = false;
    while !stop && j > i + 1
        invariant
            i < j <= n,
            n == s@.len(),
            !is_number_space(s@[i as int]),
            !is_non_ascii(s@[i as int]),
            forall|k: int| j <= k < n ==> is_number_space(#[trigger] s@[k]),
            forall|k: int| j <= k < n ==> !is_non_ascii(#[trigger] s@[k]),
            stop ==> is_non_ascii(s@[j - 1]) || !is_number_space(s@[j - 1]),
        decreases j, if stop { 0int } else { 1int },
    {
        let c = s.get_char(j - 1);
        if (c as u32) <= 0x7f && is_space_exec(c) {
            j = j - 1;
        } else {
            stop = true;
        }
    }
    let last = s.get_char(j - 1);
    if (last as u32) > 0x7f {
        return None;
    }
    // Scan the trimmed region for non-ASCII or non-numeric characters.
    let mut p: usize = i;
    let mut bad: bool = false;
    let ghost mut bad_at: int = 0;
    while p < j
        invariant
            i <= p <= j <= n,
            n == s@.len(),
            i < j,
            !is_number_space(s@[i as int]),
            !is_number_space(s@[j - 1]),
            forall|k: int| 0 <= k < i ==> is_number_space(#[trigger] s@[k]),
            forall|k: int| j <= k < n ==> is_number_space(#[trigger] s@[k]),
            forall|k: int| 0 <= k < i ==> !is_non_ascii(#[trigger] s@[k]),
            forall|k: int| j <= k < n ==> !is_non_ascii(#[trigger] s@[k]),
            forall|k: int| i <= k < p ==> !is_non_ascii(#[trigger] s@[k]),
            bad ==> i <= bad_at < p && !is_number_char(s@[bad_at]),
            !bad ==> forall|k: int| i <= k < p ==> is_number_char(#[trigger] s@[k]),
        decreases j - p,
    {
        let c = s.get_char(p);
        if (c as u32) > 0x7f {
            return None;
        }
        if !bad && !is_number_char_exec(c) {
            bad = true;
            proof {
                bad_at = p as int;
            }
        }
        p = p + 1;
    }
    if bad {
        proof {
            assert(0 <= i as int <= bad_at <= j - 1 < s@.len() && !is_number_space(s@[i as int])
                && !is_number_space(s@[j - 1]) && !is_number_char(s@[bad_at]));
        }
        Some(NAN_BITS)
    } else {
        proof {
            assert forall|a: int, q: int, b: int|
                0 <= a <= q <= b < s@.len() && !is_number_space(s@[a]) && !is_number_space(s@[b])
                    && !is_number_char(s@[q]) implies false by {
                assert(i <= a);
                assert(b < j);
            }
        }
        None
    }
}

/// Whether a character is ASCII whitespace for the number grammar.
fn is_space_exec(c: char) -> (r: bool)
    ensures
        r == is_number_space(c),
{
    let u = c as u32;
    u == 0x20 || u == 0x09 || u == 0x0a || u == 0x0d || u == 0x0b || u == 0x0c
}

/// Whether a character can appear in a numeric literal.
fn is_number_char_exec(c: char) -> (r: bool)
    ensures
        r == is_number_char(c),
{
    let u = c as u32;
    (0x30 <= u && u <= 0x39) || (0x41 <= u && u <= 0x46) || (0x61 <= u && u <= 0x66) || u == 0x2b
        || u == 0x2d || u == 0x2e || u == 0x58 || u == 0x78 || u == 0x4f || u == 0x6f || u == 0x49
        || u == 0x69 || u == 0x6e || u == 0x74 || u == 0x79
}

} // verus!
