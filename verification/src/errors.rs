//! The error taxonomy of the binding layer.
//!
//! The foreign engine reports failure through a closed set of error kinds.
//! An error value is rendered to text the way the engine's own string
//! conversion renders it: the kind's name, then `": "` and the message when
//! the message is not empty.  Failures that escape every protected boundary
//! are not recoverable; they are represented by [`Fault`], which carries the
//! value that was thrown and marks the interpreter handle as spent.

use vstd::prelude::*;
use crate::value::try_render;
use crate::value::Value;
use vstd::string::StringExecFns;

verus! {

/// The closed set of error kinds the engine can construct or report.
#[derive(Clone, Copy, Debug, PartialEq, Eq, Structural)]
pub enum ErrorKind {
    /// A plain error.
    Generic,
    /// An evaluation error.
    Eval,
    /// A range error.
    Range,
    /// A reference error, e.g. an undefined variable was read.
    Reference,
    /// A syntax error from the compiler.
    Syntax,
    /// A type error.
    Type,
    /// An error in URI handling.
    Uri,
}

/// The name under which an error kind renders.
pub open spec fn error_name(kind: ErrorKind) -> Seq<char> {
    match kind {
        ErrorKind::Generic => "Error"@,
        ErrorKind::Eval => "EvalError"@,
        ErrorKind::Range => "RangeError"@,
        ErrorKind::Reference => "ReferenceError"@,
        ErrorKind::Syntax => "SyntaxError"@,
        ErrorKind::Type => "TypeError"@,
        ErrorKind::Uri => "URIError"@,
    }
}

/// How the engine's string conversion renders an error value: the kind's
/// name alone for an empty message, otherwise name, colon, space, message.
pub open spec fn rendered(kind: ErrorKind, message: Seq<char>) -> Seq<char> {
    if message.len() == 0 {
        error_name(kind)
    } else {
        error_name(kind) + ": "@ + message
    }
}

/// A rendered error is never the empty string.
pub proof fn lemma_rendered_nonempty(kind: ErrorKind, message: Seq<char>)
    ensures
        rendered(kind, message).len() > 0,
{
    reveal_strlit("Error");
    reveal_strlit("EvalError");
    reveal_strlit("RangeError");
    reveal_strlit("ReferenceError");
    reveal_strlit("SyntaxError");
    reveal_strlit("TypeError");
    reveal_strlit("URIError");
}

/// The name of an error kind, as text.
pub fn error_name_str(kind: ErrorKind) -> (r: &'static str)
    ensures
        r@ == error_name(kind),
{
    match kind {
        ErrorKind::Generic => "Error",
        ErrorKind::Eval => "EvalError",
        ErrorKind::Range => "RangeError",
        ErrorKind::Reference => "ReferenceError",
        ErrorKind::Syntax => "SyntaxError",
        ErrorKind::Type => "TypeError",
        ErrorKind::Uri => "URIError",
    }
}

/// Render an error value to text exactly as the engine's string conversion
/// would.
pub fn render_error(kind: ErrorKind, message: &str) -> (r: String)
    ensures
        r@ == rendered(kind, message@),
{
    let mut s = String::from_str(error_name_str(kind));
    if !message.is_empty() {
        s.append(": ");
        s.append(message);
    }
    s
}

/// An unrecoverable failure: a value was thrown and no protected boundary
/// was left to catch it.  Once the foreign call stack has unwound past every
/// protected frame it is not safe to resume, so the handle that produced a
/// fault refuses further work.
#[derive(Debug)]
pub struct Fault {
    /// The value that was thrown.
    pub value: Value,
}

impl Fault {
    /// The fault's text, for the value shapes whose rendering the engine's
    /// documentation pins down; `None` where rendering would have to call
    /// back into the evaluator.
    pub fn message(&self) -> (r: Option<String>)
        ensures
            match r {
                Some(s) => try_render(self.value@) == Some(s@),
                None => try_render(self.value@) is None,
            },
    {
        self.value.render()
    }
}

} // verus!
