//! The errors of the three stages.

use vstd::prelude::*;
use vstd::string::*;
use crate::types::primitive_value::PrimitiveValue;

verus! {

/// The source text holds something that is no token.
#[derive(Debug, PartialEq, Eq, Clone, Copy)]
pub struct TokenError;

/// Why a token sequence is no program.
#[derive(Debug, PartialEq, Eq, Clone, Copy, Structural)]
pub enum ParseError {
    /// A token that can start no statement or expression.
    UnexpectedToken,
    /// A block was expected and the next token is not `{`.
    MissingBrace,
    /// `define` or `run` is not followed by a name.
    MissingName,
    /// The name after `define` is not followed by `to be`.
    MissingToBe,
    /// `else` is followed neither by `if` nor by `{`.
    MissingIf,
    /// `throw` is not followed by a string.
    MissingMessage,
    /// A prefix operator other than a minus before a number.
    UnsupportedPrefix,
    /// The tokens end inside a construct.
    UnexpectedEnd,
}

/// An operator is not defined on the two values rendered here.
#[derive(Debug, PartialEq, Eq)]
pub struct NotImplemented {
    pub a: String,
    pub b: String,
}

impl View for NotImplemented {
    type V = (Seq<char>, Seq<char>);

    open spec fn view(&self) -> (Seq<char>, Seq<char>) {
        (self.a@, self.b@)
    }
}

impl NotImplemented {
    pub fn from(a: &PrimitiveValue, b: &PrimitiveValue) -> (error: NotImplemented)
        ensures
            error@ == a@.undefined_with(b@),
    {
        NotImplemented { a: a.to_string(), b: b.to_string() }
    }
}

impl Clone for NotImplemented {
    fn clone(&self) -> (copy: NotImplemented)
        ensures
            copy@ == self@,
    {
        NotImplemented { a: self.a.clone(), b: self.b.clone() }
    }
}

/// Evaluation failed; `message` says why.
#[derive(Debug, PartialEq, Eq)]
pub struct RuntimeError {
    pub message: String,
}

impl View for RuntimeError {
    type V = Seq<char>;

    open spec fn view(&self) -> Seq<char> {
        self.message@
    }
}

/// The message of the runtime error that an undefined operator becomes.
pub open spec fn not_implemented_message(error: (Seq<char>, Seq<char>)) -> Seq<char> {
    "Operator not implemented for "@ + error.0 + " and "@ + error.1 + "."@
}

impl vstd::std_specs::convert::FromSpecImpl<NotImplemented> for RuntimeError {
    /// The conversion is specified by the `ensures` of `from`, over views.
    open spec fn obeys_from_spec() -> bool {
        false
    }

    open spec fn from_spec(a: NotImplemented) -> RuntimeError {
        arbitrary()
    }
}

impl From<NotImplemented> for RuntimeError {
    fn from(a: NotImplemented) -> (error: RuntimeError)
        ensures
            error@ == not_implemented_message(a@),
    {
        let mut message = String::from_str("Operator not implemented for ");
        message.append(a.a.as_str());
        message.append(" and ");
        message.append(a.b.as_str());
        message.append(".");
        RuntimeError { message }
    }
}

impl RuntimeError {
    /// The line that reports the error to the user.
    pub fn report(&self) -> (line: String)
        ensures
            line@ == "Runtime Error! "@ + self@,
    {
        let mut line = String::from_str("Runtime Error! ");
        line.append(self.message.as_str());
        line
    }
}

} // verus!
