//! Error types of the library.

use vstd::prelude::*;

verus! {

/// Errors raised while encoding or parsing data.
#[derive(Debug, Clone)]
pub enum CodecError {
    /// Encoding failed in the named component.
    Encode { context: String, message: String },
    /// Parsing failed in the named component.
    Parse { context: String, message: String },
}

/// Errors raised by dataset conversion.
#[derive(Debug, Clone)]
pub enum RoboflowError {
    /// Input or configuration could not be understood by the named component.
    Parse { context: String, message: String },
    /// Output could not be produced by the named component.
    Encode { context: String, message: String },
    /// Any other failure.
    Other(String),
}

/// An encoding error of `context` with `message`.
pub open spec fn is_encode_error(e: CodecError, context: Seq<char>, message: Seq<char>) -> bool {
    e matches CodecError::Encode { context: c, message: m } && c@ == context && m@ == message
}

/// A parse error of `context` with `message`.
pub open spec fn is_parse_error(e: RoboflowError, context: Seq<char>, message: Seq<char>) -> bool {
    e matches RoboflowError::Parse { context: c, message: m } && c@ == context && m@ == message
}

impl RoboflowError {
    /// A parse error of `context` with `message`.
    pub fn parse(context: &str, message: &str) -> (r: Self)
        ensures
            is_parse_error(r, context@, message@),
    {
        RoboflowError::Parse {
            context: crate::text::owned(context),
            message: crate::text::owned(message),
        }
    }
}

} // verus!
