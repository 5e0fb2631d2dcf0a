//! Errors of the library.
use vstd::prelude::*;

verus! {

/// What a call of the library can fail with.
#[derive(Debug, PartialEq)]
pub enum OpenAIError {
    /// A builder was finished without a value for the named field.
    MissingRequiredField(String),
    /// A document did not have the shape of the type it was read as; the text
    /// names that type or member.
    SchemaMismatch(String),
    /// A local precondition of a call does not hold; nothing was sent.
    InvalidArgument(String),
    /// The transport failed; its message is passed through unchanged.
    Transport(String),
}

/// A schema mismatch naming `what`.
pub fn mismatch(what: &str) -> (r: OpenAIError)
    ensures
        r is SchemaMismatch,
        r->SchemaMismatch_0@ == what@,
{
    OpenAIError::SchemaMismatch(what.to_owned())
}

} // verus!
