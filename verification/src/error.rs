//! The two ways in which a dispatch can fail. Both are ordinary return values.

use std::fmt::{Debug, Display};
use vstd::prelude::*;
use vstd::string::*;

verus! {

/// Why a dispatch returned no value. `E` is the error type of the
/// deserialization source.
#[derive(Clone, Debug, PartialEq, Eq)]
pub enum SerdeDynError<E> {
    /// No adapter is registered under the identifier that was asked for.
    UuidNotFound,
    /// The adapter ran and its decode failed. The source's own error is kept as
    /// it came.
    DeserializerError(E),
}

/// `format!("{:?}", error)`: the text that the `Debug` impl of the source
/// error's type writes. What it holds is up to that impl, so nothing is
/// promised of it.
#[verifier::external_body]
fn debug_render<E: Debug>(error: &E) -> (text: String) {
    format!("{:?}", error)
}

impl<E> SerdeDynError<E> {
    /// What a dispatch returns for the outcome of an adapter: its value as it
    /// is, its error inside `DeserializerError`.
    pub open spec fn lift<V>(outcome: Result<V, E>) -> Result<V, SerdeDynError<E>> {
        match outcome {
            Ok(value) => Ok(value),
            Err(error) => Err(SerdeDynError::DeserializerError(error)),
        }
    }

    /// Turns the outcome of an adapter into the result of the dispatch.
    pub fn from_decode<V>(outcome: Result<V, E>) -> (result: Result<V, SerdeDynError<E>>)
        ensures
            result == Self::lift(outcome),
    {
        match outcome {
            Ok(value) => Ok(value),
            Err(error) => Err(SerdeDynError::DeserializerError(error)),
        }
    }

    /// The message for this error, where `inner` is the message of the source
    /// error that it holds (unused if it holds none).
    pub open spec fn display_text(self, inner: Seq<char>) -> Seq<char> {
        match self {
            SerdeDynError::UuidNotFound => "Uuid requested not found in TUSM."@,
            SerdeDynError::DeserializerError(_) => "Deserialization error: "@ + inner,
        }
    }

    /// The debug text for this error, where `inner` is the debug text of the
    /// source error that it holds (unused if it holds none).
    pub open spec fn debug_text(self, inner: Seq<char>) -> Seq<char> {
        match self {
            SerdeDynError::UuidNotFound => "UuidNotFound"@,
            SerdeDynError::DeserializerError(_) => "DeserializerError("@ + inner + ")"@,
        }
    }

    /// The message for this error, built around the message `inner` of the
    /// source error.
    pub fn display_with(&self, inner: &str) -> (text: String)
        ensures
            text@ == self.display_text(inner@),
    {
        match self {
            SerdeDynError::UuidNotFound => String::from_str("Uuid requested not found in TUSM."),
            SerdeDynError::DeserializerError(_) => String::from_str(
                "Deserialization error: ",
            ).concat(inner),
        }
    }

    /// The debug text for this error, built around the debug text `inner` of
    /// the source error.
    pub fn debug_with(&self, inner: &str) -> (text: String)
        ensures
            text@ == self.debug_text(inner@),
    {
        match self {
            SerdeDynError::UuidNotFound => String::from_str("UuidNotFound"),
            SerdeDynError::DeserializerError(_) => String::from_str("DeserializerError(").concat(
                inner,
            ).concat(")"),
        }
    }

    /// The message for this error: a fixed sentence for an unknown identifier,
    /// else a prefix followed by the source error's own message.
    pub fn display_string(&self) -> (text: String) where E: Display
        ensures
            match self {
                SerdeDynError::UuidNotFound => text@ == self.display_text(Seq::empty()),
                SerdeDynError::DeserializerError(error) => exists|inner: String|
                    to_string_from_display_ensures::<E>(error, inner) && text@
                        == self.display_text(inner@),
            },
    {
        match self {
            SerdeDynError::UuidNotFound => self.display_with(""),
            SerdeDynError::DeserializerError(error) => {
                let inner = error.to_string();
                self.display_with(inner.as_str())
            },
        }
    }

    /// The debug text for this error: the variant's name, followed in round
    /// brackets by the debug text of the source error, if it holds one.
    pub fn debug_string(&self) -> (text: String) where E: Debug
        ensures
            match self {
                SerdeDynError::UuidNotFound => text@ == self.debug_text(Seq::empty()),
                SerdeDynError::DeserializerError(_) => exists|inner: Seq<char>|
                    text@ == self.debug_text(inner),
            },
    {
        match self {
            SerdeDynError::UuidNotFound => self.debug_with(""),
            SerdeDynError::DeserializerError(error) => {
                let inner = debug_render(error);
                self.debug_with(inner.as_str())
            },
        }
    }
}

} // verus!
