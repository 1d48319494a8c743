//! The recoverable error taxonomy of the envelope layer.
//!
//! Callers see a typed failure only for a documented precondition that they
//! violated; every other native-layer condition either cannot occur for a
//! well-formed envelope or is not recoverable and never surfaces here.

use vstd::prelude::*;

verus! {

/// A recoverable failure returned by an envelope operation.
#[derive(Debug, Clone, Copy, PartialEq, Eq, Structural, Hash)]
pub enum Error {
    /// A documented precondition was violated: a zero routing identifier
    /// was passed to a setter, or a group name exceeded the length bound.
    InvalidInput,
    /// The envelope's content bytes are not valid UTF-8, so they cannot be
    /// interpreted as text.
    TextEncodingError,
}

impl Error {
    /// A short human-readable description of the failure.
    pub fn description_text(&self) -> String {
        match self {
            Error::InvalidInput => "invalid input".to_owned(),
            Error::TextEncodingError => "message content is not valid UTF-8".to_owned(),
        }
    }
}

} // verus!
