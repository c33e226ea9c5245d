//! The error taxonomy of the library.

use vstd::prelude::*;

verus! {

/// Everything that can go wrong inside the catalog and conversation core.
///
/// Transport and serialization failures originate outside the library; the
/// surrounding code maps them into the string-carrying variants unchanged.
#[derive(Debug, Clone)]
pub enum AdapterError {
    /// A registry lookup missed: the composite key is carried along.
    ModelNotFound(String),
    ProviderNotSupported(String),
    ApiKeyNotFound(String),
    UnsupportedFeature { model: String, feature: String },
    /// A transport failure, passed through as its message.
    HttpError(String),
    /// A serialization failure, passed through as its message.
    SerializationError(String),
    ConfigError(String),
    RateLimitExceeded,
    StreamError(String),
    /// Static configuration text failed to parse.
    TomlError(String),
    /// A wire value matched none of the four turn shapes.
    AmbiguousTurnShape,
    /// A wire value matched a turn shape but a required sub-field of that
    /// shape is invalid.
    MalformedTurn(String),
    Unknown(String),
}

} // verus!
