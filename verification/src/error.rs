//! The error taxonomy of the library. Transport-level failures (network,
//! authentication, server, deserialization) are produced by the surrounding
//! application and carried here as opaque messages; the core logic itself only
//! produces `InvalidInput`, which signals a data-integrity problem in the
//! upstream catalogs and is never silently swallowed.

use vstd::prelude::*;

verus! {

/// Everything that can go wrong while talking to the provider or while
/// reconciling its answers.
#[derive(Debug, Clone, PartialEq, Eq)]
pub enum RunpodError {
    /// The underlying HTTP request could not be issued or completed.
    RequestFailed(String),
    /// The provider rejected the credentials.
    AuthenticationFailed(String),
    /// The requested resource does not exist.
    NotFound(String),
    /// Two records that were asked to be merged disagree on identity.
    InvalidInput(String),
    /// The provider asked the client to slow down.
    RateLimited,
    /// The provider reported an internal failure.
    ServerError(String),
    /// The provider's response could not be decoded.
    DeserializationError(String),
    /// A configured endpoint address could not be parsed.
    UrlParseError(String),
    /// The provider's query layer reported an error.
    GraphQLError(String),
    /// The configuration file could not be parsed.
    TomlError(String),
    /// The configuration file could not be read.
    IOError(String),
}

} // verus!
