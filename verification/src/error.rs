//! The error taxonomy: one family for authentication, one for authenticated
//! calls, and a shared description of decoding failures.

use vstd::prelude::*;

verus! {

/// Why a JSON response body could not be decoded into a record.
#[derive(Debug, Clone, PartialEq, Eq)]
pub enum DecodeError {
    /// The body was not valid JSON at all.
    Syntax,
    /// The named required field was missing or held a value of the wrong
    /// shape.
    Field(String),
}

/// What can go wrong while acquiring a token.
#[derive(Debug, Clone, PartialEq, Eq)]
pub enum AuthError {
    /// The transport failed before a response arrived; holds a description.
    Request(String),
    /// The response body could not be decoded.
    Decode(DecodeError),
    /// A local read (such as loading credentials) failed; holds a
    /// description.
    Io(String),
    /// Adding the granted lifetime to the current instant would overflow the
    /// representable range.
    Expiration,
    /// The capability is declared but not built yet.
    NotImplemented,
}

/// What can go wrong in an authenticated call.
#[derive(Debug, Clone, PartialEq, Eq)]
pub enum ApiError {
    /// The transport failed before a response arrived; holds a description.
    Request(String),
    /// The response body could not be decoded.
    Decode(DecodeError),
    /// A local read failed; holds a description.
    Io(String),
    /// The service rejected the request as semantically invalid.
    InvalidValue,
    /// The service rejected the token.
    Unauthorized,
    /// A status code outside the operation's documented table.
    Unknown,
    /// The operation needs a verified or present email the account lacks.
    MissingEmail,
    /// The operation is declared but not built yet.
    NotImplemented,
}

impl AuthError {
    /// Wraps a transport failure's description.
    pub fn transport(message: String) -> (r: AuthError)
        ensures
            r == AuthError::Request(message),
    {
        AuthError::Request(message)
    }

    /// Wraps a decoding failure.
    pub fn decode(inner: DecodeError) -> (r: AuthError)
        ensures
            r == AuthError::Decode(inner),
    {
        AuthError::Decode(inner)
    }

    /// Wraps a local read failure's description.
    pub fn io(message: String) -> (r: AuthError)
        ensures
            r == AuthError::Io(message),
    {
        AuthError::Io(message)
    }
}

impl ApiError {
    /// Wraps a transport failure's description.
    pub fn transport(message: String) -> (r: ApiError)
        ensures
            r == ApiError::Request(message),
    {
        ApiError::Request(message)
    }

    /// Wraps a decoding failure.
    pub fn decode(inner: DecodeError) -> (r: ApiError)
        ensures
            r == ApiError::Decode(inner),
    {
        ApiError::Decode(inner)
    }

    /// Wraps a local read failure's description.
    pub fn io(message: String) -> (r: ApiError)
        ensures
            r == ApiError::Io(message),
    {
        ApiError::Io(message)
    }
}

} // verus!
