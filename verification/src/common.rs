//! Error taxonomy and the small response-shape types shared across the API.

use vstd::prelude::*;

verus! {

/// The error that is returned from the service's operations.
///
/// `Unauthenticated` covers a missing, invalid or expired session or
/// partial-authentication marker; `BadRequest` a malformed or already
/// consumed input; `MissingPrivileges` an authenticated caller whose role
/// does not suffice; `InvalidJson` a request body that did not parse; and
/// `InternalServerError` any storage or crypto failure that is not the
/// caller's fault.
#[derive(Debug, Clone, Copy, PartialEq, Eq, Structural)]
pub enum ApiError {
    Unauthenticated,
    MissingPrivileges,
    BadRequest,
    InvalidJson,
    InternalServerError,
}

/// A `Result` with the service's error.
pub type ApiResult<T> = Result<T, ApiError>;

/// The status codes that are returned throughout the API.
///
/// These do not match HTTP status codes; see [`ApiStatusCode::code`]
/// for the numeric value on the wire.
#[derive(Debug, Clone, Copy, PartialEq, Eq, Structural)]
pub enum ApiStatusCode {
    Unauthenticated,
    BadRequest,
    InvalidJson,
    MissingPrivileges,
    InternalServerError,
}

impl ApiStatusCode {
    /// The numeric value sent on the wire.
    ///
    /// Client-side errors are numbered from 1000, server-side errors
    /// from 2000.
    pub fn code(&self) -> (r: u16)
        ensures
            r == self.spec_code(),
    {
        match self {
            ApiStatusCode::Unauthenticated => 1000,
            ApiStatusCode::BadRequest => 1001,
            ApiStatusCode::InvalidJson => 1002,
            ApiStatusCode::MissingPrivileges => 1003,
            ApiStatusCode::InternalServerError => 2000,
        }
    }

    /// The numeric wire value, as a specification.
    pub open spec fn spec_code(self) -> u16 {
        match self {
            ApiStatusCode::Unauthenticated => 1000,
            ApiStatusCode::BadRequest => 1001,
            ApiStatusCode::InvalidJson => 1002,
            ApiStatusCode::MissingPrivileges => 1003,
            ApiStatusCode::InternalServerError => 2000,
        }
    }
}

/// The response body that is sent in case of an error.
#[derive(Debug, Clone)]
pub struct ApiErrorResponse {
    /// The status code for the error.
    pub status_code: ApiStatusCode,
    /// A human-readable message for displaying purposes.
    pub message: String,
}

/// A single uuid wrapped in a struct, for request and response bodies
/// that carry nothing else.
#[derive(Debug, Clone, Copy, PartialEq, Eq, Structural)]
pub struct SingleUuid {
    /// The wrapped uuid, as its 128-bit value.
    pub uuid: u128,
}

/// A single field which might be absent.
///
/// Wraps an option into a struct with a single field so that the response
/// sent for it is always an object.
#[derive(Debug, Clone, Copy)]
pub struct Optional<T> {
    /// The wrapped optional value.
    pub optional: Option<T>,
}

impl<T> Optional<T> {
    /// Shorthand for `Optional { optional: Some(value) }`.
    pub fn some(value: T) -> (r: Self)
        ensures
            r.optional == Some(value),
    {
        Optional { optional: Some(value) }
    }

    /// Shorthand for `Optional { optional: None }`.
    pub fn none() -> (r: Self)
        ensures
            r.optional is None,
    {
        Optional { optional: None }
    }
}

/// A single field which is an array.
///
/// Wraps a vector into a struct with a single field so that the response
/// sent for it is always an object.
#[derive(Debug, Clone)]
pub struct List<T> {
    /// The wrapped list.
    pub list: Vec<T>,
}

/// A result with distinguished payloads for form handling: either the
/// operation's value, or a description of which form fields were rejected.
#[derive(Debug, Clone, Copy, PartialEq, Eq)]
pub enum FormResult<T, E> {
    Valid { value: T },
    Invalid { error: E },
}

impl<T, E> FormResult<T, E> {
    /// Convenience constructor for `FormResult::Valid`.
    pub fn ok(value: T) -> (r: Self)
        ensures
            r == (FormResult::<T, E>::Valid { value }),
    {
        FormResult::Valid { value }
    }

    /// Convenience constructor for `FormResult::Invalid`.
    pub fn err(error: E) -> (r: Self)
        ensures
            r == (FormResult::<T, E>::Invalid { error }),
    {
        FormResult::Invalid { error }
    }
}

/// A request or response body wrapper marking the payload as JSON encoded.
#[derive(Debug, Clone, Copy)]
pub struct Json<T>(pub T);

impl<T> Json<T> {
    /// Unwrap the payload.
    pub fn into_inner(self) -> (r: T)
        ensures
            r == self.0,
    {
        self.0
    }
}

/// A request body wrapper whose rejections surface as [`ApiError`] values
/// instead of transport-level errors.
#[derive(Debug, Clone, Copy)]
pub struct ApiJson<T>(pub T);

/// A wrapper marking that a value travels as a plain string on the wire.
#[derive(Debug, Clone, Copy, PartialEq, Eq)]
pub struct SchemaString<T>(pub T);

} // verus!
