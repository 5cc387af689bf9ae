//! One error type for every failure a call can meet.

use vstd::prelude::*;
use vstd::std_specs::convert::{FromSpec, FromSpecImpl};
use vstd::string::to_string_from_display_ensures;

verus! {

/// What went wrong, without the cause.
#[derive(PartialEq, Eq, Structural, Clone, Copy, Debug)]
pub enum ErrorKind {
    /// A URL could not be built.
    InvalidUrl,
    /// A response body did not have the expected JSON shape.
    JsonDecode,
    /// The transport failed: no connection, or no complete exchange.
    TransportFailure,
    /// The service answered that the request was bad.
    BadResponse,
    /// The service answered with an invalid response.
    InvalidResponse,
    /// The service refused the credentials.
    Unauthorized,
    /// The authorization could not be sent as a header value.
    InvalidHeaderValue,
}

/// An error of this library, holding the cause it came from.
#[derive(Debug)]
pub enum ApiError {
    /// When a URL is invalid.
    InvalidUrl(url::ParseError),
    /// A response body could not be decoded.
    Json(serde_json::Error),
    /// The transport failed.
    Reqwest(reqwest::Error),
    /// The service answered that the request was bad.
    ReqwestBad(Box<reqwest::blocking::Response>),
    /// A header value was invalid.
    ReqwestHeaderValue(reqwest::header::InvalidHeaderValue),
    /// The service answered with an invalid response.
    ReqwestInvalid(Box<reqwest::blocking::Response>),
    /// The service refused the credentials.
    ReqwestUnauthorized(Box<reqwest::blocking::Response>),
}

/// A result whose error is this library's `ApiError`.
pub type Result<T> = core::result::Result<T, ApiError>;

/// The kind of an error.
pub open spec fn kind_of(e: ApiError) -> ErrorKind {
    match e {
        ApiError::InvalidUrl(_) => ErrorKind::InvalidUrl,
        ApiError::Json(_) => ErrorKind::JsonDecode,
        ApiError::Reqwest(_) => ErrorKind::TransportFailure,
        ApiError::ReqwestBad(_) => ErrorKind::BadResponse,
        ApiError::ReqwestHeaderValue(_) => ErrorKind::InvalidHeaderValue,
        ApiError::ReqwestInvalid(_) => ErrorKind::InvalidResponse,
        ApiError::ReqwestUnauthorized(_) => ErrorKind::Unauthorized,
    }
}

impl ApiError {
    /// The kind of this error.
    pub fn kind(&self) -> (r: ErrorKind)
        ensures
            r == kind_of(*self),
    {
        match self {
            ApiError::InvalidUrl(_) => ErrorKind::InvalidUrl,
            ApiError::Json(_) => ErrorKind::JsonDecode,
            ApiError::Reqwest(_) => ErrorKind::TransportFailure,
            ApiError::ReqwestBad(_) => ErrorKind::BadResponse,
            ApiError::ReqwestHeaderValue(_) => ErrorKind::InvalidHeaderValue,
            ApiError::ReqwestInvalid(_) => ErrorKind::InvalidResponse,
            ApiError::ReqwestUnauthorized(_) => ErrorKind::Unauthorized,
        }
    }
}

impl ApiError {
    /// The outcome of an exchange with the transport, with a transport
    /// failure turned into this library's error.
    pub fn from_transport<T>(sent: core::result::Result<T, reqwest::Error>) -> (r: Result<T>)
        ensures
            r == transport_outcome(sent),
    {
        match sent {
            Ok(v) => Ok(v),
            Err(e) => Err(ApiError::from(e)),
        }
    }

    /// A description of the error: the cause's own message where it has a
    /// cause, else a fixed text for what the service answered.
    pub fn description(&self) -> (r: String)
        ensures
            match self {
                ApiError::InvalidUrl(e) => to_string_from_display_ensures(e, r),
                ApiError::Json(e) => to_string_from_display_ensures(e, r),
                ApiError::Reqwest(e) => to_string_from_display_ensures(e, r),
                ApiError::ReqwestBad(_) => r@ == "Request bad"@,
                ApiError::ReqwestHeaderValue(e) => to_string_from_display_ensures(e, r),
                ApiError::ReqwestInvalid(_) => r@ == "Request invalid"@,
                ApiError::ReqwestUnauthorized(_) => r@ == "Request auth bad"@,
            },
    {
        match self {
            ApiError::InvalidUrl(e) => e.to_string(),
            ApiError::Json(e) => e.to_string(),
            ApiError::Reqwest(e) => e.to_string(),
            ApiError::ReqwestBad(_) => String::from_str("Request bad"),
            ApiError::ReqwestHeaderValue(e) => e.to_string(),
            ApiError::ReqwestInvalid(_) => String::from_str("Request invalid"),
            ApiError::ReqwestUnauthorized(_) => String::from_str("Request auth bad"),
        }
    }
}

/// The outcome of an exchange: its value, or the transport's failure as an
/// error of this library.
pub open spec fn transport_outcome<T>(sent: core::result::Result<T, reqwest::Error>) -> Result<T> {
    match sent {
        Ok(v) => Ok(v),
        Err(e) => Err(ApiError::Reqwest(e)),
    }
}

/// A failure of the transport is always reported as an error of kind
/// `TransportFailure`, whether it comes through `from` or through
/// `from_transport`, and never as a value.
pub proof fn lemma_transport_failure<T>(sent: core::result::Result<T, reqwest::Error>)
    ensures
        sent is Err ==> transport_outcome(sent) is Err
            && kind_of(transport_outcome(sent)->Err_0) == ErrorKind::TransportFailure,
        sent is Err ==> kind_of(<ApiError as FromSpec<reqwest::Error>>::from_spec(sent->Err_0))
            == ErrorKind::TransportFailure,
{
}

impl From<url::ParseError> for ApiError {
    fn from(err: url::ParseError) -> (r: Self) {
        ApiError::InvalidUrl(err)
    }
}

impl FromSpecImpl<url::ParseError> for ApiError {
    open spec fn obeys_from_spec() -> bool {
        true
    }

    open spec fn from_spec(err: url::ParseError) -> Self {
        ApiError::InvalidUrl(err)
    }
}

impl From<serde_json::Error> for ApiError {
    fn from(err: serde_json::Error) -> (r: Self) {
        ApiError::Json(err)
    }
}

impl FromSpecImpl<serde_json::Error> for ApiError {
    open spec fn obeys_from_spec() -> bool {
        true
    }

    open spec fn from_spec(err: serde_json::Error) -> Self {
        ApiError::Json(err)
    }
}

impl From<reqwest::Error> for ApiError {
    fn from(err: reqwest::Error) -> (r: Self) {
        ApiError::Reqwest(err)
    }
}

impl FromSpecImpl<reqwest::Error> for ApiError {
    open spec fn obeys_from_spec() -> bool {
        true
    }

    open spec fn from_spec(err: reqwest::Error) -> Self {
        ApiError::Reqwest(err)
    }
}

impl From<reqwest::header::InvalidHeaderValue> for ApiError {
    fn from(err: reqwest::header::InvalidHeaderValue) -> (r: Self) {
        ApiError::ReqwestHeaderValue(err)
    }
}

impl FromSpecImpl<reqwest::header::InvalidHeaderValue> for ApiError {
    open spec fn obeys_from_spec() -> bool {
        true
    }

    open spec fn from_spec(err: reqwest::header::InvalidHeaderValue) -> Self {
        ApiError::ReqwestHeaderValue(err)
    }
}

} // verus!
