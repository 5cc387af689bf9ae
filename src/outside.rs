//! Declarations of the outside types that this library carries through.

use crate::builder::bot_search::pairs_view;
use vstd::prelude::*;
use vstd::string::StringSliceAdditionalSpecFns;

verus! {

/// The outside error of parsing a URL.
#[verifier::external_type_specification]
#[verifier::external_body]
pub struct ExUrlParseError(url::ParseError);

/// The outside error of decoding JSON.
#[verifier::external_type_specification]
#[verifier::external_body]
pub struct ExJsonError(serde_json::Error);

/// The outside error of the HTTP transport.
#[verifier::external_type_specification]
#[verifier::external_body]
pub struct ExReqwestError(reqwest::Error);

/// The outside response of the HTTP transport.
#[verifier::external_type_specification]
#[verifier::external_body]
pub struct ExReqwestResponse(reqwest::blocking::Response);

/// The outside value of an HTTP header.
#[verifier::external_type_specification]
#[verifier::external_body]
pub struct ExHeaderValue(reqwest::header::HeaderValue);

/// The outside error of a header value that cannot be sent.
#[verifier::external_type_specification]
#[verifier::external_body]
pub struct ExInvalidHeaderValue(reqwest::header::InvalidHeaderValue);


/// The URL that `base` parses to with `pairs` appended to its query, as text;
/// `None` where `base` is no valid absolute URL.
pub uninterp spec fn url_with_params(base: Seq<char>, pairs: Seq<(Seq<char>, Seq<char>)>) -> Option<
    Seq<char>,
>;

/// Relies on `url::Url::parse_with_params`: parses `base` as an absolute URL,
/// appends each pair form-urlencoded to its query and gives back the
/// serialized URL (`String::from(Url)`). The outcome depends on the arguments
/// alone.
#[verifier::external_body]
pub(crate) fn parse_with_params(base: &str, pairs: Vec<(&'static str, String)>) -> (r:
    Result<String, url::ParseError>)
    ensures
        match r {
            Ok(s) => url_with_params(base@, pairs_view(pairs@))
                == Some(s@),
            Err(_) => url_with_params(base@, pairs_view(pairs@))
                is None,
        },
{
    url::Url::parse_with_params(base, pairs).map(String::from)
}


/// The URL that `input` parses to, as text; `None` where `input` is no valid
/// absolute URL.
pub uninterp spec fn parsed_url(input: Seq<char>) -> Option<Seq<char>>;

/// Relies on `url::Url::parse`: parses `input` as an absolute URL and gives
/// back its serialization (`String::from(Url)`). The outcome depends on
/// `input` alone.
#[verifier::external_body]
pub(crate) fn parse_url(input: &str) -> (r: Result<String, url::ParseError>)
    ensures
        match r {
            Ok(s) => parsed_url(input@) == Some(s@),
            Err(_) => parsed_url(input@) is None,
        },
{
    url::Url::parse(input).map(String::from)
}

/// A byte that a header value may hold: a tab, or any byte from 32 up but
/// 127 (DEL).
pub open spec fn header_byte_ok(b: u8) -> bool {
    (b >= 32 && b != 127) || b == 9
}

/// Every byte of `bytes` may stand in a header value.
pub open spec fn header_value_ok(bytes: Seq<u8>) -> bool {
    forall|i: int| 0 <= i < bytes.len() ==> header_byte_ok(#[trigger] bytes[i])
}

/// Relies on `reqwest::header::HeaderValue::from_str` (the `http` crate's):
/// it accepts exactly the strings whose every byte passes `header_byte_ok`.
#[verifier::external_body]
pub(crate) fn header_value(src: &str) -> (r: Result<
    reqwest::header::HeaderValue,
    reqwest::header::InvalidHeaderValue,
>)
    ensures
        r is Ok <==> header_value_ok(src.spec_bytes()),
{
    reqwest::header::HeaderValue::from_str(src)
}

} // verus!
