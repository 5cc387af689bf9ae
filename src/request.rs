//! The requests the API client sends: for each operation, the method, the
//! URL, and the `Authorization` header where the operation needs one.

use crate::builder::bot_search::{BotSearch, QueryPair, pairs_view, search_pairs};
use crate::endpoints::{self, bot_url, bot_stats_url, bot_vote_check_url, bot_votes_url,
    bots_url, decimal, decimal_string, user_url};
use crate::error::{ApiError, ErrorKind, Result, kind_of};
use crate::outside::{header_value, header_value_ok, parse_url, parse_with_params, parsed_url,
    url_with_params};
use vstd::prelude::*;
use vstd::string::StringSliceAdditionalSpecFns;

verus! {

/// The HTTP method of a request.
#[derive(PartialEq, Eq, Structural, Clone, Copy, Debug)]
pub enum Method {
    Get,
    Post,
}

/// A request ready to be sent.
pub struct ApiRequest {
    /// The HTTP method.
    pub method: Method,
    /// The full URL, as the URL parser serialized it.
    pub url: String,
    /// The value of the `Authorization` header, if the request carries one.
    pub authorization: Option<reqwest::header::HeaderValue>,
}

/// `r` is the request of `method` to the URL `url` (as parsed; `None` where it
/// did not parse), carrying `auth` as its authorization where that is set.
///
/// A URL that did not parse gives an `InvalidUrl` error; else an
/// authorization that cannot be a header value gives an `InvalidHeaderValue`
/// error; else the request.
pub open spec fn request_matches(
    r: Result<ApiRequest>,
    method: Method,
    url: Option<Seq<char>>,
    auth: Option<Seq<u8>>,
) -> bool {
    match url {
        None => r is Err && kind_of(r->Err_0) == ErrorKind::InvalidUrl,
        Some(u) => {
            if auth is Some && !header_value_ok(auth->Some_0) {
                r is Err && kind_of(r->Err_0) == ErrorKind::InvalidHeaderValue
            } else {
                r is Ok && r->Ok_0.method == method && r->Ok_0.url@ == u
                    && (r->Ok_0.authorization is Some <==> auth is Some)
            }
        },
    }
}

/// The bytes of an optional authorization.
pub open spec fn auth_bytes(auth: Option<&str>) -> Option<Seq<u8>> {
    match auth {
        Some(a) => Some(a.spec_bytes()),
        None => None,
    }
}

impl ApiRequest {
    /// Puts a request together from the outcome of parsing its URL and its
    /// authorization, if it has one.
    pub fn from_parts(
        method: Method,
        url: core::result::Result<String, url::ParseError>,
        auth: Option<&str>,
    ) -> (r: Result<ApiRequest>)
        ensures
            request_matches(
                r,
                method,
                match url {
                    Ok(u) => Some(u@),
                    Err(_) => None,
                },
                auth_bytes(auth),
            ),
    {
        let url = match url {
            Ok(u) => u,
            Err(e) => {
                return Err(ApiError::from(e));
            },
        };
        let authorization = match auth {
            Some(a) => match header_value(a) {
                Ok(v) => Some(v),
                Err(e) => {
                    return Err(ApiError::from(e));
                },
            },
            None => None,
        };
        Ok(ApiRequest { method, url, authorization })
    }
}

/// The request for information about a bot.
pub fn get_bot_request(id: u64) -> (r: Result<ApiRequest>)
    ensures
        request_matches(r, Method::Get, parsed_url(bot_url(id as nat)), None),
{
    let url = endpoints::bot(id);
    ApiRequest::from_parts(Method::Get, parse_url(url.as_str()), None)
}

/// The request for a search of bots with the parameters of `search`.
pub fn get_bots_request(search: BotSearch) -> (r: Result<ApiRequest>)
    ensures
        request_matches(r, Method::Get, url_with_params(bots_url(), search_pairs(search@)), None),
{
    let params = search.build();
    let url = endpoints::bots();
    ApiRequest::from_parts(Method::Get, parse_with_params(url.as_str(), params), None)
}

/// The request for a bot's statistics.
pub fn get_bot_stats_request(id: u64) -> (r: Result<ApiRequest>)
    ensures
        request_matches(r, Method::Get, parsed_url(bot_stats_url(id as nat)), None),
{
    let url = endpoints::bot_stats(id);
    ApiRequest::from_parts(Method::Get, parse_url(url.as_str()), None)
}

/// The query pairs a vote check adds to its URL.
pub open spec fn vote_check_pairs(user_id: nat) -> Seq<QueryPair> {
    seq![("userId"@, decimal(user_id))]
}

/// The request that asks whether `user_id` voted for `bot_id` in the last 24
/// hours.
pub fn get_bot_vote_check_request(auth: &str, bot_id: u64, user_id: u64) -> (r: Result<
    ApiRequest,
>)
    ensures
        request_matches(
            r,
            Method::Get,
            url_with_params(
                bot_vote_check_url(bot_id as nat, user_id as nat),
                vote_check_pairs(user_id as nat),
            ),
            Some(auth.spec_bytes()),
        ),
{
    let path = endpoints::bot_vote_check(bot_id, user_id);
    let mut params: Vec<(&'static str, String)> = Vec::new();
    params.push(("userId", decimal_string(user_id)));
    assert(pairs_view(params@) =~= vote_check_pairs(user_id as nat));
    ApiRequest::from_parts(Method::Get, parse_with_params(path.as_str(), params), Some(auth))
}

/// The request for who has voted for a bot.
pub fn get_bot_votes_request(auth: &str, bot_id: u64) -> (r: Result<ApiRequest>)
    ensures
        request_matches(
            r,
            Method::Get,
            parsed_url(bot_votes_url(bot_id as nat)),
            Some(auth.spec_bytes()),
        ),
{
    let url = endpoints::bot_votes(bot_id);
    ApiRequest::from_parts(Method::Get, parse_url(url.as_str()), Some(auth))
}

/// The request for information about a user.
pub fn get_user_request(id: u64) -> (r: Result<ApiRequest>)
    ensures
        request_matches(r, Method::Get, parsed_url(user_url(id as nat)), None),
{
    let url = endpoints::user(id);
    ApiRequest::from_parts(Method::Get, parse_url(url.as_str()), None)
}

/// The request that posts a bot's shard stats; the stats go in its body.
pub fn post_stats_request(auth: &str, bot_id: u64) -> (r: Result<ApiRequest>)
    ensures
        request_matches(
            r,
            Method::Post,
            parsed_url(bot_stats_url(bot_id as nat)),
            Some(auth.spec_bytes()),
        ),
{
    let url = endpoints::bot_stats(bot_id);
    ApiRequest::from_parts(Method::Post, parse_url(url.as_str()), Some(auth))
}

} // verus!
