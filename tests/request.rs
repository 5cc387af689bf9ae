use discord_bots_org::builder::BotSearch;
use discord_bots_org::request::{
    get_bot_request, get_bot_stats_request, get_bot_vote_check_request, get_bot_votes_request,
    get_bots_request, get_user_request, post_stats_request, ApiRequest, Method,
};
use discord_bots_org::ErrorKind;

#[test]
fn bot_request_has_no_authorization() {
    let req = get_bot_request(1).ok().unwrap();
    assert_eq!(req.method, Method::Get);
    assert_eq!(req.url, "https://discordbots.org/api/bots/1");
    assert!(req.authorization.is_none());
}

#[test]
fn stats_and_user_requests() {
    let req = get_bot_stats_request(3).ok().unwrap();
    assert_eq!(req.url, "https://discordbots.org/api/bots/3/stats");
    let req = get_user_request(4).ok().unwrap();
    assert_eq!(req.url, "https://discordbots.org/api/users/4");
    assert!(req.authorization.is_none());
}

#[test]
fn search_request_carries_parameters() {
    let mut search = BotSearch::new();
    search.limit(900).search("music");
    let req = get_bots_request(search).ok().unwrap();
    assert_eq!(req.method, Method::Get);
    assert_eq!(req.url, "https://discordbots.org/api/bots?limit=500&search=music");
}

#[test]
fn vote_check_request_is_authorized() {
    let req = get_bot_vote_check_request("token", 1, 2).ok().unwrap();
    assert_eq!(req.method, Method::Get);
    assert!(req.url.starts_with("https://discordbots.org/api/bots/1/check?userId=2"));
    assert_eq!(req.authorization.unwrap().to_str().unwrap(), "token");
}

#[test]
fn votes_request_is_authorized() {
    let req = get_bot_votes_request("abc", 9).ok().unwrap();
    assert_eq!(req.url, "https://discordbots.org/api/bots/9/votes");
    assert_eq!(req.authorization.unwrap().to_str().unwrap(), "abc");
}

#[test]
fn post_stats_request_posts() {
    let req = post_stats_request("abc", 9).ok().unwrap();
    assert_eq!(req.method, Method::Post);
    assert_eq!(req.url, "https://discordbots.org/api/bots/9/stats");
    assert!(req.authorization.is_some());
}

#[test]
fn bad_authorization_is_an_invalid_header_value() {
    let err = get_bot_votes_request("bad\ntoken", 9).err().unwrap();
    assert_eq!(err.kind(), ErrorKind::InvalidHeaderValue);
    let err = post_stats_request("\u{7f}", 9).err().unwrap();
    assert_eq!(err.kind(), ErrorKind::InvalidHeaderValue);
}

#[test]
fn bad_url_is_an_invalid_url() {
    let err = ApiRequest::from_parts(Method::Get, Err(url::ParseError::EmptyHost), None)
        .err()
        .unwrap();
    assert_eq!(err.kind(), ErrorKind::InvalidUrl);
}

#[test]
fn from_parts_checks_url_before_authorization() {
    let err = ApiRequest::from_parts(
        Method::Post,
        Err(url::ParseError::RelativeUrlWithoutBase),
        Some("bad\n"),
    )
    .err()
    .unwrap();
    assert_eq!(err.kind(), ErrorKind::InvalidUrl);
    let req = ApiRequest::from_parts(Method::Post, Ok("https://a.b/".to_string()), Some("ok"))
        .ok()
        .unwrap();
    assert_eq!(req.method, Method::Post);
    assert_eq!(req.url, "https://a.b/");
}
