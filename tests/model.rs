use discord_bots_org::model::{BotVotes, DiscordUser, ResponseUserVoted, Social};
use discord_bots_org::{ApiError, ErrorKind};

#[test]
fn votes_of_integers_are_ids() {
    let body = "[1, 2, 3]";
    let ids = serde_json::from_str::<Vec<u64>>(body);
    let users: Result<Vec<DiscordUser>, serde_json::Error> =
        Err(serde_json::from_str::<Vec<u64>>("{}").err().unwrap());
    match BotVotes::from_attempts(ids, users) {
        Ok(BotVotes::Ids(v)) => assert_eq!(v, vec![1, 2, 3]),
        _ => panic!("expected the ids variant"),
    }
}

#[test]
fn votes_of_objects_are_users() {
    let body = r#"[{"avatar": null, "discriminator": 1, "id": "5", "username": "x"}]"#;
    let ids = serde_json::from_str::<Vec<u64>>(body);
    assert!(ids.is_err());
    let user = DiscordUser {
        avatar: None,
        discriminator: 1,
        id: "5".to_string(),
        username: "x".to_string(),
    };
    match BotVotes::from_attempts(ids, Ok(vec![user])) {
        Ok(BotVotes::Users(u)) => {
            assert_eq!(u.len(), 1);
            assert_eq!(u[0].id, "5");
        }
        _ => panic!("expected the users variant"),
    }
}

#[test]
fn votes_of_neither_shape_are_a_json_error() {
    let ids = serde_json::from_str::<Vec<u64>>("true");
    let users = Err(serde_json::from_str::<Vec<u64>>("false").err().unwrap());
    let err = BotVotes::from_attempts(ids, users).err().unwrap();
    assert_eq!(err.kind(), ErrorKind::JsonDecode);
}

fn voted_flag(body: &str) -> u8 {
    let value: serde_json::Value = serde_json::from_str(body).unwrap();
    value.get("voted").and_then(|v| v.as_u64()).unwrap() as u8
}

#[test]
fn vote_check_flag_one_is_true() {
    let resp = ResponseUserVoted { voted: voted_flag(r#"{"voted":1}"#) };
    assert!(resp.has_voted());
}

#[test]
fn vote_check_flag_zero_is_false() {
    let resp = ResponseUserVoted { voted: voted_flag(r#"{"voted":0}"#) };
    assert!(!resp.has_voted());
    assert!(!ResponseUserVoted { voted: 2 }.has_voted());
}

#[test]
fn social_defaults_to_empty() {
    let social = Social::default();
    assert!(social.github.is_empty());
    assert!(social.instagram.is_empty());
    assert!(social.reddit.is_empty());
    assert!(social.twitter.is_empty());
    assert!(social.youtube.is_empty());
}

#[test]
fn error_kinds_and_descriptions() {
    let err = ApiError::from(url::ParseError::EmptyHost);
    assert_eq!(err.kind(), ErrorKind::InvalidUrl);
    assert_eq!(err.description(), url::ParseError::EmptyHost.to_string());

    let json = serde_json::from_str::<u64>("x").err().unwrap();
    let text = json.to_string();
    let err = ApiError::from(json);
    assert_eq!(err.kind(), ErrorKind::JsonDecode);
    assert_eq!(err.description(), text);

    let header = reqwest::header::HeaderValue::from_str("\n").err().unwrap();
    let err = ApiError::from(header);
    assert_eq!(err.kind(), ErrorKind::InvalidHeaderValue);
}

#[test]
fn transport_success_passes_through() {
    let sent: Result<u32, reqwest::Error> = Ok(7);
    match ApiError::from_transport(sent) {
        Ok(v) => assert_eq!(v, 7),
        Err(_) => panic!("expected the value"),
    }
}

#[test]
fn transport_failure_is_a_transport_error() {
    let client = reqwest::blocking::Client::new();
    let failed = client.get("http://[::1").send();
    let err = ApiError::from_transport(failed).err().unwrap();
    assert_eq!(err.kind(), ErrorKind::TransportFailure);
}
