use discord_bots_org::builder::BotSearch;

fn value_of(params: &[(&'static str, String)], key: &str) -> Option<String> {
    params.iter().find(|(k, _)| *k == key).map(|(_, v)| v.clone())
}

#[test]
fn test_field() {
    let mut search = BotSearch::new();
    search.limit(10).offset(20).search("hi").sort("b", false);
    let params = search.build();

    assert_eq!(value_of(&params, "limit").unwrap(), "10");
    assert_eq!(value_of(&params, "offset").unwrap(), "20");
    assert_eq!(value_of(&params, "search").unwrap(), "hi");
    assert_eq!(value_of(&params, "sort").unwrap(), "-b");
}

#[test]
fn limit_above_maximum_is_clamped() {
    for limit in [501u16, 1000, u16::MAX] {
        let mut search = BotSearch::new();
        search.limit(limit);
        let params = search.build();
        assert_eq!(params, vec![("limit", "500".to_string())]);
    }
}

#[test]
fn limit_at_or_below_maximum_is_kept() {
    let mut search = BotSearch::new();
    search.limit(500);
    assert_eq!(search.build(), vec![("limit", "500".to_string())]);

    let mut search = BotSearch::new();
    search.limit(0);
    assert_eq!(search.build(), vec![("limit", "0".to_string())]);
}

#[test]
fn sort_prefix_follows_order() {
    let mut search = BotSearch::new();
    search.sort("points", false);
    assert_eq!(search.build(), vec![("sort", "-points".to_string())]);

    let mut search = BotSearch::new();
    search.sort("points", true);
    assert_eq!(search.build(), vec![("sort", "points".to_string())]);
}

#[test]
fn empty_search_builds_nothing() {
    assert!(BotSearch::new().build().is_empty());
    assert!(BotSearch::default().build().is_empty());
}

#[test]
fn later_value_replaces_earlier() {
    let mut search = BotSearch::new();
    search.offset(5).offset(u64::MAX).search("a").search("");
    assert_eq!(
        search.build(),
        vec![
            ("offset", "18446744073709551615".to_string()),
            ("search", String::new()),
        ]
    );
}
