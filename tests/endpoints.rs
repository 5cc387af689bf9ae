use discord_bots_org::endpoints::{
    bot, bot_stats, bot_vote_check, bot_votes, bots, decimal_string, user, widget,
};

#[test]
fn test_bot() {
    assert_eq!(bot(1), "https://discordbots.org/api/bots/1");
}

#[test]
fn test_bot_stats() {
    assert_eq!(bot_stats(1), "https://discordbots.org/api/bots/1/stats");
}

#[test]
fn test_bot_vote_check() {
    assert_eq!(
        bot_vote_check(1, 2),
        "https://discordbots.org/api/bots/1/check?userId=2",
    );
}

#[test]
fn test_bot_votes() {
    assert_eq!(bot_votes(1), "https://discordbots.org/api/bots/1/votes");
}

#[test]
fn test_bots() {
    assert_eq!(bots(), "https://discordbots.org/api/bots");
}

#[test]
fn test_user() {
    assert_eq!(user(1), "https://discordbots.org/api/users/1");
}

#[test]
fn test_widget() {
    assert_eq!(widget(1), "https://discordbots.org/api/widget/1.svg");
}

#[test]
fn endpoints_are_the_same_on_every_call() {
    assert_eq!(bot(1), bot(1));
    assert_eq!(bot(1), "https://discordbots.org/api/bots/1");
    assert_eq!(bot_vote_check(1, 2), bot_vote_check(1, 2));
}

#[test]
fn endpoints_take_large_ids() {
    assert_eq!(
        bot(270_198_738_570_444_801),
        "https://discordbots.org/api/bots/270198738570444801"
    );
    assert_eq!(
        user(u64::MAX),
        "https://discordbots.org/api/users/18446744073709551615"
    );
    assert_eq!(bot(0), "https://discordbots.org/api/bots/0");
}

#[test]
fn decimal_digits() {
    assert_eq!(decimal_string(0), "0");
    assert_eq!(decimal_string(9), "9");
    assert_eq!(decimal_string(10), "10");
    assert_eq!(decimal_string(500), "500");
    assert_eq!(decimal_string(1_234_567_890), "1234567890");
    assert_eq!(decimal_string(u64::MAX), u64::MAX.to_string());
}
