//! Endpoint URLs of the API, built from a fixed base and numeric ids.

use vstd::prelude::*;

verus! {

/// API URI base.
pub const BASE: &'static str = "https://discordbots.org/api";

/// The character of a decimal digit.
pub open spec fn digit_char(d: nat) -> char {
    if d == 0 { '0' }
    else if d == 1 { '1' }
    else if d == 2 { '2' }
    else if d == 3 { '3' }
    else if d == 4 { '4' }
    else if d == 5 { '5' }
    else if d == 6 { '6' }
    else if d == 7 { '7' }
    else if d == 8 { '8' }
    else { '9' }
}

/// The decimal representation of `n`, most significant digit first, with no
/// leading zeros.
pub open spec fn decimal(n: nat) -> Seq<char>
    decreases n,
{
    if n < 10 {
        seq![digit_char(n)]
    } else {
        decimal(n / 10).push(digit_char(n % 10))
    }
}

/// The one-character string of a decimal digit.
fn digit_str(d: u64) -> (r: &'static str)
    requires
        d < 10,
    ensures
        r@ == seq![digit_char(d as nat)],
{
    proof {
        reveal_strlit("0");
        reveal_strlit("1");
        reveal_strlit("2");
        reveal_strlit("3");
        reveal_strlit("4");
        reveal_strlit("5");
        reveal_strlit("6");
        reveal_strlit("7");
        reveal_strlit("8");
        reveal_strlit("9");
    }
    match d {
        0 => "0",
        1 => "1",
        2 => "2",
        3 => "3",
        4 => "4",
        5 => "5",
        6 => "6",
        7 => "7",
        8 => "8",
        _ => "9",
    }
}

/// Appends the decimal representation of `n` to `s`.
pub fn push_decimal(s: &mut String, n: u64)
    ensures
        final(s)@ == old(s)@ + decimal(n as nat),
    decreases n,
{
    if n >= 10 {
        push_decimal(s, n / 10);
    }
    s.append(digit_str(n % 10));
    assert(final(s)@ =~= old(s)@ + decimal(n as nat));
}

/// The decimal representation of `n` as a new string.
pub fn decimal_string(n: u64) -> (r: String)
    ensures
        r@ == decimal(n as nat),
{
    let mut s = String::new();
    push_decimal(&mut s, n);
    assert(s@ =~= decimal(n as nat));
    s
}

/// `BASE` followed by `path`.
pub open spec fn at_base(path: Seq<char>) -> Seq<char> {
    BASE@ + path
}

/// The URL of one bot.
pub open spec fn bot_url(id: nat) -> Seq<char> {
    at_base("/bots/"@ + decimal(id))
}

/// The URL of one bot's statistics.
pub open spec fn bot_stats_url(id: nat) -> Seq<char> {
    bot_url(id) + "/stats"@
}

/// The URL that tells whether a user voted for a bot.
pub open spec fn bot_vote_check_url(bot_id: nat, user_id: nat) -> Seq<char> {
    bot_url(bot_id) + "/check?userId="@ + decimal(user_id)
}

/// The URL of the votes a bot received.
pub open spec fn bot_votes_url(id: nat) -> Seq<char> {
    bot_url(id) + "/votes"@
}

/// The URL of the collection of bots.
pub open spec fn bots_url() -> Seq<char> {
    at_base("/bots"@)
}

/// The URL of one user.
pub open spec fn user_url(id: nat) -> Seq<char> {
    at_base("/users/"@ + decimal(id))
}

/// The URL of a bot's widget image.
pub open spec fn widget_url(id: nat) -> Seq<char> {
    at_base("/widget/"@ + decimal(id) + ".svg"@)
}

/// `BASE` followed by `path` and the decimal representation of `id`.
fn base_with_id(path: &str, id: u64) -> (r: String)
    ensures
        r@ == at_base(path@ + decimal(id as nat)),
{
    let mut s = String::from_str(BASE);
    s.append(path);
    push_decimal(&mut s, id);
    assert(s@ =~= at_base(path@ + decimal(id as nat)));
    s
}

/// The URL of one bot.
pub fn bot(id: u64) -> (r: String)
    ensures
        r@ == bot_url(id as nat),
{
    base_with_id("/bots/", id)
}

/// The URL of one bot's statistics.
pub fn bot_stats(id: u64) -> (r: String)
    ensures
        r@ == bot_stats_url(id as nat),
{
    let mut s = bot(id);
    s.append("/stats");
    s
}

/// The URL that tells whether the user `user_id` voted for the bot `bot_id`.
pub fn bot_vote_check(bot_id: u64, user_id: u64) -> (r: String)
    ensures
        r@ == bot_vote_check_url(bot_id as nat, user_id as nat),
{
    let mut s = bot(bot_id);
    s.append("/check?userId=");
    push_decimal(&mut s, user_id);
    s
}

/// The URL of the votes a bot received.
pub fn bot_votes(id: u64) -> (r: String)
    ensures
        r@ == bot_votes_url(id as nat),
{
    let mut s = bot(id);
    s.append("/votes");
    s
}

/// The URL of the collection of bots, which takes search parameters.
pub fn bots() -> (r: String)
    ensures
        r@ == bots_url(),
{
    let mut s = String::from_str(BASE);
    s.append("/bots");
    s
}

/// The URL of one user.
pub fn user(id: u64) -> (r: String)
    ensures
        r@ == user_url(id as nat),
{
    base_with_id("/users/", id)
}

/// The URL of a bot's widget image, without parameters.
pub fn widget(id: u64) -> (r: String)
    ensures
        r@ == widget_url(id as nat),
{
    let mut s = base_with_id("/widget/", id);
    s.append(".svg");
    s
}

/// Each endpoint URL is a function of its ids alone; for instance bot `1`
/// is at `https://discordbots.org/api/bots/1`, and the vote check of user `2`
/// for bot `1` is at `https://discordbots.org/api/bots/1/check?userId=2`.
pub proof fn lemma_endpoints_fixed()
    ensures
        bot_url(1) == "https://discordbots.org/api/bots/1"@,
        bot_vote_check_url(1, 2) == "https://discordbots.org/api/bots/1/check?userId=2"@,
{
    reveal_strlit("https://discordbots.org/api");
    reveal_strlit("/bots/");
    reveal_strlit("/check?userId=");
    reveal_strlit("https://discordbots.org/api/bots/1");
    reveal_strlit("https://discordbots.org/api/bots/1/check?userId=2");
    assert(decimal(1) =~= seq!['1']);
    assert(decimal(2) =~= seq!['2']);
    assert(bot_url(1) =~= "https://discordbots.org/api/bots/1"@);
    assert(bot_vote_check_url(1, 2) =~= "https://discordbots.org/api/bots/1/check?userId=2"@);
}

} // verus!
