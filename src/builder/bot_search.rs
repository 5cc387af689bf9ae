//! Search parameters for the collection of bots.

use crate::endpoints::{decimal, decimal_string};
use vstd::prelude::*;

verus! {

/// The largest number of bots one search may ask for.
pub const MAX_LIMIT: u16 = 500;

/// The parameters a search has set; an absent one is left to the service.
pub struct SearchParams {
    pub limit: Option<Seq<char>>,
    pub offset: Option<Seq<char>>,
    pub search: Option<Seq<char>>,
    pub sort: Option<Seq<char>>,
}

/// A key and a value, as they stand in a query string.
pub type QueryPair = (Seq<char>, Seq<char>);

/// The pair `(key, v)` if `v` is set, nothing otherwise.
pub open spec fn opt_pair(key: Seq<char>, v: Option<Seq<char>>) -> Seq<QueryPair> {
    match v {
        Some(s) => seq![(key, s)],
        None => seq![],
    }
}

/// The query pairs of a search, in the order limit, offset, search, sort.
pub open spec fn search_pairs(p: SearchParams) -> Seq<QueryPair> {
    opt_pair("limit"@, p.limit) + opt_pair("offset"@, p.offset) + opt_pair("search"@, p.search)
        + opt_pair("sort"@, p.sort)
}

/// The views of a sequence of executable query pairs.
pub open spec fn pairs_view(v: Seq<(&'static str, String)>) -> Seq<QueryPair> {
    v.map_values(|e: (&'static str, String)| (e.0@, e.1@))
}

/// The limit actually requested for `limit`: at most `MAX_LIMIT`.
pub open spec fn clamped_limit(limit: u16) -> nat {
    if limit > MAX_LIMIT { MAX_LIMIT as nat } else { limit as nat }
}

/// The value of the `sort` parameter for `field`: descending order is marked
/// by a leading `-`.
pub open spec fn sort_value(field: Seq<char>, ascending: bool) -> Seq<char> {
    if ascending { field } else { seq!['-'] + field }
}

/// Builder to filter bot results.
pub struct BotSearch {
    limit: Option<String>,
    offset: Option<String>,
    search: Option<String>,
    sort: Option<String>,
}

/// The view of an optional string.
pub open spec fn opt_view(v: Option<String>) -> Option<Seq<char>> {
    match v {
        Some(s) => Some(s@),
        None => None,
    }
}

impl View for BotSearch {
    type V = SearchParams;

    closed spec fn view(&self) -> SearchParams {
        SearchParams {
            limit: opt_view(self.limit),
            offset: opt_view(self.offset),
            search: opt_view(self.search),
            sort: opt_view(self.sort),
        }
    }
}

impl BotSearch {
    /// Creates a new builder for filtering bots in a search, with nothing set.
    pub fn new() -> (r: Self)
        ensures
            r@ == (SearchParams { limit: None, offset: None, search: None, sort: None }),
    {
        BotSearch { limit: None, offset: None, search: None, sort: None }
    }

    /// Builds into the URL query params: one pair for each parameter set.
    pub fn build(self) -> (r: Vec<(&'static str, String)>)
        ensures
            pairs_view(r@) == search_pairs(self@),
    {
        let mut r: Vec<(&'static str, String)> = Vec::new();
        let BotSearch { limit, offset, search, sort } = self;
        push_opt(&mut r, "limit", limit);
        push_opt(&mut r, "offset", offset);
        push_opt(&mut r, "search", search);
        push_opt(&mut r, "sort", sort);
        assert(pairs_view(r@) =~= search_pairs(self@));
        r
    }

    /// The amount of bots to return, used for pagination.
    ///
    /// The maximum value is `MAX_LIMIT`; a larger one is lowered to it.
    pub fn limit(&mut self, limit: u16) -> (r: &mut Self)
        ensures
            r@ == (SearchParams { limit: Some(decimal(clamped_limit(limit))), ..old(self)@ }),
            *final(self) == *final(r),
    {
        let mut limit = limit;
        if limit > MAX_LIMIT {
            limit = MAX_LIMIT;
        }
        self.limit = Some(decimal_string(limit as u64));
        self
    }

    /// The amount of bots to skip, used for pagination.
    pub fn offset(&mut self, offset: u64) -> (r: &mut Self)
        ensures
            r@ == (SearchParams { offset: Some(decimal(offset as nat)), ..old(self)@ }),
            *final(self) == *final(r),
    {
        self.offset = Some(decimal_string(offset));
        self
    }

    /// A search query string.
    pub fn search(&mut self, query: &str) -> (r: &mut Self)
        ensures
            r@ == (SearchParams { search: Some(query@), ..old(self)@ }),
            *final(self) == *final(r),
    {
        self._search(String::from_str(query))
    }

    fn _search(&mut self, query: String) -> (r: &mut Self)
        ensures
            r@ == (SearchParams { search: Some(query@), ..old(self)@ }),
            *final(self) == *final(r),
    {
        self.search = Some(query);
        self
    }

    /// The field to sort by, in ascending or descending order.
    pub fn sort(&mut self, field: &str, ascending: bool) -> (r: &mut Self)
        ensures
            r@ == (SearchParams { sort: Some(sort_value(field@, ascending)), ..old(self)@ }),
            *final(self) == *final(r),
    {
        let mut value = if ascending {
            String::new()
        } else {
            String::from_str("-")
        };
        proof {
            reveal_strlit("-");
        }
        value.append(field);
        assert(value@ =~= sort_value(field@, ascending));
        self.sort = Some(value);
        self
    }
}

/// Appends `(key, v)` to `r` if `v` is set.
fn push_opt(r: &mut Vec<(&'static str, String)>, key: &'static str, v: Option<String>)
    ensures
        pairs_view(final(r)@) == pairs_view(old(r)@) + opt_pair(key@, opt_view(v)),
{
    match v {
        Some(s) => {
            r.push((key, s));
        },
        None => {},
    }
    assert(pairs_view(final(r)@) =~= pairs_view(old(r)@) + opt_pair(key@, opt_view(v)));
}

impl Default for BotSearch {
    fn default() -> (r: Self)
        ensures
            r@ == (SearchParams { limit: None, offset: None, search: None, sort: None }),
    {
        BotSearch::new()
    }
}

/// A limit above `MAX_LIMIT` is sent as exactly `500`: once `limit` has been
/// given such a value, the first built pair is `("limit", "500")`.
pub proof fn lemma_limit_clamped(p: SearchParams, limit: u16)
    requires
        limit > MAX_LIMIT,
    ensures
        search_pairs(SearchParams { limit: Some(decimal(clamped_limit(limit))), ..p })[0]
            == ("limit"@, "500"@),
{
    reveal_strlit("500");
    assert(decimal(5) =~= seq!['5']);
    assert(decimal(50) =~= seq!['5', '0']);
    assert(decimal(500) =~= "500"@);
}

/// The built `sort` parameter of `field` is `-` followed by `field` in
/// descending order, and `field` itself, with no prefix, in ascending order.
pub proof fn lemma_sort_prefix(p: SearchParams, field: Seq<char>, ascending: bool)
    ensures
        search_pairs(SearchParams { sort: Some(sort_value(field, ascending)), ..p }).last()
            == ("sort"@, if ascending { field } else { "-"@ + field }),
{
    reveal_strlit("-");
    assert(seq!['-'] =~= "-"@);
}

} // verus!
