//! Builders of widget embed URLs.

use crate::builder::bot_search::{QueryPair, pairs_view};
use crate::endpoints::{self, widget_url};
use crate::error::{ApiError, Result, kind_of, ErrorKind};
use crate::outside::{parse_with_params, url_with_params};
use vstd::prelude::*;

verus! {

/// An option a widget can be given, with the query key it is sent under.
#[derive(PartialEq, Eq, Structural, Clone, Copy, Debug)]
pub enum WidgetOption {
    TopColor,
    MiddleColor,
    UsernameColor,
    CertifiedColor,
    DataColor,
    LabelColor,
    AvatarBackground,
    LeftColor,
    LeftTextColor,
    RightColor,
    RightTextColor,
}

/// The query key of an option.
pub open spec fn option_key(o: WidgetOption) -> Seq<char> {
    match o {
        WidgetOption::TopColor => "topcolor"@,
        WidgetOption::MiddleColor => "middlecolor"@,
        WidgetOption::UsernameColor => "usernamecolor"@,
        WidgetOption::CertifiedColor => "certifiedcolor"@,
        WidgetOption::DataColor => "datacolor"@,
        WidgetOption::LabelColor => "labelcolor"@,
        WidgetOption::AvatarBackground => "avatarbg"@,
        WidgetOption::LeftColor => "leftcolor"@,
        WidgetOption::LeftTextColor => "lefttextcolor"@,
        WidgetOption::RightColor => "rightcolor"@,
        WidgetOption::RightTextColor => "righttextcolor"@,
    }
}

impl WidgetOption {
    /// The query key of this option.
    pub fn key(&self) -> (r: &'static str)
        ensures
            r@ == option_key(*self),
    {
        match self {
            WidgetOption::TopColor => "topcolor",
            WidgetOption::MiddleColor => "middlecolor",
            WidgetOption::UsernameColor => "usernamecolor",
            WidgetOption::CertifiedColor => "certifiedcolor",
            WidgetOption::DataColor => "datacolor",
            WidgetOption::LabelColor => "labelcolor",
            WidgetOption::AvatarBackground => "avatarbg",
            WidgetOption::LeftColor => "leftcolor",
            WidgetOption::LeftTextColor => "lefttextcolor",
            WidgetOption::RightColor => "rightcolor",
            WidgetOption::RightTextColor => "righttextcolor",
        }
    }
}

/// The options of a widget, in the order they were first set.
pub type OptionSeq = Seq<(WidgetOption, Seq<char>)>;

/// What a widget builder holds: the bot and the options set so far.
pub struct WidgetParams {
    pub bot_id: nat,
    pub options: OptionSeq,
}

/// The options after `o` is set to `v`: an option already set keeps its place
/// and takes the new value; a new one goes last.
pub open spec fn set_option(s: OptionSeq, o: WidgetOption, v: Seq<char>) -> OptionSeq
    decreases s.len(),
{
    if s.len() == 0 {
        seq![(o, v)]
    } else if s[0].0 == o {
        seq![(o, v)] + s.skip(1)
    } else {
        seq![s[0]] + set_option(s.skip(1), o, v)
    }
}

/// No option stands twice.
pub open spec fn options_unique(s: OptionSeq) -> bool {
    forall|i: int, j: int| 0 <= i < j < s.len() ==> s[i].0 != s[j].0
}

/// The query pairs of the options, in order.
pub open spec fn option_pairs(s: OptionSeq) -> Seq<QueryPair> {
    s.map_values(|e: (WidgetOption, Seq<char>)| (option_key(e.0), e.1))
}

/// The widget URL of a builder: `None` where the URL cannot be built.
pub open spec fn widget_result(p: WidgetParams) -> Option<Seq<char>> {
    url_with_params(widget_url(p.bot_id), option_pairs(p.options))
}

/// What `build` returns for the state `p`: the URL, or an `InvalidUrl` error.
pub open spec fn build_matches(p: WidgetParams, r: Result<String>) -> bool {
    match r {
        Ok(s) => widget_result(p) == Some(s@),
        Err(e) => widget_result(p) is None && kind_of(e) == ErrorKind::InvalidUrl,
    }
}

proof fn lemma_set_option_found(s: OptionSeq, o: WidgetOption, v: Seq<char>, i: int)
    requires
        0 <= i < s.len(),
        s[i].0 == o,
        forall|j: int| 0 <= j < i ==> s[j].0 != o,
    ensures
        set_option(s, o, v) == s.update(i, (o, v)),
    decreases s.len(),
{
    if i == 0 {
        assert(set_option(s, o, v) =~= s.update(i, (o, v)));
    } else {
        lemma_set_option_found(s.skip(1), o, v, i - 1);
        assert(set_option(s, o, v) =~= s.update(i, (o, v)));
    }
}

proof fn lemma_set_option_new(s: OptionSeq, o: WidgetOption, v: Seq<char>)
    requires
        forall|j: int| 0 <= j < s.len() ==> s[j].0 != o,
    ensures
        set_option(s, o, v) == s.push((o, v)),
    decreases s.len(),
{
    if s.len() == 0 {
        assert(set_option(s, o, v) =~= s.push((o, v)));
    } else {
        lemma_set_option_new(s.skip(1), o, v);
        assert(set_option(s, o, v) =~= s.push((o, v)));
    }
}

/// Setting an option keeps every option at most once.
pub proof fn lemma_set_option_unique(s: OptionSeq, o: WidgetOption, v: Seq<char>)
    requires
        options_unique(s),
    ensures
        options_unique(set_option(s, o, v)),
{
    if exists|i: int| 0 <= i < s.len() && s[i].0 == o {
        let i = choose|i: int| 0 <= i < s.len() && s[i].0 == o;
        assert forall|j: int| 0 <= j < i implies s[j].0 != o by {
            if s[j].0 == o {
                assert(s[j].0 == s[i].0);
            }
        }
        lemma_set_option_found(s, o, v, i);
    } else {
        lemma_set_option_new(s, o, v);
    }
}

/// A widget of either size: the bot and its options.
#[derive(Debug)]
struct Widget {
    bot_id: u64,
    params: Vec<(WidgetOption, String)>,
}

/// The view of the executable options of a widget.
spec fn params_view(p: Seq<(WidgetOption, String)>) -> OptionSeq {
    p.map_values(|e: (WidgetOption, String)| (e.0, e.1@))
}

impl View for Widget {
    type V = WidgetParams;

    closed spec fn view(&self) -> WidgetParams {
        WidgetParams { bot_id: self.bot_id as nat, options: params_view(self.params@) }
    }
}

impl Widget {
    /// A widget holds each option at most once.
    #[verifier::type_invariant]
    spec fn options_are_unique(self) -> bool {
        options_unique(params_view(self.params@))
    }

    fn new(bot_id: u64) -> (r: Self)
        ensures
            r@ == (WidgetParams { bot_id: bot_id as nat, options: seq![] }),
    {
        let r = Widget { bot_id, params: Vec::new() };
        assert(r@.options =~= seq![]);
        r
    }

    fn build(self) -> (r: Result<String>)
        ensures
            build_matches(self@, r),
    {
        let uri = endpoints::widget(self.bot_id);
        let mut pairs: Vec<(&'static str, String)> = Vec::new();
        let mut i: usize = 0;
        while i < self.params.len()
            invariant
                i <= self.params.len(),
                pairs_view(pairs@)
                    =~= option_pairs(self@.options).subrange(0, i as int),
            decreases self.params.len() - i,
        {
            let (o, v) = &self.params[i];
            let key = o.key();
            let value = v.clone();
            assert(self@.options[i as int] == (*o, v@));
            assert(option_pairs(self@.options)[i as int] == (key@, value@));
            let ghost before = pairs@;
            pairs.push((key, value));
            assert(pairs_view(pairs@) =~= pairs_view(before).push((key@, value@)));
            i = i + 1;
            assert(pairs_view(pairs@)
                =~= option_pairs(self@.options).subrange(0, i as int));
        }
        assert(option_pairs(self@.options).subrange(0, i as int) =~= option_pairs(self@.options));
        match parse_with_params(uri.as_str(), pairs) {
            Ok(s) => Ok(s),
            Err(e) => Err(ApiError::from(e)),
        }
    }

    fn insert(&mut self, k: WidgetOption, v: &str) -> (r: &mut Self)
        ensures
            r@ == (WidgetParams { options: set_option(old(self)@.options, k, v@), ..old(self)@ }),
            *final(self) == *final(r),
    {
        self._insert(k, String::from_str(v))
    }

    fn _insert(&mut self, k: WidgetOption, v: String) -> (r: &mut Self)
        ensures
            r@ == (WidgetParams { options: set_option(old(self)@.options, k, v@), ..old(self)@ }),
            *final(self) == *final(r),
    {
        proof {
            use_type_invariant(&*self);
        }
        let ghost s = self@.options;
        let ghost v_view = v@;
        let mut params: Vec<(WidgetOption, String)> = Vec::new();
        std::mem::swap(&mut params, &mut self.params);
        assert(params_view(params@) == s);
        let mut i: usize = 0;
        let mut found = false;
        loop
            invariant_except_break
                !found,
            invariant
                i <= params.len(),
                params_view(params@) == s,
                forall|j: int| 0 <= j < i ==> s[j].0 != k,
            ensures
                params_view(params@) == s,
                forall|j: int| 0 <= j < i ==> s[j].0 != k,
                found ==> i < params.len() && s[i as int].0 == k,
                !found ==> i == params.len(),
            decreases params.len() - i,
        {
            if i >= params.len() {
                break;
            }
            if params[i].0 == k {
                found = true;
                break;
            }
            i = i + 1;
        }
        proof {
            lemma_set_option_unique(s, k, v_view);
        }
        if found {
            params.set(i, (k, v));
            proof {
                lemma_set_option_found(s, k, v_view, i as int);
                assert(params_view(params@) =~= s.update(i as int, (k, v_view)));
            }
        } else {
            params.push((k, v));
            proof {
                lemma_set_option_new(s, k, v_view);
                assert(params_view(params@) =~= s.push((k, v_view)));
            }
        }
        self.params = params;
        self
    }
}

/// Builder of the URL of a large widget.
#[derive(Debug)]
pub struct LargeWidget(Widget);

impl View for LargeWidget {
    type V = WidgetParams;

    closed spec fn view(&self) -> WidgetParams {
        self.0@
    }
}

impl LargeWidget {
    /// Creates a new builder for a large widget of the bot `bot_id`, with no
    /// option set.
    pub fn new(bot_id: u64) -> (r: Self)
        ensures
            r@ == (WidgetParams { bot_id: bot_id as nat, options: seq![] }),
            options_unique(r@.options),
    {
        LargeWidget(Widget::new(bot_id))
    }

    /// Builds into a valid URL: the widget's endpoint with each option set as
    /// a query parameter.
    ///
    /// Returns an `InvalidUrl` error if the URL cannot be built.
    pub fn build(self) -> (r: Result<String>)
        ensures
            build_matches(self@, r),
    {
        self.0.build()
    }

    /// Sets the top color of the widget.
    pub fn top_color(&mut self, value: &str) -> (r: &mut Self)
        ensures
            r@ == (WidgetParams {
                options: set_option(old(self)@.options, WidgetOption::TopColor, value@),
                ..old(self)@
            }),
            options_unique(r@.options),
            *final(self) == *final(r),
    {
        proof {
            use_type_invariant(&self.0);
            lemma_set_option_unique(self.0@.options, WidgetOption::TopColor, value@);
        }
        self.0.insert(WidgetOption::TopColor, value);
        self
    }

    /// Sets the middle color of the widget.
    pub fn middle_color(&mut self, value: &str) -> (r: &mut Self)
        ensures
            r@ == (WidgetParams {
                options: set_option(old(self)@.options, WidgetOption::MiddleColor, value@),
                ..old(self)@
            }),
            options_unique(r@.options),
            *final(self) == *final(r),
    {
        proof {
            use_type_invariant(&self.0);
            lemma_set_option_unique(self.0@.options, WidgetOption::MiddleColor, value@);
        }
        self.0.insert(WidgetOption::MiddleColor, value);
        self
    }

    /// Sets the username color of the widget.
    pub fn username_color(&mut self, value: &str) -> (r: &mut Self)
        ensures
            r@ == (WidgetParams {
                options: set_option(old(self)@.options, WidgetOption::UsernameColor, value@),
                ..old(self)@
            }),
            options_unique(r@.options),
            *final(self) == *final(r),
    {
        proof {
            use_type_invariant(&self.0);
            lemma_set_option_unique(self.0@.options, WidgetOption::UsernameColor, value@);
        }
        self.0.insert(WidgetOption::UsernameColor, value);
        self
    }

    /// Sets the certified color of the widget.
    pub fn certified_color(&mut self, value: &str) -> (r: &mut Self)
        ensures
            r@ == (WidgetParams {
                options: set_option(old(self)@.options, WidgetOption::CertifiedColor, value@),
                ..old(self)@
            }),
            options_unique(r@.options),
            *final(self) == *final(r),
    {
        proof {
            use_type_invariant(&self.0);
            lemma_set_option_unique(self.0@.options, WidgetOption::CertifiedColor, value@);
        }
        self.0.insert(WidgetOption::CertifiedColor, value);
        self
    }

    /// Sets the data color of the widget.
    pub fn data_color(&mut self, value: &str) -> (r: &mut Self)
        ensures
            r@ == (WidgetParams {
                options: set_option(old(self)@.options, WidgetOption::DataColor, value@),
                ..old(self)@
            }),
            options_unique(r@.options),
            *final(self) == *final(r),
    {
        proof {
            use_type_invariant(&self.0);
            lemma_set_option_unique(self.0@.options, WidgetOption::DataColor, value@);
        }
        self.0.insert(WidgetOption::DataColor, value);
        self
    }

    /// Sets the label color of the widget.
    pub fn label_color(&mut self, value: &str) -> (r: &mut Self)
        ensures
            r@ == (WidgetParams {
                options: set_option(old(self)@.options, WidgetOption::LabelColor, value@),
                ..old(self)@
            }),
            options_unique(r@.options),
            *final(self) == *final(r),
    {
        proof {
            use_type_invariant(&self.0);
            lemma_set_option_unique(self.0@.options, WidgetOption::LabelColor, value@);
        }
        self.0.insert(WidgetOption::LabelColor, value);
        self
    }
}

/// Builder of the URL of a small widget.
#[derive(Debug)]
pub struct SmallWidget(Widget);

impl View for SmallWidget {
    type V = WidgetParams;

    closed spec fn view(&self) -> WidgetParams {
        self.0@
    }
}

impl SmallWidget {
    /// Creates a new builder for a small widget of the bot `bot_id`, with no
    /// option set.
    pub fn new(bot_id: u64) -> (r: Self)
        ensures
            r@ == (WidgetParams { bot_id: bot_id as nat, options: seq![] }),
            options_unique(r@.options),
    {
        SmallWidget(Widget::new(bot_id))
    }

    /// Builds into a valid URL: the widget's endpoint with each option set as
    /// a query parameter.
    ///
    /// Returns an `InvalidUrl` error if the URL cannot be built.
    pub fn build(self) -> (r: Result<String>)
        ensures
            build_matches(self@, r),
    {
        self.0.build()
    }

    /// Sets the avatar background color of the widget.
    pub fn avatar_background(&mut self, value: &str) -> (r: &mut Self)
        ensures
            r@ == (WidgetParams {
                options: set_option(old(self)@.options, WidgetOption::AvatarBackground, value@),
                ..old(self)@
            }),
            options_unique(r@.options),
            *final(self) == *final(r),
    {
        proof {
            use_type_invariant(&self.0);
            lemma_set_option_unique(self.0@.options, WidgetOption::AvatarBackground, value@);
        }
        self.0.insert(WidgetOption::AvatarBackground, value);
        self
    }

    /// Sets the left color of the widget.
    pub fn left_color(&mut self, value: &str) -> (r: &mut Self)
        ensures
            r@ == (WidgetParams {
                options: set_option(old(self)@.options, WidgetOption::LeftColor, value@),
                ..old(self)@
            }),
            options_unique(r@.options),
            *final(self) == *final(r),
    {
        proof {
            use_type_invariant(&self.0);
            lemma_set_option_unique(self.0@.options, WidgetOption::LeftColor, value@);
        }
        self.0.insert(WidgetOption::LeftColor, value);
        self
    }

    /// Sets the left text color of the widget.
    pub fn left_text_color(&mut self, value: &str) -> (r: &mut Self)
        ensures
            r@ == (WidgetParams {
                options: set_option(old(self)@.options, WidgetOption::LeftTextColor, value@),
                ..old(self)@
            }),
            options_unique(r@.options),
            *final(self) == *final(r),
    {
        proof {
            use_type_invariant(&self.0);
            lemma_set_option_unique(self.0@.options, WidgetOption::LeftTextColor, value@);
        }
        self.0.insert(WidgetOption::LeftTextColor, value);
        self
    }

    /// Sets the right color of the widget.
    pub fn right_color(&mut self, value: &str) -> (r: &mut Self)
        ensures
            r@ == (WidgetParams {
                options: set_option(old(self)@.options, WidgetOption::RightColor, value@),
                ..old(self)@
            }),
            options_unique(r@.options),
            *final(self) == *final(r),
    {
        proof {
            use_type_invariant(&self.0);
            lemma_set_option_unique(self.0@.options, WidgetOption::RightColor, value@);
        }
        self.0.insert(WidgetOption::RightColor, value);
        self
    }

    /// Sets the right text color of the widget.
    pub fn right_text_color(&mut self, value: &str) -> (r: &mut Self)
        ensures
            r@ == (WidgetParams {
                options: set_option(old(self)@.options, WidgetOption::RightTextColor, value@),
                ..old(self)@
            }),
            options_unique(r@.options),
            *final(self) == *final(r),
    {
        proof {
            use_type_invariant(&self.0);
            lemma_set_option_unique(self.0@.options, WidgetOption::RightTextColor, value@);
        }
        self.0.insert(WidgetOption::RightTextColor, value);
        self
    }
}

} // verus!
