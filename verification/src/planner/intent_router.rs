use vstd::prelude::*;

use crate::planner::common::{normalize_query, normalized};
use crate::planner::query_text::{
    action_terms, collect_tokens, contains_impact_phrase, extract_action_terms, extract_subject_terms, glob_like,
    identifier, identifier_signal, impact_phrase, is_glob_like, is_identifier_segment, is_identifier_signal_token,
    is_natural_language_question, is_path_like, is_qualified_symbol_like, is_quoted_literal, is_regex_like,
    lowered_tokens, lowered_unique, natural_question, path_like, qualified_symbol_like, quoted_literal, raw_tokens,
    regex_like, split_symbol_segments, subject_terms, symbol_keyword, symbol_segments, words,
    contains_symbol_keyword,
};
use crate::planner::ranking::{ranked_sort, sort_ranked, Ranked};
use crate::planner::copy::copy_vec;
use crate::planner::ranking::lemma_ranked_sort_len;
use crate::planner::route_adapters::str_views;
use crate::planner::route_policy::contains_route;
use crate::planner::trust_payloads::push_joined;
use crate::planner::trust_payloads::join;
use crate::protocol::planner::{
    PlannerContextRef, PlannerExactMatchStyle, PlannerExactQueryIntent, PlannerImpactQueryIntent,
    PlannerModeDecision, PlannerModeSelectionSource,
    PlannerIntentSignal, PlannerMode, PlannerQueryFilters, PlannerQueryParams, PlannerQueryStyle, PlannerRouteKind,
    PlannerSemanticQueryIntent, PlannerSymbolQueryIntent,
};
use crate::text::{lower, str_chars, string_from_chars, to_ascii_lowercase, views};

verus! {

/// What the planner reads off a query's text.
#[derive(Debug, Clone, PartialEq, Eq)]
pub struct QueryFeatures {
    pub normalized: String,
    pub raw_tokens: Vec<String>,
    pub lowered_tokens: Vec<String>,
    pub signals: Vec<PlannerIntentSignal>,
    pub exact_query: Option<PlannerExactQueryIntent>,
    pub symbol_query: Option<PlannerSymbolQueryIntent>,
    pub semantic_query: Option<PlannerSemanticQueryIntent>,
    pub impact_query: Option<PlannerImpactQueryIntent>,
    pub identifier_like: bool,
    pub qualified_symbol_like: bool,
    pub path_like: bool,
    pub natural_language_question: bool,
    pub impact_phrase: bool,
    pub action_term_count: usize,
}

/// The first token that satisfies `p`.
pub open spec fn first_path_token(ts: Seq<Seq<char>>) -> Option<Seq<char>>
    decreases ts.len(),
{
    if ts.len() == 0 { None } else if path_like(ts[0]) { Some(ts[0]) } else { first_path_token(ts.drop_first()) }
}

/// The first token that looks like a qualified symbol.
pub open spec fn first_qualified_token(ts: Seq<Seq<char>>) -> Option<Seq<char>>
    decreases ts.len(),
{
    if ts.len() == 0 { None } else if qualified_symbol_like(ts[0]) { Some(ts[0]) } else { first_qualified_token(ts.drop_first()) }
}

/// The first token that looks like a code identifier.
pub open spec fn first_identifier_token(ts: Seq<Seq<char>>) -> Option<Seq<char>>
    decreases ts.len(),
{
    if ts.len() == 0 { None } else if identifier_signal(ts[0]) { Some(ts[0]) } else { first_identifier_token(ts.drop_first()) }
}

/// The tokens of a normalized query.
pub open spec fn tokens_of(n: Seq<char>) -> Seq<Seq<char>> {
    collect_tokens(words(n))
}

/// The path a query names for exact lookup, if it is not a regex, a quoted literal or a glob.
pub open spec fn exact_path_seed(n: Seq<char>) -> Option<Seq<char>> {
    if regex_like(n) || quoted_literal(n) || glob_like(n) {
        None
    } else if tokens_of(n).len() == 1 && path_like(n) {
        Some(n)
    } else {
        first_path_token(tokens_of(n))
    }
}

/// The identifier a query names, if any.
pub open spec fn identifier_seed(n: Seq<char>) -> Option<Seq<char>> {
    if tokens_of(n).len() == 1 && identifier(n) { Some(n) } else { first_identifier_token(tokens_of(n)) }
}

/// `s` without leading copies of `c`.
pub open spec fn strip_start(s: Seq<char>, c: char) -> Seq<char>
    decreases s.len(),
{
    if s.len() > 0 && s[0] == c { strip_start(s.drop_first(), c) } else { s }
}

/// `s` without trailing copies of `c`.
pub open spec fn strip_end(s: Seq<char>, c: char) -> Seq<char>
    decreases s.len(),
{
    if s.len() > 0 && s.last() == c { strip_end(s.drop_last(), c) } else { s }
}

/// The exact lookup a query asks for: its term and match style.
pub open spec fn exact_query_of(n: Seq<char>) -> Option<(Seq<char>, PlannerExactMatchStyle)> {
    if regex_like(n) {
        Some((strip_end(strip_start(n, '/'), '/'), PlannerExactMatchStyle::Regex))
    } else if quoted_literal(n) {
        Some((strip_end(strip_start(strip_end(strip_start(n, '"'), '"'), '\''), '\''), PlannerExactMatchStyle::Literal))
    } else if glob_like(n) {
        Some((n, PlannerExactMatchStyle::Glob))
    } else {
        match exact_path_seed(n) {
            Some(p) => Some((p, PlannerExactMatchStyle::Path)),
            None => None,
        }
    }
}

/// The symbol lookup a query asks for: the symbol and its segments.
pub open spec fn symbol_query_of(n: Seq<char>) -> Option<(Seq<char>, Seq<Seq<char>>)> {
    let seed = match first_qualified_token(tokens_of(n)) {
        Some(q) => Some(q),
        None => identifier_seed(n),
    };
    match seed {
        Some(s) => Some((s, if symbol_segments(s).len() == 0 { seq![s] } else { symbol_segments(s) })),
        None => None,
    }
}

/// Whether a query reads as a question.
pub open spec fn question_of(n: Seq<char>) -> bool {
    natural_question(lowered_unique(tokens_of(n)), lower(n))
}

/// The semantic lookup a query asks for: its text and lower-cased tokens.
pub open spec fn semantic_query_of(n: Seq<char>) -> Option<(Seq<char>, Seq<Seq<char>>)> {
    if !question_of(n) && lowered_unique(tokens_of(n)).len() < 3 {
        None
    } else {
        Some((n, lowered_unique(tokens_of(n))))
    }
}

/// The impact analysis a query asks for: its text, action terms and subject terms.
pub open spec fn impact_query_of(n: Seq<char>) -> Option<(Seq<char>, Seq<Seq<char>>, Seq<Seq<char>>)> {
    if !impact_phrase(lower(n)) && action_terms(tokens_of(n)).len() == 0 {
        None
    } else {
        Some((n, action_terms(tokens_of(n)), subject_terms(tokens_of(n))))
    }
}

/// `s` with `x` appended when `cond` holds.
pub open spec fn push_if(s: Seq<PlannerIntentSignal>, cond: bool, x: PlannerIntentSignal) -> Seq<PlannerIntentSignal> {
    if cond && !s.contains(x) { s.push(x) } else { s }
}

/// The signals a query's text gives, in a fixed order.
pub open spec fn text_signals(n: Seq<char>) -> Seq<PlannerIntentSignal> {
    let s0 = Seq::<PlannerIntentSignal>::empty();
    let s1 = push_if(s0, regex_like(n), PlannerIntentSignal::RegexLike);
    let s2 = push_if(s1, quoted_literal(n), PlannerIntentSignal::QuotedLiteral);
    let s3 = push_if(s2, exact_path_seed(n) is Some, PlannerIntentSignal::PathLike);
    let s4 = push_if(s3, glob_like(n), PlannerIntentSignal::GlobLike);
    let s5 = push_if(s4, identifier_seed(n) is Some, PlannerIntentSignal::IdentifierLike);
    let s6 = push_if(s5, first_qualified_token(tokens_of(n)) is Some, PlannerIntentSignal::QualifiedSymbolLike);
    let s7 = push_if(s6, question_of(n), PlannerIntentSignal::NaturalLanguageQuestion);
    let s8 = push_if(s7, lowered_unique(tokens_of(n)).len() >= 3, PlannerIntentSignal::MultiTokenQuery);
    push_if(s8, impact_phrase(lower(n)) || action_terms(tokens_of(n)).len() > 0, PlannerIntentSignal::ImpactPhrase)
}

/// Whether an exact-lookup intent is the one described.
pub open spec fn exact_is(q: Option<PlannerExactQueryIntent>, m: Option<(Seq<char>, PlannerExactMatchStyle)>) -> bool {
    match (q, m) {
        (Some(q), Some(m)) => q.normalized_term@ == m.0 && q.match_style == m.1,
        (None, None) => true,
        _ => false,
    }
}

/// Whether a symbol-lookup intent is the one described.
pub open spec fn symbol_is(q: Option<PlannerSymbolQueryIntent>, m: Option<(Seq<char>, Seq<Seq<char>>)>) -> bool {
    match (q, m) {
        (Some(q), Some(m)) => q.normalized_symbol@ == m.0 && views(q.segments@) == m.1,
        (None, None) => true,
        _ => false,
    }
}

/// Whether a semantic-lookup intent is the one described.
pub open spec fn semantic_is(q: Option<PlannerSemanticQueryIntent>, m: Option<(Seq<char>, Seq<Seq<char>>)>) -> bool {
    match (q, m) {
        (Some(q), Some(m)) => q.normalized_text@ == m.0 && views(q.tokens@) == m.1,
        (None, None) => true,
        _ => false,
    }
}

/// Whether an impact intent is the one described.
pub open spec fn impact_is(q: Option<PlannerImpactQueryIntent>, m: Option<(Seq<char>, Seq<Seq<char>>, Seq<Seq<char>>)>) -> bool {
    match (q, m) {
        (Some(q), Some(m)) => q.normalized_text@ == m.0 && views(q.action_terms@) == m.1 && views(q.subject_terms@) == m.2,
        (None, None) => true,
        _ => false,
    }
}

/// Whether `f` holds the features of the raw query text `raw`.
pub open spec fn features_of(f: QueryFeatures, raw: Seq<char>) -> bool {
    let n = normalized(raw);
    &&& f.normalized@ == n
    &&& views(f.raw_tokens@) == tokens_of(n)
    &&& views(f.lowered_tokens@) == lowered_unique(tokens_of(n))
    &&& f.signals@ == text_signals(n)
    &&& exact_is(f.exact_query, exact_query_of(n))
    &&& symbol_is(f.symbol_query, symbol_query_of(n))
    &&& semantic_is(f.semantic_query, semantic_query_of(n))
    &&& impact_is(f.impact_query, impact_query_of(n))
    &&& f.identifier_like == identifier_seed(n) is Some
    &&& f.qualified_symbol_like == first_qualified_token(tokens_of(n)) is Some
    &&& f.path_like == exact_path_seed(n) is Some
    &&& f.natural_language_question == question_of(n)
    &&& f.impact_phrase == impact_phrase(lower(n))
    &&& f.action_term_count == action_terms(tokens_of(n)).len()
}

fn find_first_path(ts: &Vec<String>) -> (r: Option<String>)
    ensures
        opt_seq(r) == first_path_token(views(ts@)),
{
    let ghost tv = views(ts@);
    let mut i: usize = 0;
    assert(tv.subrange(0, tv.len() as int) =~= tv);
    while i < ts.len()
        invariant
            0 <= i <= ts@.len(),
            tv == views(ts@),
            first_path_token(tv) == first_path_token(tv.subrange(i as int, tv.len() as int)),
        decreases ts@.len() - i,
    {
        let ghost rest = tv.subrange(i as int, tv.len() as int);
        assert(rest[0] == ts@[i as int]@);
        assert(rest.drop_first() =~= tv.subrange(i + 1, tv.len() as int));
        if is_path_like(ts[i].as_str()) {
            return Some(ts[i].clone());
        }
        i = i + 1;
    }
    None
}

fn find_first_qualified(ts: &Vec<String>) -> (r: Option<String>)
    ensures
        opt_seq(r) == first_qualified_token(views(ts@)),
{
    let ghost tv = views(ts@);
    let mut i: usize = 0;
    assert(tv.subrange(0, tv.len() as int) =~= tv);
    while i < ts.len()
        invariant
            0 <= i <= ts@.len(),
            tv == views(ts@),
            first_qualified_token(tv) == first_qualified_token(tv.subrange(i as int, tv.len() as int)),
        decreases ts@.len() - i,
    {
        let ghost rest = tv.subrange(i as int, tv.len() as int);
        assert(rest[0] == ts@[i as int]@);
        assert(rest.drop_first() =~= tv.subrange(i + 1, tv.len() as int));
        if is_qualified_symbol_like(ts[i].as_str()) {
            return Some(ts[i].clone());
        }
        i = i + 1;
    }
    None
}

fn find_first_identifier(ts: &Vec<String>) -> (r: Option<String>)
    ensures
        opt_seq(r) == first_identifier_token(views(ts@)),
{
    let ghost tv = views(ts@);
    let mut i: usize = 0;
    assert(tv.subrange(0, tv.len() as int) =~= tv);
    while i < ts.len()
        invariant
            0 <= i <= ts@.len(),
            tv == views(ts@),
            first_identifier_token(tv) == first_identifier_token(tv.subrange(i as int, tv.len() as int)),
        decreases ts@.len() - i,
    {
        let ghost rest = tv.subrange(i as int, tv.len() as int);
        assert(rest[0] == ts@[i as int]@);
        assert(rest.drop_first() =~= tv.subrange(i + 1, tv.len() as int));
        if is_identifier_signal_token(ts[i].as_str()) {
            return Some(ts[i].clone());
        }
        i = i + 1;
    }
    None
}

/// The view of an optional string.
pub open spec fn opt_seq(o: Option<String>) -> Option<Seq<char>> {
    match o {
        Some(s) => Some(s@),
        None => None,
    }
}

fn strip_chars(s: &str, c: char, front: bool, back: bool) -> (r: String)
    ensures
        r@ == (if front && back { strip_end(strip_start(s@, c), c) } else if front { strip_start(s@, c) } else if back {
            strip_end(s@, c)
        } else {
            s@
        }),
{
    let v = str_chars(s);
    let n = v.len();
    let mut start: usize = 0;
    assert(s@.subrange(0, n as int) =~= s@);
    while front && start < n && v[start] == c
        invariant
            0 <= start <= n,
            n == v@.len(),
            v@ == s@,
            front ==> strip_start(s@, c) == strip_start(s@.subrange(start as int, n as int), c),
            !front ==> start == 0,
        decreases n - start,
    {
        assert(s@.subrange(start as int, n as int).drop_first() =~= s@.subrange(start + 1, n as int));
        start = start + 1;
    }
    let ghost mid = s@.subrange(start as int, n as int);
    let mut end: usize = n;
    assert(mid.subrange(0, mid.len() as int) =~= mid);
    while back && end > start && v[end - 1] == c
        invariant
            start <= end <= n,
            n == v@.len(),
            v@ == s@,
            mid == s@.subrange(start as int, n as int),
            back ==> strip_end(mid, c) == strip_end(s@.subrange(start as int, end as int), c),
            !back ==> end == n,
        decreases end,
    {
        assert(s@.subrange(start as int, end as int).drop_last() =~= s@.subrange(start as int, end - 1));
        end = end - 1;
    }
    let mut out: Vec<char> = Vec::new();
    let mut k: usize = start;
    while k < end
        invariant
            start <= k <= end,
            end <= n,
            n == v@.len(),
            v@ == s@,
            out@ == s@.subrange(start as int, k as int),
        decreases end - k,
    {
        out.push(v[k]);
        assert(s@.subrange(start as int, k + 1) =~= s@.subrange(start as int, k as int).push(s@[k as int]));
        k = k + 1;
    }
    let ghost fin = s@.subrange(start as int, end as int);
    proof {
        if front {
            if start < n {
                assert(mid[0] == s@[start as int]);
            }
            assert(strip_start(mid, c) == mid);
        } else {
            assert(mid =~= s@);
        }
        if back {
            if end > start {
                assert(fin.last() == s@[end - 1]);
            }
            assert(strip_end(fin, c) == fin);
        } else {
            assert(fin =~= mid);
        }
    }
    string_from_chars(&out)
}

fn push_signal_if(signals: &mut Vec<PlannerIntentSignal>, cond: bool, signal: PlannerIntentSignal)
    ensures
        final(signals)@ == push_if(old(signals)@, cond, signal),
{
    if cond && !contains_signal_in(signals, signal) {
        signals.push(signal);
    }
}

/// Whether `signals` holds `signal`.
pub fn contains_signal_in(signals: &Vec<PlannerIntentSignal>, signal: PlannerIntentSignal) -> (r: bool)
    ensures
        r == signals@.contains(signal),
{
    let mut i: usize = 0;
    while i < signals.len()
        invariant
            0 <= i <= signals@.len(),
            forall|k: int| 0 <= k < i ==> signals@[k] != signal,
        decreases signals@.len() - i,
    {
        if signals[i] == signal {
            assert(signals@[i as int] == signal);
            return true;
        }
        i = i + 1;
    }
    false
}

/// Reads the features off a query's text.
pub fn extract_features(raw_query: &str) -> (f: QueryFeatures)
    ensures
        features_of(f, raw_query@),
{
    let normalized_text = normalize_query(raw_query);
    let ghost n = normalized_text@;
    let n_str = normalized_text.as_str();
    let raw = raw_tokens(n_str);
    let lowered = to_ascii_lowercase(n_str);
    let lowered_toks = lowered_tokens(&raw);
    let regex = is_regex_like(n_str);
    let quoted = is_quoted_literal(n_str);
    let glob = is_glob_like(n_str);
    let path_seed: Option<String> = if regex || quoted || glob {
        None
    } else if raw.len() == 1 && is_path_like(n_str) {
        Some(normalized_text.clone())
    } else {
        find_first_path(&raw)
    };
    let path_like = path_seed.is_some();
    let qualified_seed = find_first_qualified(&raw);
    let identifier_seed_v: Option<String> = if raw.len() == 1 && is_identifier_segment(n_str) {
        Some(normalized_text.clone())
    } else {
        find_first_identifier(&raw)
    };
    let qualified_like = qualified_seed.is_some();
    let identifier_like = identifier_seed_v.is_some();
    let question = is_natural_language_question(&lowered_toks, lowered.as_str());
    let impact = contains_impact_phrase(lowered.as_str());
    let actions = extract_action_terms(&raw);
    let subjects = extract_subject_terms(&raw);

    let exact_query = if regex {
        Some(PlannerExactQueryIntent { normalized_term: strip_chars(n_str, '/', true, true), match_style: PlannerExactMatchStyle::Regex })
    } else if quoted {
        let once = strip_chars(n_str, '"', true, true);
        Some(PlannerExactQueryIntent { normalized_term: strip_chars(once.as_str(), '\'', true, true), match_style: PlannerExactMatchStyle::Literal })
    } else if glob {
        Some(PlannerExactQueryIntent { normalized_term: normalized_text.clone(), match_style: PlannerExactMatchStyle::Glob })
    } else {
        match &path_seed {
            Some(p) => Some(PlannerExactQueryIntent { normalized_term: p.clone(), match_style: PlannerExactMatchStyle::Path }),
            None => None,
        }
    };

    let seed: Option<String> = match qualified_seed {
        Some(q) => Some(q),
        None => identifier_seed_v,
    };
    let symbol_query = match seed {
        Some(s) => {
            let segs = split_symbol_segments(s.as_str());
            let segments = if segs.len() == 0 {
                let v = vec![s.clone()];
                assert(views(v@) =~= seq![s@]);
                v
            } else {
                segs
            };
            Some(PlannerSymbolQueryIntent { normalized_symbol: s, segments })
        },
        None => None,
    };

    let semantic_query = if !question && lowered_toks.len() < 3 {
        None
    } else {
        Some(PlannerSemanticQueryIntent { normalized_text: normalized_text.clone(), tokens: lowered_toks.clone() })
    };
    let impact_query = if !impact && actions.len() == 0 {
        None
    } else {
        Some(PlannerImpactQueryIntent { normalized_text: normalized_text.clone(), action_terms: actions.clone(), subject_terms: subjects })
    };

    let mut signals: Vec<PlannerIntentSignal> = Vec::new();
    push_signal_if(&mut signals, regex, PlannerIntentSignal::RegexLike);
    push_signal_if(&mut signals, quoted, PlannerIntentSignal::QuotedLiteral);
    push_signal_if(&mut signals, path_like, PlannerIntentSignal::PathLike);
    push_signal_if(&mut signals, glob, PlannerIntentSignal::GlobLike);
    push_signal_if(&mut signals, identifier_like, PlannerIntentSignal::IdentifierLike);
    push_signal_if(&mut signals, qualified_like, PlannerIntentSignal::QualifiedSymbolLike);
    push_signal_if(&mut signals, question, PlannerIntentSignal::NaturalLanguageQuestion);
    push_signal_if(&mut signals, lowered_toks.len() >= 3, PlannerIntentSignal::MultiTokenQuery);
    push_signal_if(&mut signals, impact || actions.len() > 0, PlannerIntentSignal::ImpactPhrase);

    let action_count = actions.len();
    QueryFeatures {
        normalized: normalized_text,
        raw_tokens: raw,
        lowered_tokens: lowered_toks,
        signals,
        exact_query,
        symbol_query,
        semantic_query,
        impact_query,
        identifier_like,
        qualified_symbol_like: qualified_like,
        path_like,
        natural_language_question: question,
        impact_phrase: impact,
        action_term_count: action_count,
    }
}

/// A query style and its score.
#[derive(Debug, Clone, Copy, PartialEq, Eq, Structural)]
pub struct ScoredStyle {
    pub style: PlannerQueryStyle,
    pub score: u32,
}

/// The tie-break rank of a style: impact, exact, symbol, semantic.
pub open spec fn style_rank(style: PlannerQueryStyle) -> u32 {
    match style {
        PlannerQueryStyle::ImpactAnalysis => 0,
        PlannerQueryStyle::ExactLookup => 1,
        PlannerQueryStyle::SymbolLookup => 2,
        PlannerQueryStyle::SemanticLookup => 3,
    }
}

impl Ranked for ScoredStyle {
    /// Higher score first, then the style that ranks first on ties.
    open spec fn ranks_before(a: Self, b: Self) -> bool {
        a.score > b.score || (a.score == b.score && style_rank(a.style) < style_rank(b.style))
    }

    fn before(&self, other: &Self) -> (r: bool) {
        self.score > other.score || (self.score == other.score && style_priority(self.style) < style_priority(other.style))
    }
}

/// The tie-break rank of a style.
pub fn style_priority(style: PlannerQueryStyle) -> (r: u32)
    ensures
        r == style_rank(style),
{
    match style {
        PlannerQueryStyle::ImpactAnalysis => 0,
        PlannerQueryStyle::ExactLookup => 1,
        PlannerQueryStyle::SymbolLookup => 2,
        PlannerQueryStyle::SemanticLookup => 3,
    }
}

/// A style's score and the reasons that raised it.
#[derive(Debug, Clone, PartialEq, Eq)]
pub struct StyleScore {
    pub style: PlannerQueryStyle,
    pub score: u32,
    pub reasons: Vec<String>,
}

impl StyleScore {
    /// A style with no score yet.
    pub fn new(style: PlannerQueryStyle) -> (r: Self)
        ensures
            r.style == style,
            r.score == 0,
            r.reasons@.len() == 0,
    {
        StyleScore { style, score: 0, reasons: Vec::new() }
    }

    /// Raises the score by `score` and records why.
    pub fn add(&mut self, score: u32, reason: &str)
        requires
            old(self).score + score <= u32::MAX,
        ensures
            final(self).style == old(self).style,
            final(self).score == old(self).score + score,
            views(final(self).reasons@) == views(old(self).reasons@).push(reason@),
    {
        self.score = self.score + score;
        let ghost before = self.reasons@;
        self.reasons.push(reason.to_owned());
        assert(views(self.reasons@) =~= views(before).push(reason@));
    }
}

/// How a selected context shifts the scores.
#[derive(Debug, Clone, Copy, PartialEq, Eq)]
pub struct ContextBias {
    pub signal: PlannerIntentSignal,
    pub symbol_score: u32,
    pub semantic_score: u32,
    pub impact_score: u32,
    pub reason: &'static str,
}

/// The bias a selected context gives: its signal, its three scores and its reason.
pub open spec fn context_bias(context: Option<PlannerContextRef>) -> Option<(PlannerIntentSignal, u32, u32, u32, Seq<char>)> {
    match context {
        Some(PlannerContextRef::Symbol { .. }) => Some((PlannerIntentSignal::SelectedSymbolContext, 2, 0, 1,
            "selected symbol context biases routing toward grounded symbol or impact plans"@)),
        Some(PlannerContextRef::File { .. }) => Some((PlannerIntentSignal::SelectedFileContext, 1, 1, 1,
            "selected file context narrows the planner search space"@)),
        Some(PlannerContextRef::Span { .. }) => Some((PlannerIntentSignal::SelectedSpanContext, 1, 1, 0,
            "selected span context narrows the planner search space"@)),
        Some(PlannerContextRef::Package { .. }) => Some((PlannerIntentSignal::SelectedPackageContext, 0, 1, 0,
            "selected package context keeps semantic lookup scoped"@)),
        Some(PlannerContextRef::Workspace { .. }) => Some((PlannerIntentSignal::SelectedWorkspaceContext, 0, 1, 0,
            "selected workspace context keeps semantic lookup scoped"@)),
        Some(PlannerContextRef::Impact { .. }) => Some((PlannerIntentSignal::SelectedImpactContext, 0, 0, 3,
            "selected impact context strongly biases routing toward impact analysis"@)),
        None => None,
    }
}

/// The bias a selected context gives.
pub fn selected_context_bias(context: &Option<PlannerContextRef>) -> (r: Option<ContextBias>)
    ensures
        match (r, context_bias(*context)) {
            (Some(b), Some(m)) => b.signal == m.0 && b.symbol_score == m.1 && b.semantic_score == m.2
                && b.impact_score == m.3 && b.reason@ == m.4,
            (None, None) => true,
            _ => false,
        },
{
    match context {
        Some(PlannerContextRef::Symbol { .. }) => Some(ContextBias {
            signal: PlannerIntentSignal::SelectedSymbolContext,
            symbol_score: 2,
            semantic_score: 0,
            impact_score: 1,
            reason: "selected symbol context biases routing toward grounded symbol or impact plans",
        }),
        Some(PlannerContextRef::File { .. }) => Some(ContextBias {
            signal: PlannerIntentSignal::SelectedFileContext,
            symbol_score: 1,
            semantic_score: 1,
            impact_score: 1,
            reason: "selected file context narrows the planner search space",
        }),
        Some(PlannerContextRef::Span { .. }) => Some(ContextBias {
            signal: PlannerIntentSignal::SelectedSpanContext,
            symbol_score: 1,
            semantic_score: 1,
            impact_score: 0,
            reason: "selected span context narrows the planner search space",
        }),
        Some(PlannerContextRef::Package { .. }) => Some(ContextBias {
            signal: PlannerIntentSignal::SelectedPackageContext,
            symbol_score: 0,
            semantic_score: 1,
            impact_score: 0,
            reason: "selected package context keeps semantic lookup scoped",
        }),
        Some(PlannerContextRef::Workspace { .. }) => Some(ContextBias {
            signal: PlannerIntentSignal::SelectedWorkspaceContext,
            symbol_score: 0,
            semantic_score: 1,
            impact_score: 0,
            reason: "selected workspace context keeps semantic lookup scoped",
        }),
        Some(PlannerContextRef::Impact { .. }) => Some(ContextBias {
            signal: PlannerIntentSignal::SelectedImpactContext,
            symbol_score: 0,
            semantic_score: 0,
            impact_score: 3,
            reason: "selected impact context strongly biases routing toward impact analysis",
        }),
        None => None,
    }
}

/// Whether the query sets no filter.
pub open spec fn no_filters(f: PlannerQueryFilters) -> bool {
    f.path_globs@.len() == 0 && f.package_names@.len() == 0 && f.package_roots@.len() == 0
        && f.workspace_roots@.len() == 0 && f.languages@.len() == 0 && f.extensions@.len() == 0
        && f.symbol_kinds@.len() == 0
}

/// Whether the query sets no filter.
pub fn filters_are_empty(f: &PlannerQueryFilters) -> (r: bool)
    ensures
        r == no_filters(*f),
{
    f.path_globs.len() == 0 && f.package_names.len() == 0 && f.package_roots.len() == 0
        && f.workspace_roots.len() == 0 && f.languages.len() == 0 && f.extensions.len() == 0
        && f.symbol_kinds.len() == 0
}

/// A score and its reasons, raised by `points` with `reason` when `cond` holds.
pub open spec fn bump(s: (nat, Seq<Seq<char>>), cond: bool, points: nat, reason: Seq<char>) -> (nat, Seq<Seq<char>>) {
    if cond { (s.0 + points, s.1.push(reason)) } else { s }
}

/// The reason an exact-looking query gives.
pub open spec fn exact_reason(style: PlannerExactMatchStyle) -> Seq<char> {
    match style {
        PlannerExactMatchStyle::Regex => "regex-like delimiters imply exact-style lookup"@,
        PlannerExactMatchStyle::Literal => "quoted literals imply exact-style lookup"@,
        PlannerExactMatchStyle::Path => "path-like text implies exact-style lookup"@,
        PlannerExactMatchStyle::Glob => "glob syntax implies exact-style lookup"@,
    }
}

/// The exact-lookup score and reasons of a query.
pub open spec fn exact_score(n: Seq<char>) -> (nat, Seq<Seq<char>>) {
    match exact_query_of(n) {
        Some(q) => (6, seq![exact_reason(q.1)]),
        None => (0, seq![]),
    }
}

/// The symbol-lookup score and reasons of a query.
pub open spec fn symbol_score(params: PlannerQueryParams, n: Seq<char>) -> (nat, Seq<Seq<char>>) {
    let qualified = first_qualified_token(tokens_of(n)) is Some;
    let ident = identifier_seed(n) is Some;
    let lowered = lowered_unique(tokens_of(n));
    let s0: (nat, Seq<Seq<char>>) = (0, seq![]);
    let s1 = if qualified {
        bump(s0, true, 6, "qualified symbol syntax implies symbol-style lookup"@)
    } else {
        bump(s0, ident, 4, "identifier-like text implies symbol-style lookup"@)
    };
    let s2 = bump(s1, exists|i: int| 0 <= i < lowered.len() && symbol_keyword(#[trigger] lowered[i]), 2,
        "symbol-oriented wording strengthens symbol-style lookup"@);
    let s3 = bump(s2, exact_path_seed(n) is Some, 1, "path-like text can still seed symbol lookup"@);
    let s4 = match context_bias(params.selected_context) {
        Some(b) => bump(s3, true, b.1 as nat, b.4),
        None => s3,
    };
    bump(s4, !no_filters(params.filters), 1, "explicit filters narrow the lookup scope deterministically"@)
}

/// The semantic-lookup score and reasons of a query.
pub open spec fn semantic_score(params: PlannerQueryParams, n: Seq<char>) -> (nat, Seq<Seq<char>>) {
    let s0: (nat, Seq<Seq<char>>) = (0, seq![]);
    let s1 = bump(s0, question_of(n), 4, "natural-language question wording implies semantic-style lookup"@);
    let s2 = bump(s1, lowered_unique(tokens_of(n)).len() >= 3, 2, "multi-token freeform text keeps semantic lookup viable"@);
    let s3 = bump(s2, !(identifier_seed(n) is Some) && !(first_qualified_token(tokens_of(n)) is Some)
        && !(exact_path_seed(n) is Some), 1, "no dominant identifier or path signal keeps semantic lookup as a fallback"@);
    match context_bias(params.selected_context) {
        Some(b) => bump(s3, true, b.2 as nat, b.4),
        None => s3,
    }
}

/// The impact-analysis score and reasons of a query.
pub open spec fn impact_score(params: PlannerQueryParams, n: Seq<char>) -> (nat, Seq<Seq<char>>) {
    let actions = action_terms(tokens_of(n)).len();
    let s0: (nat, Seq<Seq<char>>) = (0, seq![]);
    let s1 = bump(s0, impact_phrase(lower(n)), 6, "blast-radius wording implies impact-style lookup"@);
    let s2 = bump(s1, actions > 0, 6, "action-oriented wording implies impact-style lookup"@);
    let s3 = bump(s2, question_of(n) && actions > 0, 1,
        "question-form action queries can require impact analysis plus lookup fallbacks"@);
    let s4 = match context_bias(params.selected_context) {
        Some(b) => bump(s3, true, b.3 as nat, b.4),
        None => s3,
    };
    bump(s4, params.target_context is Some, 1, "explicit target context biases routing toward impact analysis"@)
}

/// The style a query falls back to when nothing scores: the default mode's, with `Auto`
/// read as semantic lookup.
pub open spec fn default_style(mode: PlannerMode) -> PlannerQueryStyle {
    match mode {
        PlannerMode::Auto => PlannerQueryStyle::SemanticLookup,
        PlannerMode::Exact => PlannerQueryStyle::ExactLookup,
        PlannerMode::Symbol => PlannerQueryStyle::SymbolLookup,
        PlannerMode::Semantic => PlannerQueryStyle::SemanticLookup,
        PlannerMode::Impact => PlannerQueryStyle::ImpactAnalysis,
    }
}

/// The mode a style runs in.
pub open spec fn mode_of_style(style: PlannerQueryStyle) -> PlannerMode {
    match style {
        PlannerQueryStyle::ExactLookup => PlannerMode::Exact,
        PlannerQueryStyle::SymbolLookup => PlannerMode::Symbol,
        PlannerQueryStyle::SemanticLookup => PlannerMode::Semantic,
        PlannerQueryStyle::ImpactAnalysis => PlannerMode::Impact,
    }
}

/// The label of a style.
pub open spec fn style_label(style: PlannerQueryStyle) -> Seq<char> {
    match style {
        PlannerQueryStyle::ExactLookup => "exact_lookup"@,
        PlannerQueryStyle::SymbolLookup => "symbol_lookup"@,
        PlannerQueryStyle::SemanticLookup => "semantic_lookup"@,
        PlannerQueryStyle::ImpactAnalysis => "impact_analysis"@,
    }
}

/// The four styles with their scores, in a fixed order.
pub open spec fn scored_styles(params: PlannerQueryParams, n: Seq<char>) -> Seq<ScoredStyle> {
    seq![
        ScoredStyle { style: PlannerQueryStyle::ExactLookup, score: exact_score(n).0 as u32 },
        ScoredStyle { style: PlannerQueryStyle::SymbolLookup, score: symbol_score(params, n).0 as u32 },
        ScoredStyle { style: PlannerQueryStyle::SemanticLookup, score: semantic_score(params, n).0 as u32 },
        ScoredStyle { style: PlannerQueryStyle::ImpactAnalysis, score: impact_score(params, n).0 as u32 },
    ]
}

/// The reasons recorded for a style.
pub open spec fn reasons_for(params: PlannerQueryParams, n: Seq<char>, style: PlannerQueryStyle) -> Seq<Seq<char>> {
    match style {
        PlannerQueryStyle::ExactLookup => exact_score(n).1,
        PlannerQueryStyle::SymbolLookup => symbol_score(params, n).1,
        PlannerQueryStyle::SemanticLookup => semantic_score(params, n).1,
        PlannerQueryStyle::ImpactAnalysis => impact_score(params, n).1,
    }
}

/// The styles that score and come within one point of the top score, in rank order.
pub open spec fn close_styles(ranked: Seq<ScoredStyle>, top: u32) -> Seq<PlannerQueryStyle>
    decreases ranked.len(),
{
    if ranked.len() == 0 {
        Seq::empty()
    } else {
        let rest = close_styles(ranked.drop_last(), top);
        let e = ranked.last();
        if e.score > 0 && e.score + 1 >= top { rest.push(e.style) } else { rest }
    }
}

/// `rs` with `k` appended unless present.
pub open spec fn push_route_new(rs: Seq<PlannerRouteKind>, k: PlannerRouteKind) -> Seq<PlannerRouteKind> {
    if rs.contains(k) { rs } else { rs.push(k) }
}

/// `rs` with each of `ks` appended in turn unless present.
pub open spec fn push_routes(rs: Seq<PlannerRouteKind>, ks: Seq<PlannerRouteKind>) -> Seq<PlannerRouteKind>
    decreases ks.len(),
{
    if ks.len() == 0 { rs } else { push_route_new(push_routes(rs, ks.drop_last()), ks.last()) }
}

/// The routes that serve a style, in order.
pub open spec fn style_routes(style: PlannerQueryStyle, include_exact: bool) -> Seq<PlannerRouteKind> {
    match style {
        PlannerQueryStyle::ExactLookup => seq![PlannerRouteKind::Exact, PlannerRouteKind::Symbol, PlannerRouteKind::Semantic],
        PlannerQueryStyle::SymbolLookup => if include_exact {
            seq![PlannerRouteKind::Symbol, PlannerRouteKind::Exact, PlannerRouteKind::Semantic]
        } else {
            seq![PlannerRouteKind::Symbol, PlannerRouteKind::Semantic]
        },
        PlannerQueryStyle::SemanticLookup => if include_exact {
            seq![PlannerRouteKind::Semantic, PlannerRouteKind::Symbol, PlannerRouteKind::Exact]
        } else {
            seq![PlannerRouteKind::Semantic, PlannerRouteKind::Symbol]
        },
        PlannerQueryStyle::ImpactAnalysis => seq![PlannerRouteKind::Symbol, PlannerRouteKind::Semantic, PlannerRouteKind::Impact],
    }
}

/// The routes of all the styles, in order, each once.
pub open spec fn routes_for_styles(styles: Seq<PlannerQueryStyle>, include_exact: bool) -> Seq<PlannerRouteKind>
    decreases styles.len(),
{
    if styles.len() == 0 {
        Seq::empty()
    } else {
        push_routes(routes_for_styles(styles.drop_last(), include_exact), style_routes(styles.last(), include_exact))
    }
}

/// `rs` without the disabled routes.
pub open spec fn without_disabled(rs: Seq<PlannerRouteKind>, disabled: Seq<PlannerRouteKind>) -> Seq<PlannerRouteKind>
    decreases rs.len(),
{
    if rs.len() == 0 {
        Seq::empty()
    } else {
        let rest = without_disabled(rs.drop_last(), disabled);
        if disabled.contains(rs.last()) { rest } else { rest.push(rs.last()) }
    }
}

/// The routes planned for the candidate styles: each style's routes, then the exact route
/// when it is wanted; the first route stays first, the preferred routes follow, then the
/// rest; disabled routes are dropped.
pub open spec fn planned_for_styles(
    styles: Seq<PlannerQueryStyle>,
    has_exact_shape: bool,
    preferred: Seq<PlannerRouteKind>,
    disabled: Seq<PlannerRouteKind>,
    always_exact: bool,
) -> Seq<PlannerRouteKind> {
    let include_exact = always_exact || has_exact_shape;
    let r0 = routes_for_styles(styles, include_exact);
    let r1 = if include_exact && !styles.contains(PlannerQueryStyle::ExactLookup) { push_route_new(r0, PlannerRouteKind::Exact) } else { r0 };
    let start: Seq<PlannerRouteKind> = if r1.len() > 0 { seq![r1[0]] } else { seq![] };
    without_disabled(push_routes(push_routes(start, preferred), r1), disabled)
}

/// The route an explicit mode asks for, unless it is disabled.
pub open spec fn planned_for_override(mode: PlannerMode, disabled: Seq<PlannerRouteKind>) -> Seq<PlannerRouteKind> {
    let kind = match mode {
        PlannerMode::Exact => Some(PlannerRouteKind::Exact),
        PlannerMode::Symbol => Some(PlannerRouteKind::Symbol),
        PlannerMode::Semantic => Some(PlannerRouteKind::Semantic),
        PlannerMode::Impact => Some(PlannerRouteKind::Impact),
        PlannerMode::Auto => None,
    };
    match kind {
        Some(k) => if disabled.contains(k) { seq![] } else { seq![k] },
        None => seq![],
    }
}

/// The signals of the query's text, its selected context, its target and its filters.
pub open spec fn context_signals(base: Seq<PlannerIntentSignal>, params: PlannerQueryParams) -> Seq<PlannerIntentSignal> {
    let s1 = match context_bias(params.selected_context) {
        Some(b) => push_if(base, true, b.0),
        None => base,
    };
    let s2 = push_if(s1, params.target_context is Some, PlannerIntentSignal::TargetContextProvided);
    push_if(s2, !no_filters(params.filters), PlannerIntentSignal::FilterScopeProvided)
}

/// How the planner reads one query: its mode, styles, routes, signals and lookups.
#[derive(Debug, Clone, PartialEq, Eq)]
pub struct ClassifiedIntent {
    pub mode: PlannerModeDecision,
    pub primary_style: PlannerQueryStyle,
    pub candidate_styles: Vec<PlannerQueryStyle>,
    pub planned_routes: Vec<PlannerRouteKind>,
    pub intent_signals: Vec<PlannerIntentSignal>,
    pub exact_query: Option<PlannerExactQueryIntent>,
    pub symbol_query: Option<PlannerSymbolQueryIntent>,
    pub semantic_query: Option<PlannerSemanticQueryIntent>,
    pub impact_query: Option<PlannerImpactQueryIntent>,
}

/// Classifies queries into styles, modes and routes.
#[derive(Debug, Default, Clone, Copy)]
pub struct IntentRouter;

/// The primary style of a query without an explicit mode.
pub open spec fn heuristic_primary(params: PlannerQueryParams, n: Seq<char>, default_mode: PlannerMode) -> PlannerQueryStyle {
    let ranked = ranked_sort(scored_styles(params, n));
    if ranked[0].score == 0 { default_style(default_mode) } else { ranked[0].style }
}

/// The candidate styles of a query without an explicit mode.
pub open spec fn heuristic_candidates(params: PlannerQueryParams, n: Seq<char>, default_mode: PlannerMode) -> Seq<PlannerQueryStyle> {
    let ranked = ranked_sort(scored_styles(params, n));
    if ranked[0].score == 0 { seq![default_style(default_mode)] } else { close_styles(ranked, ranked[0].score) }
}

/// The mode reasons of a query without an explicit mode.
pub open spec fn heuristic_reasons(params: PlannerQueryParams, n: Seq<char>, default_mode: PlannerMode) -> Seq<Seq<char>> {
    let candidates = heuristic_candidates(params, n, default_mode);
    let base = reasons_for(params, n, heuristic_primary(params, n, default_mode));
    if candidates.len() > 1 {
        base.push("mixed route signals kept "@ + join(candidates.map_values(|st: PlannerQueryStyle| style_label(st)), ", "@))
    } else {
        base
    }
}

/// Whether `q` is the exact lookup an explicit mode needs: as found, else the whole text as a literal.
pub open spec fn shaped_exact(q: Option<PlannerExactQueryIntent>, n: Seq<char>, primary: PlannerQueryStyle) -> bool {
    if primary == PlannerQueryStyle::ExactLookup && exact_query_of(n) is None {
        exact_is(q, Some((n, PlannerExactMatchStyle::Literal)))
    } else {
        exact_is(q, exact_query_of(n))
    }
}

/// Whether `q` is the symbol lookup an explicit mode needs.
pub open spec fn shaped_symbol(q: Option<PlannerSymbolQueryIntent>, n: Seq<char>, primary: PlannerQueryStyle) -> bool {
    if primary == PlannerQueryStyle::SymbolLookup && symbol_query_of(n) is None {
        symbol_is(q, Some((n, seq![n])))
    } else {
        symbol_is(q, symbol_query_of(n))
    }
}

/// Whether `q` is the semantic lookup an explicit mode needs.
pub open spec fn shaped_semantic(q: Option<PlannerSemanticQueryIntent>, n: Seq<char>, primary: PlannerQueryStyle) -> bool {
    if primary == PlannerQueryStyle::SemanticLookup && semantic_query_of(n) is None {
        semantic_is(q, Some((n, lowered_unique(tokens_of(n)))))
    } else {
        semantic_is(q, semantic_query_of(n))
    }
}

/// Whether `q` is the impact analysis an explicit mode needs.
pub open spec fn shaped_impact(q: Option<PlannerImpactQueryIntent>, n: Seq<char>, primary: PlannerQueryStyle) -> bool {
    if primary == PlannerQueryStyle::ImpactAnalysis && impact_query_of(n) is None {
        impact_is(q, Some((n, action_terms(tokens_of(n)), subject_terms(tokens_of(n)))))
    } else {
        impact_is(q, impact_query_of(n))
    }
}

/// Whether `c` is how the planner classifies `params` with this default mode: an explicit
/// mode other than `Auto` is taken as given; otherwise the styles are scored from the
/// query's features and contexts, the best one leads, and those within a point of it stay
/// candidates.
pub open spec fn classification(c: ClassifiedIntent, params: PlannerQueryParams, default_mode: PlannerMode) -> bool {
    let n = normalized(params.query.text@);
    match params.mode_override {
        Some(m) if m != PlannerMode::Auto => {
            let primary = default_style(m);
            &&& c.mode.requested_mode == Some(m)
            &&& c.mode.selected_mode == m
            &&& c.mode.source == PlannerModeSelectionSource::ExplicitOverride
            &&& views(c.mode.reasons@) == seq!["planner mode selected from explicit override"@]
            &&& c.primary_style == primary
            &&& c.candidate_styles@ == seq![primary]
            &&& c.planned_routes@ == planned_for_override(m, params.route_hints.disabled_routes@)
            &&& c.intent_signals@ == context_signals(push_if(text_signals(n), true, PlannerIntentSignal::ExplicitModeOverride), params)
            &&& shaped_exact(c.exact_query, n, primary)
            &&& shaped_symbol(c.symbol_query, n, primary)
            &&& shaped_semantic(c.semantic_query, n, primary)
            &&& shaped_impact(c.impact_query, n, primary)
        },
        _ => {
            let primary = heuristic_primary(params, n, default_mode);
            let candidates = heuristic_candidates(params, n, default_mode);
            &&& c.mode.requested_mode == params.mode_override
            &&& c.mode.selected_mode == mode_of_style(primary)
            &&& c.mode.source == PlannerModeSelectionSource::Heuristic
            &&& views(c.mode.reasons@) == heuristic_reasons(params, n, default_mode)
            &&& c.primary_style == primary
            &&& c.candidate_styles@ == candidates
            &&& c.planned_routes@ == planned_for_styles(candidates, exact_query_of(n) is Some,
                params.route_hints.preferred_routes@, params.route_hints.disabled_routes@, params.route_hints.require_exact_seed)
            &&& c.intent_signals@ == context_signals(text_signals(n), params)
            &&& exact_is(c.exact_query, exact_query_of(n))
            &&& symbol_is(c.symbol_query, symbol_query_of(n))
            &&& semantic_is(c.semantic_query, semantic_query_of(n))
            &&& impact_is(c.impact_query, impact_query_of(n))
        },
    }
}

/// Whether `sc` is the score of `style` described by `m`.
pub open spec fn score_is(sc: StyleScore, style: PlannerQueryStyle, m: (nat, Seq<Seq<char>>)) -> bool {
    sc.style == style && sc.score == m.0 && views(sc.reasons@) == m.1
}

fn exact_style(f: &QueryFeatures, Ghost(raw): Ghost<Seq<char>>) -> (sc: StyleScore)
    requires
        features_of(*f, raw),
    ensures
        score_is(sc, PlannerQueryStyle::ExactLookup, exact_score(normalized(raw))),
{
    let mut sc = StyleScore::new(PlannerQueryStyle::ExactLookup);
    if let Some(q) = &f.exact_query {
        let reason = match q.match_style {
            PlannerExactMatchStyle::Regex => "regex-like delimiters imply exact-style lookup",
            PlannerExactMatchStyle::Literal => "quoted literals imply exact-style lookup",
            PlannerExactMatchStyle::Path => "path-like text implies exact-style lookup",
            PlannerExactMatchStyle::Glob => "glob syntax implies exact-style lookup",
        };
        sc.add(6, reason);
    }
    assert(views(sc.reasons@) =~= exact_score(normalized(raw)).1);
    sc
}

fn symbol_style(params: &PlannerQueryParams, f: &QueryFeatures, Ghost(raw): Ghost<Seq<char>>) -> (sc: StyleScore)
    requires
        features_of(*f, raw),
    ensures
        score_is(sc, PlannerQueryStyle::SymbolLookup, symbol_score(*params, normalized(raw))),
{
    let ghost n = normalized(raw);
    let mut sc = StyleScore::new(PlannerQueryStyle::SymbolLookup);
    assert(views(sc.reasons@) =~= Seq::<Seq<char>>::empty());
    if f.qualified_symbol_like {
        sc.add(6, "qualified symbol syntax implies symbol-style lookup");
    } else if f.identifier_like {
        sc.add(4, "identifier-like text implies symbol-style lookup");
    }
    let keyword = contains_symbol_keyword(&f.lowered_tokens);
    assert(keyword == exists|i: int| 0 <= i < lowered_unique(tokens_of(n)).len() && symbol_keyword(#[trigger] lowered_unique(tokens_of(n))[i]));
    if keyword {
        sc.add(2, "symbol-oriented wording strengthens symbol-style lookup");
    }
    if f.path_like {
        sc.add(1, "path-like text can still seed symbol lookup");
    }
    if let Some(bias) = selected_context_bias(&params.selected_context) {
        sc.add(bias.symbol_score, bias.reason);
    }
    if !filters_are_empty(&params.filters) {
        sc.add(1, "explicit filters narrow the lookup scope deterministically");
    }
    sc
}

fn semantic_style(params: &PlannerQueryParams, f: &QueryFeatures, Ghost(raw): Ghost<Seq<char>>) -> (sc: StyleScore)
    requires
        features_of(*f, raw),
    ensures
        score_is(sc, PlannerQueryStyle::SemanticLookup, semantic_score(*params, normalized(raw))),
{
    let mut sc = StyleScore::new(PlannerQueryStyle::SemanticLookup);
    assert(views(sc.reasons@) =~= Seq::<Seq<char>>::empty());
    if f.natural_language_question {
        sc.add(4, "natural-language question wording implies semantic-style lookup");
    }
    if f.lowered_tokens.len() >= 3 {
        sc.add(2, "multi-token freeform text keeps semantic lookup viable");
    }
    if !f.identifier_like && !f.qualified_symbol_like && !f.path_like {
        sc.add(1, "no dominant identifier or path signal keeps semantic lookup as a fallback");
    }
    if let Some(bias) = selected_context_bias(&params.selected_context) {
        sc.add(bias.semantic_score, bias.reason);
    }
    sc
}

fn impact_style(params: &PlannerQueryParams, f: &QueryFeatures, Ghost(raw): Ghost<Seq<char>>) -> (sc: StyleScore)
    requires
        features_of(*f, raw),
    ensures
        score_is(sc, PlannerQueryStyle::ImpactAnalysis, impact_score(*params, normalized(raw))),
{
    let mut sc = StyleScore::new(PlannerQueryStyle::ImpactAnalysis);
    assert(views(sc.reasons@) =~= Seq::<Seq<char>>::empty());
    if f.impact_phrase {
        sc.add(6, "blast-radius wording implies impact-style lookup");
    }
    if f.action_term_count > 0 {
        sc.add(6, "action-oriented wording implies impact-style lookup");
    }
    if f.natural_language_question && f.action_term_count > 0 {
        sc.add(1, "question-form action queries can require impact analysis plus lookup fallbacks");
    }
    if let Some(bias) = selected_context_bias(&params.selected_context) {
        sc.add(bias.impact_score, bias.reason);
    }
    if params.target_context.is_some() {
        sc.add(1, "explicit target context biases routing toward impact analysis");
    }
    sc
}

fn push_route_unique(routes: &mut Vec<PlannerRouteKind>, k: PlannerRouteKind)
    ensures
        final(routes)@ == push_route_new(old(routes)@, k),
{
    if !contains_route(routes, k) {
        routes.push(k);
    }
}

fn push_route_list(routes: &mut Vec<PlannerRouteKind>, ks: &Vec<PlannerRouteKind>)
    ensures
        final(routes)@ == push_routes(old(routes)@, ks@),
{
    let ghost start = routes@;
    let mut i: usize = 0;
    while i < ks.len()
        invariant
            0 <= i <= ks@.len(),
            routes@ == push_routes(start, ks@.subrange(0, i as int)),
        decreases ks@.len() - i,
    {
        assert(ks@.subrange(0, i + 1).drop_last() =~= ks@.subrange(0, i as int));
        push_route_unique(routes, ks[i]);
        i = i + 1;
    }
    assert(ks@.subrange(0, ks@.len() as int) =~= ks@);
}

fn routes_of_style(style: PlannerQueryStyle, include_exact: bool) -> (r: Vec<PlannerRouteKind>)
    ensures
        r@ == style_routes(style, include_exact),
{
    let r = match style {
        PlannerQueryStyle::ExactLookup => vec![PlannerRouteKind::Exact, PlannerRouteKind::Symbol, PlannerRouteKind::Semantic],
        PlannerQueryStyle::SymbolLookup => if include_exact {
            vec![PlannerRouteKind::Symbol, PlannerRouteKind::Exact, PlannerRouteKind::Semantic]
        } else {
            vec![PlannerRouteKind::Symbol, PlannerRouteKind::Semantic]
        },
        PlannerQueryStyle::SemanticLookup => if include_exact {
            vec![PlannerRouteKind::Semantic, PlannerRouteKind::Symbol, PlannerRouteKind::Exact]
        } else {
            vec![PlannerRouteKind::Semantic, PlannerRouteKind::Symbol]
        },
        PlannerQueryStyle::ImpactAnalysis => vec![PlannerRouteKind::Symbol, PlannerRouteKind::Semantic, PlannerRouteKind::Impact],
    };
    assert(r@ =~= style_routes(style, include_exact));
    r
}

fn contains_style(styles: &Vec<PlannerQueryStyle>, style: PlannerQueryStyle) -> (r: bool)
    ensures
        r == styles@.contains(style),
{
    let mut i: usize = 0;
    while i < styles.len()
        invariant
            0 <= i <= styles@.len(),
            forall|k: int| 0 <= k < i ==> styles@[k] != style,
        decreases styles@.len() - i,
    {
        if styles[i] == style {
            assert(styles@[i as int] == style);
            return true;
        }
        i = i + 1;
    }
    false
}

/// The routes planned for the candidate styles.
pub fn planned_routes_for_styles(
    styles: &Vec<PlannerQueryStyle>,
    has_exact_shape: bool,
    preferred_routes: &Vec<PlannerRouteKind>,
    disabled_routes: &Vec<PlannerRouteKind>,
    always_exact: bool,
) -> (r: Vec<PlannerRouteKind>)
    ensures
        r@ == planned_for_styles(styles@, has_exact_shape, preferred_routes@, disabled_routes@, always_exact),
{
    let include_exact = always_exact || has_exact_shape;
    let mut routes: Vec<PlannerRouteKind> = Vec::new();
    let mut i: usize = 0;
    while i < styles.len()
        invariant
            0 <= i <= styles@.len(),
            routes@ == routes_for_styles(styles@.subrange(0, i as int), include_exact),
        decreases styles@.len() - i,
    {
        assert(styles@.subrange(0, i + 1).drop_last() =~= styles@.subrange(0, i as int));
        let candidates = routes_of_style(styles[i], include_exact);
        push_route_list(&mut routes, &candidates);
        i = i + 1;
    }
    assert(styles@.subrange(0, styles@.len() as int) =~= styles@);
    if include_exact && !contains_style(styles, PlannerQueryStyle::ExactLookup) {
        push_route_unique(&mut routes, PlannerRouteKind::Exact);
    }
    let mut reordered: Vec<PlannerRouteKind> = Vec::new();
    if routes.len() > 0 {
        reordered.push(routes[0]);
    }
    assert(reordered@ =~= (if routes@.len() > 0 { seq![routes@[0]] } else { Seq::<PlannerRouteKind>::empty() }));
    push_route_list(&mut reordered, preferred_routes);
    push_route_list(&mut reordered, &routes);
    let mut out: Vec<PlannerRouteKind> = Vec::new();
    let mut k: usize = 0;
    while k < reordered.len()
        invariant
            0 <= k <= reordered@.len(),
            out@ == without_disabled(reordered@.subrange(0, k as int), disabled_routes@),
        decreases reordered@.len() - k,
    {
        assert(reordered@.subrange(0, k + 1).drop_last() =~= reordered@.subrange(0, k as int));
        if !contains_route(disabled_routes, reordered[k]) {
            out.push(reordered[k]);
        }
        k = k + 1;
    }
    assert(reordered@.subrange(0, reordered@.len() as int) =~= reordered@);
    out
}

/// The route an explicit mode asks for, unless it is disabled.
pub fn planned_routes_for_override(mode: PlannerMode, disabled_routes: &Vec<PlannerRouteKind>) -> (r: Vec<PlannerRouteKind>)
    ensures
        r@ == planned_for_override(mode, disabled_routes@),
{
    let kind = match mode {
        PlannerMode::Exact => PlannerRouteKind::Exact,
        PlannerMode::Symbol => PlannerRouteKind::Symbol,
        PlannerMode::Semantic => PlannerRouteKind::Semantic,
        PlannerMode::Impact => PlannerRouteKind::Impact,
        PlannerMode::Auto => {
            return Vec::new();
        },
    };
    let mut r: Vec<PlannerRouteKind> = Vec::new();
    if !contains_route(disabled_routes, kind) {
        r.push(kind);
    }
    assert(r@ =~= planned_for_override(mode, disabled_routes@));
    r
}

fn add_context_signals(signals: &mut Vec<PlannerIntentSignal>, params: &PlannerQueryParams)
    ensures
        final(signals)@ == context_signals(old(signals)@, *params),
{
    if let Some(bias) = selected_context_bias(&params.selected_context) {
        push_signal_if(signals, true, bias.signal);
    }
    push_signal_if(signals, params.target_context.is_some(), PlannerIntentSignal::TargetContextProvided);
    push_signal_if(signals, !filters_are_empty(&params.filters), PlannerIntentSignal::FilterScopeProvided);
}

/// The mode a style runs in.
pub fn style_to_mode(style: PlannerQueryStyle) -> (m: PlannerMode)
    ensures
        m == mode_of_style(style),
{
    match style {
        PlannerQueryStyle::ExactLookup => PlannerMode::Exact,
        PlannerQueryStyle::SymbolLookup => PlannerMode::Symbol,
        PlannerQueryStyle::SemanticLookup => PlannerMode::Semantic,
        PlannerQueryStyle::ImpactAnalysis => PlannerMode::Impact,
    }
}

/// The style a mode asks for, with `Auto` read as semantic lookup.
pub fn mode_to_style(mode: PlannerMode) -> (s: PlannerQueryStyle)
    ensures
        s == default_style(mode),
{
    match mode {
        PlannerMode::Auto => PlannerQueryStyle::SemanticLookup,
        PlannerMode::Exact => PlannerQueryStyle::ExactLookup,
        PlannerMode::Symbol => PlannerQueryStyle::SymbolLookup,
        PlannerMode::Semantic => PlannerQueryStyle::SemanticLookup,
        PlannerMode::Impact => PlannerQueryStyle::ImpactAnalysis,
    }
}

/// The label of a style.
pub fn query_style_label(style: PlannerQueryStyle) -> (s: &'static str)
    ensures
        s@ == style_label(style),
{
    match style {
        PlannerQueryStyle::ExactLookup => "exact_lookup",
        PlannerQueryStyle::SymbolLookup => "symbol_lookup",
        PlannerQueryStyle::SemanticLookup => "semantic_lookup",
        PlannerQueryStyle::ImpactAnalysis => "impact_analysis",
    }
}

fn style_labels(styles: &Vec<PlannerQueryStyle>) -> (r: Vec<&'static str>)
    ensures
        str_views(r@) == styles@.map_values(|st: PlannerQueryStyle| style_label(st)),
{
    let mut r: Vec<&'static str> = Vec::new();
    let mut i: usize = 0;
    while i < styles.len()
        invariant
            0 <= i <= styles@.len(),
            str_views(r@) == styles@.subrange(0, i as int).map_values(|st: PlannerQueryStyle| style_label(st)),
        decreases styles@.len() - i,
    {
        let ghost before = r@;
        let label = query_style_label(styles[i]);
        r.push(label);
        assert(str_views(r@) =~= str_views(before).push(label@));
        assert(styles@.subrange(0, i + 1).map_values(|st: PlannerQueryStyle| style_label(st)) =~= styles@.subrange(0, i as int).map_values(|st: PlannerQueryStyle| style_label(st)).push(style_label(styles@[i as int])));
        i = i + 1;
    }
    assert(styles@.subrange(0, styles@.len() as int) =~= styles@);
    r
}

/// The route that serves a style directly.
pub open spec fn own_route(style: PlannerQueryStyle) -> PlannerRouteKind {
    match style {
        PlannerQueryStyle::ExactLookup => PlannerRouteKind::Exact,
        PlannerQueryStyle::SymbolLookup => PlannerRouteKind::Symbol,
        PlannerQueryStyle::SemanticLookup => PlannerRouteKind::Semantic,
        PlannerQueryStyle::ImpactAnalysis => PlannerRouteKind::Impact,
    }
}

proof fn lemma_push_route_new_keeps(rs: Seq<PlannerRouteKind>, k: PlannerRouteKind)
    ensures
        push_route_new(rs, k).contains(k),
        forall|x: PlannerRouteKind| rs.contains(x) ==> #[trigger] push_route_new(rs, k).contains(x),
{
    if !rs.contains(k) {
        let p = rs.push(k);
        assert(p[rs.len() as int] == k);
        assert forall|x: PlannerRouteKind| rs.contains(x) implies #[trigger] p.contains(x) by {
            let i = choose|i: int| 0 <= i < rs.len() && rs[i] == x;
            assert(p[i] == x);
        }
    }
}

proof fn lemma_push_routes_keeps(rs: Seq<PlannerRouteKind>, ks: Seq<PlannerRouteKind>)
    ensures
        forall|x: PlannerRouteKind| rs.contains(x) ==> #[trigger] push_routes(rs, ks).contains(x),
        forall|x: PlannerRouteKind| ks.contains(x) ==> #[trigger] push_routes(rs, ks).contains(x),
    decreases ks.len(),
{
    if ks.len() > 0 {
        let prev = ks.drop_last();
        lemma_push_routes_keeps(rs, prev);
        let p = push_routes(rs, prev);
        lemma_push_route_new_keeps(p, ks.last());
        assert forall|x: PlannerRouteKind| ks.contains(x) implies #[trigger] push_routes(rs, ks).contains(x) by {
            let i = choose|i: int| 0 <= i < ks.len() && ks[i] == x;
            if i < ks.len() - 1 {
                assert(prev[i] == x);
                assert(prev.contains(x));
            }
        }
    }
}

proof fn lemma_routes_for_styles_cover(styles: Seq<PlannerQueryStyle>, include_exact: bool, style: PlannerQueryStyle)
    requires
        styles.contains(style),
    ensures
        routes_for_styles(styles, include_exact).contains(own_route(style)),
    decreases styles.len(),
{
    let prev = styles.drop_last();
    lemma_push_routes_keeps(routes_for_styles(prev, include_exact), style_routes(styles.last(), include_exact));
    let i = choose|i: int| 0 <= i < styles.len() && styles[i] == style;
    if i < styles.len() - 1 {
        assert(prev[i] == style);
        lemma_routes_for_styles_cover(prev, include_exact, style);
    } else {
        let rs = style_routes(style, include_exact);
        match style {
            PlannerQueryStyle::ExactLookup => assert(rs[0] == own_route(style)),
            PlannerQueryStyle::SymbolLookup => assert(rs[0] == own_route(style)),
            PlannerQueryStyle::SemanticLookup => assert(rs[0] == own_route(style)),
            PlannerQueryStyle::ImpactAnalysis => assert(rs[2] == own_route(style)),
        }
    }
}

proof fn lemma_without_disabled_keeps(rs: Seq<PlannerRouteKind>, disabled: Seq<PlannerRouteKind>, x: PlannerRouteKind)
    requires
        rs.contains(x),
        !disabled.contains(x),
    ensures
        without_disabled(rs, disabled).contains(x),
    decreases rs.len(),
{
    let rest = without_disabled(rs.drop_last(), disabled);
    if rs.last() == x {
        assert(rest.push(x)[rest.len() as int] == x);
    } else {
        let i = choose|i: int| 0 <= i < rs.len() && rs[i] == x;
        assert(rs.drop_last()[i] == x);
        lemma_without_disabled_keeps(rs.drop_last(), disabled, x);
        if !disabled.contains(rs.last()) {
            let j = choose|j: int| 0 <= j < rest.len() && rest[j] == x;
            assert(rest.push(rs.last())[j] == x);
        }
    }
}

/// Every candidate style of a classification has its own route planned (exact lookup the
/// exact route, symbol lookup the symbol route, semantic lookup the semantic route,
/// impact analysis the impact route), unless that route is disabled.
pub proof fn law_candidate_styles_are_planned(c: ClassifiedIntent, params: PlannerQueryParams, default_mode: PlannerMode,
    style: PlannerQueryStyle)
    requires
        classification(c, params, default_mode),
        c.candidate_styles@.contains(style),
        !params.route_hints.disabled_routes@.contains(own_route(style)),
    ensures
        c.planned_routes@.contains(own_route(style)),
{
    let n = normalized(params.query.text@);
    let disabled = params.route_hints.disabled_routes@;
    match params.mode_override {
        Some(m) if m != PlannerMode::Auto => {
            assert(c.candidate_styles@[0] == default_style(m));
            assert(style == default_style(m));
            assert(planned_for_override(m, disabled)[0] == own_route(style));
        },
        _ => {
            let styles = c.candidate_styles@;
            let include_exact = params.route_hints.require_exact_seed || exact_query_of(n) is Some;
            let r0 = routes_for_styles(styles, include_exact);
            lemma_routes_for_styles_cover(styles, include_exact, style);
            let r1 = if include_exact && !styles.contains(PlannerQueryStyle::ExactLookup) {
                push_route_new(r0, PlannerRouteKind::Exact)
            } else {
                r0
            };
            lemma_push_route_new_keeps(r0, PlannerRouteKind::Exact);
            assert(r1.contains(own_route(style)));
            let start: Seq<PlannerRouteKind> = if r1.len() > 0 { seq![r1[0]] } else { seq![] };
            let pre = push_routes(start, params.route_hints.preferred_routes@);
            lemma_push_routes_keeps(pre, r1);
            lemma_without_disabled_keeps(push_routes(pre, r1), disabled, own_route(style));
        },
    }
}

impl IntentRouter {
    /// Classifies a query: an explicit mode is taken as given; otherwise the styles are
    /// scored and the best ones kept.
    pub fn classify(&self, params: &PlannerQueryParams, default_mode: PlannerMode) -> (c: ClassifiedIntent)
        ensures
            classification(c, *params, default_mode),
    {
        let ghost raw = params.query.text@;
        let ghost n = normalized(raw);
        let features = extract_features(params.query.text.as_str());
        if let Some(m) = params.mode_override {
            if m != PlannerMode::Auto {
                return classify_from_override(params, features, m, Ghost(raw));
            }
        }
        let exact = exact_style(&features, Ghost(raw));
        let symbol = symbol_style(params, &features, Ghost(raw));
        let semantic = semantic_style(params, &features, Ghost(raw));
        let impact = impact_style(params, &features, Ghost(raw));
        let scored = vec![
            ScoredStyle { style: PlannerQueryStyle::ExactLookup, score: exact.score },
            ScoredStyle { style: PlannerQueryStyle::SymbolLookup, score: symbol.score },
            ScoredStyle { style: PlannerQueryStyle::SemanticLookup, score: semantic.score },
            ScoredStyle { style: PlannerQueryStyle::ImpactAnalysis, score: impact.score },
        ];
        assert(scored@ =~= scored_styles(*params, n));
        let ranked = sort_ranked(scored);
        proof {
            lemma_ranked_sort_len(scored_styles(*params, n));
        }
        let top = ranked[0].score;
        let primary = if top == 0 { mode_to_style(default_mode) } else { ranked[0].style };
        let mut candidates: Vec<PlannerQueryStyle> = Vec::new();
        if top == 0 {
            candidates.push(primary);
            assert(candidates@ =~= seq![primary]);
        } else {
            let mut i: usize = 0;
            while i < ranked.len()
                invariant
                    0 <= i <= ranked@.len(),
                    top > 0,
                    candidates@ == close_styles(ranked@.subrange(0, i as int), top),
                decreases ranked@.len() - i,
            {
                assert(ranked@.subrange(0, i + 1).drop_last() =~= ranked@.subrange(0, i as int));
                let e = ranked[i];
                if e.score > 0 && e.score >= top - 1 {
                    candidates.push(e.style);
                }
                i = i + 1;
            }
            assert(ranked@.subrange(0, ranked@.len() as int) =~= ranked@);
        }
        let mut reasons = match primary {
            PlannerQueryStyle::ExactLookup => copy_vec(&exact.reasons),
            PlannerQueryStyle::SymbolLookup => copy_vec(&symbol.reasons),
            PlannerQueryStyle::SemanticLookup => copy_vec(&semantic.reasons),
            PlannerQueryStyle::ImpactAnalysis => copy_vec(&impact.reasons),
        };
        if candidates.len() > 1 {
            let mut line = "mixed route signals kept ".to_owned();
            let labels = style_labels(&candidates);
            push_joined(&mut line, &labels, ", ");
            let ghost before = reasons@;
            let ghost lv = line@;
            reasons.push(line);
            assert(views(reasons@) =~= views(before).push(lv));
        }
        let planned_routes = planned_routes_for_styles(&candidates, features.exact_query.is_some(),
            &params.route_hints.preferred_routes, &params.route_hints.disabled_routes, params.route_hints.require_exact_seed);
        let QueryFeatures { signals, exact_query, symbol_query, semantic_query, impact_query, .. } = features;
        let mut intent_signals = signals;
        add_context_signals(&mut intent_signals, params);
        ClassifiedIntent {
            mode: PlannerModeDecision {
                requested_mode: params.mode_override,
                selected_mode: style_to_mode(primary),
                source: PlannerModeSelectionSource::Heuristic,
                reasons,
            },
            primary_style: primary,
            candidate_styles: candidates,
            planned_routes,
            intent_signals,
            exact_query,
            symbol_query,
            semantic_query,
            impact_query,
        }
    }
}

fn classify_from_override(params: &PlannerQueryParams, features: QueryFeatures, mode: PlannerMode, Ghost(raw): Ghost<Seq<char>>) -> (c: ClassifiedIntent)
    requires
        features_of(features, raw),
        raw == params.query.text@,
        params.mode_override == Some(mode),
        mode != PlannerMode::Auto,
    ensures
        classification(c, *params, mode),
{
    let ghost n = normalized(raw);
    let primary = mode_to_style(mode);
    let planned_routes = planned_routes_for_override(mode, &params.route_hints.disabled_routes);
    let QueryFeatures { normalized: text, raw_tokens, lowered_tokens, signals, exact_query, symbol_query, semantic_query, impact_query, .. } = features;
    let mut intent_signals = signals;
    push_signal_if(&mut intent_signals, true, PlannerIntentSignal::ExplicitModeOverride);
    add_context_signals(&mut intent_signals, params);
    let exact_query = if primary == PlannerQueryStyle::ExactLookup && exact_query.is_none() {
        Some(PlannerExactQueryIntent { normalized_term: text.clone(), match_style: PlannerExactMatchStyle::Literal })
    } else {
        exact_query
    };
    let symbol_query = if primary == PlannerQueryStyle::SymbolLookup && symbol_query.is_none() {
        let segments = vec![text.clone()];
        assert(views(segments@) =~= seq![n]);
        Some(PlannerSymbolQueryIntent { normalized_symbol: text.clone(), segments })
    } else {
        symbol_query
    };
    let semantic_query = if primary == PlannerQueryStyle::SemanticLookup && semantic_query.is_none() {
        Some(PlannerSemanticQueryIntent { normalized_text: text.clone(), tokens: copy_vec(&lowered_tokens) })
    } else {
        semantic_query
    };
    let impact_query = if primary == PlannerQueryStyle::ImpactAnalysis && impact_query.is_none() {
        Some(PlannerImpactQueryIntent {
            normalized_text: text.clone(),
            action_terms: extract_action_terms(&raw_tokens),
            subject_terms: extract_subject_terms(&raw_tokens),
        })
    } else {
        impact_query
    };
    let reasons = vec!["planner mode selected from explicit override".to_owned()];
    assert(views(reasons@) =~= seq!["planner mode selected from explicit override"@]);
    let candidate_styles = vec![primary];
    assert(candidate_styles@ =~= seq![primary]);
    ClassifiedIntent {
        mode: PlannerModeDecision {
            requested_mode: Some(mode),
            selected_mode: mode,
            source: PlannerModeSelectionSource::ExplicitOverride,
            reasons,
        },
        primary_style: primary,
        candidate_styles,
        planned_routes,
        intent_signals,
        exact_query,
        symbol_query,
        semantic_query,
        impact_query,
    }
}

} // verus!
