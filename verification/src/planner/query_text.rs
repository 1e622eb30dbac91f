use vstd::prelude::*;

use crate::planner::common::{is_whitespace, is_ws};
use crate::text::{
    contains_str, has_sub, lower, push_new, push_unique, str_chars, string_from_chars, to_ascii_lowercase,
    views,
};

verus! {

/// The words of `s` split at whitespace: the words finished so far and the current one.
pub open spec fn words_state(s: Seq<char>) -> (Seq<Seq<char>>, Seq<char>)
    decreases s.len(),
{
    if s.len() == 0 {
        (Seq::empty(), Seq::empty())
    } else {
        let (done, cur) = words_state(s.drop_last());
        let c = s.last();
        if is_ws(c) {
            if cur.len() > 0 { (done.push(cur), Seq::empty()) } else { (done, cur) }
        } else {
            (done, cur.push(c))
        }
    }
}

/// The maximal runs of non-whitespace characters of `s` (`str::split_whitespace`).
pub open spec fn words(s: Seq<char>) -> Seq<Seq<char>> {
    let (done, cur) = words_state(s);
    if cur.len() > 0 { done.push(cur) } else { done }
}

/// The whitespace-separated words of `s`.
pub fn split_words(s: &str) -> (r: Vec<String>)
    ensures
        views(r@) == words(s@),
{
    let chars = str_chars(s);
    let mut done: Vec<String> = Vec::new();
    let mut cur: Vec<char> = Vec::new();
    let mut i: usize = 0;
    while i < chars.len()
        invariant
            0 <= i <= chars@.len(),
            chars@ == s@,
            (views(done@), cur@) == words_state(s@.subrange(0, i as int)),
        decreases chars@.len() - i,
    {
        assert(s@.subrange(0, i + 1).drop_last() =~= s@.subrange(0, i as int));
        let c = chars[i];
        if is_whitespace(c) {
            if cur.len() > 0 {
                let w = string_from_chars(&cur);
                let ghost before = done@;
                done.push(w);
                assert(views(done@) =~= views(before).push(cur@));
                cur = Vec::new();
            }
        } else {
            cur.push(c);
        }
        i = i + 1;
    }
    assert(s@.subrange(0, chars@.len() as int) =~= s@);
    if cur.len() > 0 {
        let w = string_from_chars(&cur);
        let ghost before = done@;
        done.push(w);
        assert(views(done@) =~= views(before).push(cur@));
    }
    done
}

/// Whether a character is kept at the ends of a token: ASCII letters and digits, `_`, `$`.
pub open spec fn token_char(c: char) -> bool {
    ('a' <= c && c <= 'z') || ('A' <= c && c <= 'Z') || ('0' <= c && c <= '9') || c == '_' || c == '$'
}

/// `s` without the characters at its front that are not token characters.
pub open spec fn trim_front(s: Seq<char>) -> Seq<char>
    decreases s.len(),
{
    if s.len() > 0 && !token_char(s[0]) { trim_front(s.drop_first()) } else { s }
}

/// `s` without the characters at its back that are not token characters.
pub open spec fn trim_back(s: Seq<char>) -> Seq<char>
    decreases s.len(),
{
    if s.len() > 0 && !token_char(s.last()) { trim_back(s.drop_last()) } else { s }
}

/// A word without the punctuation around it.
pub open spec fn clean(s: Seq<char>) -> Seq<char> {
    trim_back(trim_front(s))
}

/// Whether a character is kept at the ends of a token.
pub fn is_token_char(c: char) -> (r: bool)
    ensures
        r == token_char(c),
{
    ('a' <= c && c <= 'z') || ('A' <= c && c <= 'Z') || ('0' <= c && c <= '9') || c == '_' || c == '$'
}

/// A word without the punctuation around it.
pub fn clean_token(token: &str) -> (r: String)
    ensures
        r@ == clean(token@),
{
    let chars = str_chars(token);
    let n = chars.len();
    let mut start: usize = 0;
    assert(token@.subrange(0, n as int) =~= token@);
    while start < n && !is_token_char(chars[start])
        invariant
            0 <= start <= n,
            n == chars@.len(),
            chars@ == token@,
            trim_front(token@) == trim_front(token@.subrange(start as int, n as int)),
        decreases n - start,
    {
        assert(token@.subrange(start as int, n as int).drop_first() =~= token@.subrange(start + 1, n as int));
        start = start + 1;
    }
    let ghost front = token@.subrange(start as int, n as int);
    assert(trim_front(front) == front);
    let mut end: usize = n;
    assert(front.subrange(0, front.len() as int) =~= front);
    while end > start && !is_token_char(chars[end - 1])
        invariant
            start <= end <= n,
            n == chars@.len(),
            chars@ == token@,
            front == token@.subrange(start as int, n as int),
            trim_back(front) == trim_back(token@.subrange(start as int, end as int)),
        decreases end,
    {
        assert(token@.subrange(start as int, end as int).drop_last() =~= token@.subrange(start as int, end - 1));
        end = end - 1;
    }
    let mut out: Vec<char> = Vec::new();
    let mut k: usize = start;
    while k < end
        invariant
            start <= k <= end,
            end <= n,
            n == chars@.len(),
            chars@ == token@,
            out@ == token@.subrange(start as int, k as int),
        decreases end - k,
    {
        out.push(chars[k]);
        assert(token@.subrange(start as int, k + 1) =~= token@.subrange(start as int, k as int).push(token@[k as int]));
        k = k + 1;
    }
    string_from_chars(&out)
}

/// The distinct non-empty cleaned words, in order of first appearance.
pub open spec fn collect_tokens(ws: Seq<Seq<char>>) -> Seq<Seq<char>>
    decreases ws.len(),
{
    if ws.len() == 0 {
        Seq::empty()
    } else {
        let acc = collect_tokens(ws.drop_last());
        let t = clean(ws.last());
        if t.len() > 0 { push_new(acc, t) } else { acc }
    }
}

/// The distinct lower-cased tokens, in order of first appearance.
pub open spec fn lowered_unique(ts: Seq<Seq<char>>) -> Seq<Seq<char>>
    decreases ts.len(),
{
    if ts.len() == 0 {
        Seq::empty()
    } else {
        push_new(lowered_unique(ts.drop_last()), lower(ts.last()))
    }
}

/// The tokens of a normalized query.
pub fn raw_tokens(normalized: &str) -> (r: Vec<String>)
    ensures
        views(r@) == collect_tokens(words(normalized@)),
{
    let ws = split_words(normalized);
    let ghost wv = views(ws@);
    let mut out: Vec<String> = Vec::new();
    let mut i: usize = 0;
    while i < ws.len()
        invariant
            0 <= i <= ws@.len(),
            wv == views(ws@),
            wv == words(normalized@),
            views(out@) == collect_tokens(wv.subrange(0, i as int)),
        decreases ws@.len() - i,
    {
        assert(wv.subrange(0, i + 1).drop_last() =~= wv.subrange(0, i as int));
        assert(wv[i as int] == ws@[i as int]@);
        let t = clean_token(ws[i].as_str());
        if str_chars(t.as_str()).len() > 0 {
            push_unique(&mut out, t);
        }
        i = i + 1;
    }
    assert(wv.subrange(0, ws@.len() as int) =~= wv);
    out
}

/// The distinct lower-cased tokens.
pub fn lowered_tokens(tokens: &Vec<String>) -> (r: Vec<String>)
    ensures
        views(r@) == lowered_unique(views(tokens@)),
{
    let ghost tv = views(tokens@);
    let mut out: Vec<String> = Vec::new();
    let mut i: usize = 0;
    while i < tokens.len()
        invariant
            0 <= i <= tokens@.len(),
            tv == views(tokens@),
            views(out@) == lowered_unique(tv.subrange(0, i as int)),
        decreases tokens@.len() - i,
    {
        assert(tv.subrange(0, i + 1).drop_last() =~= tv.subrange(0, i as int));
        assert(tv[i as int] == tokens@[i as int]@);
        push_unique(&mut out, to_ascii_lowercase(tokens[i].as_str()));
        i = i + 1;
    }
    assert(tv.subrange(0, tokens@.len() as int) =~= tv);
    out
}

/// A character that marks regular-expression syntax.
pub open spec fn regex_char(c: char) -> bool {
    c == '.' || c == '*' || c == '+' || c == '?' || c == '(' || c == ')' || c == '[' || c == ']'
        || c == '{' || c == '}' || c == '|'
}

/// Text between slashes that holds regular-expression syntax.
pub open spec fn regex_like(n: Seq<char>) -> bool {
    n.len() > 2 && n[0] == '/' && n.last() == '/' && exists|i: int| 1 <= i < n.len() - 1 && regex_char(#[trigger] n[i])
}

/// Text in matching double or single quotes.
pub open spec fn quoted_literal(n: Seq<char>) -> bool {
    n.len() > 1 && ((n[0] == '"' && n.last() == '"') || (n[0] == '\'' && n.last() == '\''))
}

/// A single word with `*` or `?` that is not a regular expression.
pub open spec fn glob_like(n: Seq<char>) -> bool {
    !n.contains(' ') && !regex_like(n) && (n.contains('*') || n.contains('?'))
}

/// The index of the last `.` of `s`.
pub open spec fn last_dot(s: Seq<char>) -> Option<int>
    decreases s.len(),
{
    if s.len() == 0 {
        None
    } else if s.last() == '.' {
        Some(s.len() - 1)
    } else {
        last_dot(s.drop_last())
    }
}

/// The file extensions that mark a path.
pub open spec fn known_extension(e: Seq<char>) -> bool {
    e == "ts"@ || e == "tsx"@ || e == "js"@ || e == "jsx"@ || e == "mts"@ || e == "cts"@ || e == "json"@
        || e == "toml"@ || e == "md"@ || e == "rs"@
}

/// A single word that ends in a known extension after a non-empty base.
pub open spec fn has_known_extension(n: Seq<char>) -> bool {
    !n.contains(' ') && (last_dot(n) matches Some(i) && i > 0 && known_extension(lower(n.subrange(i + 1, n.len() as int))))
}

/// Text with a slash, a backslash or a known extension.
pub open spec fn path_like(n: Seq<char>) -> bool {
    n.contains('/') || n.contains('\\') || has_known_extension(n)
}

/// An ASCII letter.
pub open spec fn ascii_alpha(c: char) -> bool {
    ('a' <= c && c <= 'z') || ('A' <= c && c <= 'Z')
}

/// An ASCII upper-case letter.
pub open spec fn ascii_upper(c: char) -> bool {
    'A' <= c && c <= 'Z'
}

/// A programming identifier: a letter, `_` or `$`, then letters, digits, `_` or `$`.
pub open spec fn identifier(v: Seq<char>) -> bool {
    v.len() > 0 && (ascii_alpha(v[0]) || v[0] == '_' || v[0] == '$') && forall|i: int| 1 <= i < v.len() ==> token_char(#[trigger] v[i])
}

/// An identifier that looks like code rather than a word: with an upper-case letter, `_` or `$`.
pub open spec fn identifier_signal(v: Seq<char>) -> bool {
    identifier(v) && ((exists|i: int| 1 <= i < v.len() && ascii_upper(#[trigger] v[i])) || v[0] == '_' || v.contains('_')
        || v.contains('$') || ascii_upper(v[0]))
}

/// `s` with every `::` replaced by `.`, scanning from the left.
pub open spec fn colons_to_dots(s: Seq<char>) -> Seq<char>
    decreases s.len(),
{
    if s.len() == 0 {
        s
    } else if s.len() >= 2 && s[0] == ':' && s[1] == ':' {
        seq!['.'] + colons_to_dots(s.subrange(2, s.len() as int))
    } else {
        seq![s[0]] + colons_to_dots(s.drop_first())
    }
}

/// `c`, with `#` read as `.`.
pub open spec fn hash_to_dot(c: char) -> char {
    if c == '#' { '.' } else { c }
}

/// The pieces of `s` between dots (possibly empty): those finished and the current one.
pub open spec fn dot_pieces_state(s: Seq<char>) -> (Seq<Seq<char>>, Seq<char>)
    decreases s.len(),
{
    if s.len() == 0 {
        (Seq::empty(), Seq::empty())
    } else {
        let (done, cur) = dot_pieces_state(s.drop_last());
        let c = hash_to_dot(s.last());
        if c == '.' { (done.push(cur), Seq::empty()) } else { (done, cur.push(c)) }
    }
}

/// `s` without whitespace at either end.
pub open spec fn trim_ws(s: Seq<char>) -> Seq<char>
    decreases s.len(),
{
    if s.len() > 0 && is_ws(s[0]) {
        trim_ws(s.drop_first())
    } else if s.len() > 0 && is_ws(s.last()) {
        trim_ws(s.drop_last())
    } else {
        s
    }
}

/// The trimmed, non-empty pieces.
pub open spec fn nonempty_trimmed(pieces: Seq<Seq<char>>) -> Seq<Seq<char>>
    decreases pieces.len(),
{
    if pieces.len() == 0 {
        Seq::empty()
    } else {
        let acc = nonempty_trimmed(pieces.drop_last());
        let t = trim_ws(pieces.last());
        if t.len() > 0 { acc.push(t) } else { acc }
    }
}

/// The segments of a qualified symbol: split at `::`, `#` and `.`, trimmed, non-empty.
pub open spec fn symbol_segments(n: Seq<char>) -> Seq<Seq<char>> {
    let (done, cur) = dot_pieces_state(colons_to_dots(n));
    nonempty_trimmed(done.push(cur))
}

/// A single word like `a.b`, `a::b` or `a#b` whose segments are all identifiers.
pub open spec fn qualified_symbol_like(n: Seq<char>) -> bool {
    let segs = symbol_segments(n);
    if n.contains(' ') {
        false
    } else if has_sub(n, "::"@) || n.contains('#') {
        forall|i: int| 0 <= i < segs.len() ==> identifier(#[trigger] segs[i])
    } else if n.contains('.') && !has_known_extension(n) {
        segs.len() > 1 && forall|i: int| 0 <= i < segs.len() ==> identifier(#[trigger] segs[i])
    } else {
        false
    }
}

/// Words that open a question.
pub open spec fn question_word(t: Seq<char>) -> bool {
    t == "where"@ || t == "how"@ || t == "what"@ || t == "which"@ || t == "who"@ || t == "why"@ || t == "when"@
}

/// Whether a query reads as a natural-language question.
pub open spec fn natural_question(tokens: Seq<Seq<char>>, lowered: Seq<char>) -> bool {
    (tokens.len() > 0 && question_word(tokens[0])) || has_sub(lowered, "which file"@)
        || has_sub(lowered, "implementation"@) || has_sub(lowered, "what breaks"@)
}

/// Whether a query asks about the blast radius of a change.
pub open spec fn impact_phrase(lowered: Seq<char>) -> bool {
    has_sub(lowered, "what breaks"@) || has_sub(lowered, "blast radius"@) || has_sub(lowered, "who depends on"@)
        || has_sub(lowered, "what depends on"@) || has_sub(lowered, "if i rename"@)
        || has_sub(lowered, "if i delete"@) || has_sub(lowered, "if i change"@)
        || has_sub(lowered, "affected by"@) || has_sub(lowered, "impact of"@)
}

/// Words that ask about symbols.
pub open spec fn symbol_keyword(t: Seq<char>) -> bool {
    t == "definition"@ || t == "definitions"@ || t == "reference"@ || t == "references"@ || t == "caller"@
        || t == "callers"@ || t == "method"@ || t == "class"@ || t == "symbol"@ || t == "member"@
        || t == "namespace"@
}

/// Words that name a change.
pub open spec fn action_word(t: Seq<char>) -> bool {
    t == "invalidate"@ || t == "rename"@ || t == "delete"@ || t == "remove"@ || t == "change"@
        || t == "changes"@ || t == "modify"@ || t == "break"@ || t == "breaks"@ || t == "affect"@
        || t == "affects"@
}

/// Words that carry no subject.
pub open spec fn stop_word(t: Seq<char>) -> bool {
    t == "a"@ || t == "an"@ || t == "the"@ || t == "and"@ || t == "or"@ || t == "to"@ || t == "of"@
        || t == "in"@ || t == "on"@ || t == "for"@ || t == "with"@ || t == "if"@ || t == "i"@ || t == "we"@
        || t == "do"@ || t == "does"@ || t == "what"@ || t == "where"@ || t == "how"@ || t == "which"@
        || t == "who"@ || t == "why"@ || t == "when"@ || t == "this"@ || t == "that"@ || t == "it"@
        || action_word(t)
}

/// The distinct tokens that name a change.
pub open spec fn action_terms(tokens: Seq<Seq<char>>) -> Seq<Seq<char>>
    decreases tokens.len(),
{
    if tokens.len() == 0 {
        Seq::empty()
    } else {
        let acc = action_terms(tokens.drop_last());
        if action_word(lower(tokens.last())) { push_new(acc, tokens.last()) } else { acc }
    }
}

/// The distinct tokens that are not stop words.
pub open spec fn subject_terms(tokens: Seq<Seq<char>>) -> Seq<Seq<char>>
    decreases tokens.len(),
{
    if tokens.len() == 0 {
        Seq::empty()
    } else {
        let acc = subject_terms(tokens.drop_last());
        if !stop_word(lower(tokens.last())) { push_new(acc, tokens.last()) } else { acc }
    }
}

fn char_in(v: &Vec<char>, c: char) -> (r: bool)
    ensures
        r == v@.contains(c),
{
    let mut i: usize = 0;
    while i < v.len()
        invariant
            0 <= i <= v@.len(),
            forall|k: int| 0 <= k < i ==> v@[k] != c,
        decreases v@.len() - i,
    {
        if v[i] == c {
            assert(v@[i as int] == c);
            return true;
        }
        i = i + 1;
    }
    false
}

/// Whether a character marks regular-expression syntax.
pub fn is_regex_char(c: char) -> (r: bool)
    ensures
        r == regex_char(c),
{
    c == '.' || c == '*' || c == '+' || c == '?' || c == '(' || c == ')' || c == '[' || c == ']'
        || c == '{' || c == '}' || c == '|'
}

/// Text between slashes that holds regular-expression syntax.
pub fn is_regex_like(n: &str) -> (r: bool)
    ensures
        r == regex_like(n@),
{
    let v = str_chars(n);
    let len = v.len();
    if !(len > 2 && v[0] == '/' && v[len - 1] == '/') {
        return false;
    }
    let mut i: usize = 1;
    while i < len - 1
        invariant
            1 <= i <= len - 1,
            len == v@.len(),
            len > 2,
            v@ == n@,
            n@[0] == '/',
            n@[len - 1] == '/',
            forall|k: int| 1 <= k < i ==> !regex_char(#[trigger] n@[k]),
        decreases len - i,
    {
        if is_regex_char(v[i]) {
            assert(regex_char(n@[i as int]));
            return true;
        }
        i = i + 1;
    }
    false
}

/// Text in matching double or single quotes.
pub fn is_quoted_literal(n: &str) -> (r: bool)
    ensures
        r == quoted_literal(n@),
{
    let v = str_chars(n);
    let len = v.len();
    len > 1 && ((v[0] == '"' && v[len - 1] == '"') || (v[0] == '\'' && v[len - 1] == '\''))
}

/// A single word with `*` or `?` that is not a regular expression.
pub fn is_glob_like(n: &str) -> (r: bool)
    ensures
        r == glob_like(n@),
{
    let v = str_chars(n);
    !char_in(&v, ' ') && !is_regex_like(n) && (char_in(&v, '*') || char_in(&v, '?'))
}

fn find_last_dot(v: &Vec<char>) -> (r: Option<usize>)
    ensures
        match r {
            Some(i) => last_dot(v@) == Some(i as int) && i < v@.len(),
            None => last_dot(v@) is None,
        },
{
    let mut i: usize = v.len();
    assert(v@.subrange(0, i as int) =~= v@);
    while i > 0
        invariant
            0 <= i <= v@.len(),
            last_dot(v@) == last_dot(v@.subrange(0, i as int)),
        decreases i,
    {
        let ghost sub = v@.subrange(0, i as int);
        assert(sub.last() == v@[i - 1]);
        assert(sub.drop_last() =~= v@.subrange(0, i - 1));
        if v[i - 1] == '.' {
            return Some(i - 1);
        }
        i = i - 1;
    }
    None
}

fn string_eq(a: &String, b: &str) -> (r: bool)
    ensures
        r == (a@ == b@),
{
    *a == b.to_owned()
}

fn is_known_extension(e: &String) -> (r: bool)
    ensures
        r == known_extension(e@),
{
    string_eq(e, "ts") || string_eq(e, "tsx") || string_eq(e, "js") || string_eq(e, "jsx") || string_eq(e, "mts")
        || string_eq(e, "cts") || string_eq(e, "json") || string_eq(e, "toml") || string_eq(e, "md")
        || string_eq(e, "rs")
}

fn chars_from(v: &Vec<char>, start: usize) -> (r: String)
    requires
        start <= v@.len(),
    ensures
        r@ == v@.subrange(start as int, v@.len() as int),
{
    let mut out: Vec<char> = Vec::new();
    let mut k: usize = start;
    while k < v.len()
        invariant
            start <= k <= v@.len(),
            out@ == v@.subrange(start as int, k as int),
        decreases v@.len() - k,
    {
        out.push(v[k]);
        assert(v@.subrange(start as int, k + 1) =~= v@.subrange(start as int, k as int).push(v@[k as int]));
        k = k + 1;
    }
    string_from_chars(&out)
}

/// A single word that ends in a known extension after a non-empty base.
pub fn check_known_extension(n: &str) -> (r: bool)
    ensures
        r == has_known_extension(n@),
{
    let v = str_chars(n);
    if char_in(&v, ' ') {
        return false;
    }
    match find_last_dot(&v) {
        None => false,
        Some(i) => {
            if i == 0 {
                return false;
            }
            let len = v.len();
            assert(i < len);
            let ext = chars_from(&v, i + 1);
            let lowered = to_ascii_lowercase(ext.as_str());
            is_known_extension(&lowered)
        },
    }
}

/// Text with a slash, a backslash or a known extension.
pub fn is_path_like(n: &str) -> (r: bool)
    ensures
        r == path_like(n@),
{
    let v = str_chars(n);
    char_in(&v, '/') || char_in(&v, '\\') || check_known_extension(n)
}

/// A programming identifier.
pub fn is_identifier_segment(value: &str) -> (r: bool)
    ensures
        r == identifier(value@),
{
    let v = str_chars(value);
    if v.len() == 0 {
        return false;
    }
    let first = v[0];
    if !(('a' <= first && first <= 'z') || ('A' <= first && first <= 'Z') || first == '_' || first == '$') {
        return false;
    }
    let mut i: usize = 1;
    while i < v.len()
        invariant
            1 <= i <= v@.len(),
            v@ == value@,
            forall|k: int| 1 <= k < i ==> token_char(#[trigger] value@[k]),
        decreases v@.len() - i,
    {
        if !is_token_char(v[i]) {
            assert(!token_char(value@[i as int]));
            return false;
        }
        i = i + 1;
    }
    true
}

/// An identifier that looks like code rather than a word.
pub fn is_identifier_signal_token(value: &str) -> (r: bool)
    ensures
        r == identifier_signal(value@),
{
    if !is_identifier_segment(value) {
        return false;
    }
    let v = str_chars(value);
    let mut upper_after_first = false;
    let mut i: usize = 1;
    while i < v.len()
        invariant
            1 <= i <= v@.len(),
            v@ == value@,
            upper_after_first == exists|k: int| 1 <= k < i && ascii_upper(#[trigger] value@[k]),
        decreases v@.len() - i,
    {
        if 'A' <= v[i] && v[i] <= 'Z' {
            assert(ascii_upper(value@[i as int]));
            upper_after_first = true;
        }
        i = i + 1;
    }
    upper_after_first || v[0] == '_' || char_in(&v, '_') || char_in(&v, '$') || ('A' <= v[0] && v[0] <= 'Z')
}

fn replace_colons(v: &Vec<char>) -> (r: Vec<char>)
    ensures
        r@ == colons_to_dots(v@),
{
    let n = v.len();
    let mut out: Vec<char> = Vec::new();
    let mut i: usize = 0;
    assert(v@.subrange(0, n as int) =~= v@);
    assert(out@ + colons_to_dots(v@.subrange(0, n as int)) == colons_to_dots(v@));
    while i < n
        invariant
            0 <= i <= n,
            n == v@.len(),
            out@ + colons_to_dots(v@.subrange(i as int, n as int)) == colons_to_dots(v@),
        decreases n - i,
    {
        let ghost rest = v@.subrange(i as int, n as int);
        if i + 1 < n && v[i] == ':' && v[i + 1] == ':' {
            assert(rest[0] == ':' && rest[1] == ':');
            assert(rest.subrange(2, rest.len() as int) =~= v@.subrange(i + 2, n as int));
            out.push('.');
            assert(out@ + colons_to_dots(v@.subrange(i + 2, n as int)) =~= colons_to_dots(v@));
            i = i + 2;
        } else {
            assert(rest[0] == v@[i as int]);
            assert(rest.drop_first() =~= v@.subrange(i + 1, n as int));
            if i + 1 < n {
                assert(rest[1] == v@[i + 1]);
            }
            out.push(v[i]);
            assert(out@ + colons_to_dots(v@.subrange(i + 1, n as int)) =~= colons_to_dots(v@));
            i = i + 1;
        }
    }
    assert(v@.subrange(n as int, n as int) =~= Seq::<char>::empty());
    assert(out@ =~= colons_to_dots(v@));
    out
}

fn trim_whitespace(v: &Vec<char>) -> (r: String)
    ensures
        r@ == trim_ws(v@),
{
    let n = v.len();
    let mut start: usize = 0;
    let mut end: usize = n;
    assert(v@.subrange(0, n as int) =~= v@);
    while start < end && (is_whitespace(v[start]) || is_whitespace(v[end - 1]))
        invariant
            0 <= start <= end <= n,
            n == v@.len(),
            trim_ws(v@) == trim_ws(v@.subrange(start as int, end as int)),
        decreases end - start,
    {
        let ghost sub = v@.subrange(start as int, end as int);
        assert(sub[0] == v@[start as int]);
        assert(sub.last() == v@[end - 1]);
        if is_whitespace(v[start]) {
            assert(sub.drop_first() =~= v@.subrange(start + 1, end as int));
            start = start + 1;
        } else {
            assert(sub.drop_last() =~= v@.subrange(start as int, end - 1));
            end = end - 1;
        }
    }
    let mut out: Vec<char> = Vec::new();
    let mut k: usize = start;
    while k < end
        invariant
            start <= k <= end,
            end <= n,
            n == v@.len(),
            out@ == v@.subrange(start as int, k as int),
        decreases end - k,
    {
        out.push(v[k]);
        assert(v@.subrange(start as int, k + 1) =~= v@.subrange(start as int, k as int).push(v@[k as int]));
        k = k + 1;
    }
    let ghost sub = v@.subrange(start as int, end as int);
    if start < end {
        assert(sub[0] == v@[start as int]);
        assert(sub.last() == v@[end - 1]);
    }
    string_from_chars(&out)
}

/// The segments of a qualified symbol.
pub fn split_symbol_segments(n: &str) -> (r: Vec<String>)
    ensures
        views(r@) == symbol_segments(n@),
{
    let replaced = replace_colons(&str_chars(n));
    let ghost rv = replaced@;
    let mut done: Vec<Vec<char>> = Vec::new();
    let mut cur: Vec<char> = Vec::new();
    let mut i: usize = 0;
    while i < replaced.len()
        invariant
            0 <= i <= rv.len(),
            rv == replaced@,
            rv == colons_to_dots(n@),
            (done@.map_values(|p: Vec<char>| p@), cur@) == dot_pieces_state(rv.subrange(0, i as int)),
        decreases rv.len() - i,
    {
        assert(rv.subrange(0, i + 1).drop_last() =~= rv.subrange(0, i as int));
        let c = if replaced[i] == '#' { '.' } else { replaced[i] };
        if c == '.' {
            let ghost before = done@;
            let piece = cur;
            done.push(piece);
            assert(done@.map_values(|p: Vec<char>| p@) =~= before.map_values(|p: Vec<char>| p@).push(piece@));
            cur = Vec::new();
        } else {
            cur.push(c);
        }
        i = i + 1;
    }
    assert(rv.subrange(0, rv.len() as int) =~= rv);
    let ghost before = done@;
    let last_piece = cur;
    done.push(last_piece);
    let ghost pieces = done@.map_values(|p: Vec<char>| p@);
    assert(pieces =~= before.map_values(|p: Vec<char>| p@).push(last_piece@));
    let mut out: Vec<String> = Vec::new();
    let mut k: usize = 0;
    while k < done.len()
        invariant
            0 <= k <= done@.len(),
            pieces == done@.map_values(|p: Vec<char>| p@),
            views(out@) == nonempty_trimmed(pieces.subrange(0, k as int)),
        decreases done@.len() - k,
    {
        assert(pieces.subrange(0, k + 1).drop_last() =~= pieces.subrange(0, k as int));
        assert(pieces[k as int] == done@[k as int]@);
        let t = trim_whitespace(&done[k]);
        if str_chars(t.as_str()).len() > 0 {
            let ghost b = out@;
            let ghost tv = t@;
            out.push(t);
            assert(views(out@) =~= views(b).push(tv));
        }
        k = k + 1;
    }
    assert(pieces.subrange(0, done@.len() as int) =~= pieces);
    out
}

fn all_identifiers(segs: &Vec<String>) -> (r: bool)
    ensures
        r == forall|i: int| 0 <= i < views(segs@).len() ==> identifier(#[trigger] views(segs@)[i]),
{
    let mut i: usize = 0;
    while i < segs.len()
        invariant
            0 <= i <= segs@.len(),
            forall|k: int| 0 <= k < i ==> identifier(#[trigger] views(segs@)[k]),
        decreases segs@.len() - i,
    {
        if !is_identifier_segment(segs[i].as_str()) {
            assert(!identifier(views(segs@)[i as int]));
            return false;
        }
        i = i + 1;
    }
    true
}

/// A single word like `a.b`, `a::b` or `a#b` whose segments are all identifiers.
pub fn is_qualified_symbol_like(n: &str) -> (r: bool)
    ensures
        r == qualified_symbol_like(n@),
{
    let v = str_chars(n);
    if char_in(&v, ' ') {
        return false;
    }
    let segs = split_symbol_segments(n);
    if contains_str(n, "::") || char_in(&v, '#') {
        return all_identifiers(&segs);
    }
    if char_in(&v, '.') && !check_known_extension(n) {
        return segs.len() > 1 && all_identifiers(&segs);
    }
    false
}

fn str_eq(a: &String, b: &str) -> (r: bool)
    ensures
        r == (a@ == b@),
{
    *a == b.to_owned()
}

fn is_question_word(t: &String) -> (r: bool)
    ensures
        r == question_word(t@),
{
    str_eq(t, "where") || str_eq(t, "how") || str_eq(t, "what") || str_eq(t, "which") || str_eq(t, "who")
        || str_eq(t, "why") || str_eq(t, "when")
}

/// Whether a query reads as a natural-language question.
pub fn is_natural_language_question(tokens: &Vec<String>, lowered: &str) -> (r: bool)
    ensures
        r == natural_question(views(tokens@), lowered@),
{
    let starts = tokens.len() > 0 && is_question_word(&tokens[0]);
    starts || contains_str(lowered, "which file") || contains_str(lowered, "implementation")
        || contains_str(lowered, "what breaks")
}

/// Whether a query asks about the blast radius of a change.
pub fn contains_impact_phrase(lowered: &str) -> (r: bool)
    ensures
        r == impact_phrase(lowered@),
{
    contains_str(lowered, "what breaks") || contains_str(lowered, "blast radius") || contains_str(lowered, "who depends on")
        || contains_str(lowered, "what depends on") || contains_str(lowered, "if i rename")
        || contains_str(lowered, "if i delete") || contains_str(lowered, "if i change")
        || contains_str(lowered, "affected by") || contains_str(lowered, "impact of")
}

fn is_symbol_keyword(t: &String) -> (r: bool)
    ensures
        r == symbol_keyword(t@),
{
    str_eq(t, "definition") || str_eq(t, "definitions") || str_eq(t, "reference") || str_eq(t, "references")
        || str_eq(t, "caller") || str_eq(t, "callers") || str_eq(t, "method") || str_eq(t, "class")
        || str_eq(t, "symbol") || str_eq(t, "member") || str_eq(t, "namespace")
}

/// Whether some token asks about symbols.
pub fn contains_symbol_keyword(tokens: &Vec<String>) -> (r: bool)
    ensures
        r == exists|i: int| 0 <= i < tokens@.len() && symbol_keyword(#[trigger] views(tokens@)[i]),
{
    let mut i: usize = 0;
    while i < tokens.len()
        invariant
            0 <= i <= tokens@.len(),
            forall|k: int| 0 <= k < i ==> !symbol_keyword(#[trigger] views(tokens@)[k]),
        decreases tokens@.len() - i,
    {
        if is_symbol_keyword(&tokens[i]) {
            assert(symbol_keyword(views(tokens@)[i as int]));
            return true;
        }
        i = i + 1;
    }
    false
}

fn is_action_word(t: &String) -> (r: bool)
    ensures
        r == action_word(t@),
{
    str_eq(t, "invalidate") || str_eq(t, "rename") || str_eq(t, "delete") || str_eq(t, "remove")
        || str_eq(t, "change") || str_eq(t, "changes") || str_eq(t, "modify") || str_eq(t, "break")
        || str_eq(t, "breaks") || str_eq(t, "affect") || str_eq(t, "affects")
}

fn is_stop_word(t: &String) -> (r: bool)
    ensures
        r == stop_word(t@),
{
    str_eq(t, "a") || str_eq(t, "an") || str_eq(t, "the") || str_eq(t, "and") || str_eq(t, "or")
        || str_eq(t, "to") || str_eq(t, "of") || str_eq(t, "in") || str_eq(t, "on") || str_eq(t, "for")
        || str_eq(t, "with") || str_eq(t, "if") || str_eq(t, "i") || str_eq(t, "we") || str_eq(t, "do")
        || str_eq(t, "does") || str_eq(t, "what") || str_eq(t, "where") || str_eq(t, "how")
        || str_eq(t, "which") || str_eq(t, "who") || str_eq(t, "why") || str_eq(t, "when")
        || str_eq(t, "this") || str_eq(t, "that") || str_eq(t, "it") || is_action_word(t)
}

/// The distinct tokens that name a change.
pub fn extract_action_terms(tokens: &Vec<String>) -> (r: Vec<String>)
    ensures
        views(r@) == action_terms(views(tokens@)),
{
    let ghost tv = views(tokens@);
    let mut out: Vec<String> = Vec::new();
    let mut i: usize = 0;
    while i < tokens.len()
        invariant
            0 <= i <= tokens@.len(),
            tv == views(tokens@),
            views(out@) == action_terms(tv.subrange(0, i as int)),
        decreases tokens@.len() - i,
    {
        assert(tv.subrange(0, i + 1).drop_last() =~= tv.subrange(0, i as int));
        assert(tv[i as int] == tokens@[i as int]@);
        let lowered = to_ascii_lowercase(tokens[i].as_str());
        if is_action_word(&lowered) {
            push_unique(&mut out, tokens[i].clone());
        }
        i = i + 1;
    }
    assert(tv.subrange(0, tokens@.len() as int) =~= tv);
    out
}

/// The distinct tokens that are not stop words.
pub fn extract_subject_terms(tokens: &Vec<String>) -> (r: Vec<String>)
    ensures
        views(r@) == subject_terms(views(tokens@)),
{
    let ghost tv = views(tokens@);
    let mut out: Vec<String> = Vec::new();
    let mut i: usize = 0;
    while i < tokens.len()
        invariant
            0 <= i <= tokens@.len(),
            tv == views(tokens@),
            views(out@) == subject_terms(tv.subrange(0, i as int)),
        decreases tokens@.len() - i,
    {
        assert(tv.subrange(0, i + 1).drop_last() =~= tv.subrange(0, i as int));
        assert(tv[i as int] == tokens@[i as int]@);
        let lowered = to_ascii_lowercase(tokens[i].as_str());
        if !is_stop_word(&lowered) {
            push_unique(&mut out, tokens[i].clone());
        }
        i = i + 1;
    }
    assert(tv.subrange(0, tokens@.len() as int) =~= tv);
    out
}

} // verus!
