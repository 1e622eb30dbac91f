use vstd::prelude::*;

use crate::digest::{hex_lower, sha256};
use crate::parser::language_pack_ts_js::{protocol_language, LanguagePack, TsJsLanguage, TsJsLanguagePack, TS_JS_PACK_ID};
use crate::parser::parse_cache::{key_view, ParseCache, ParseCacheKey};
use crate::parser::snapshot_catalog::ResolvedSnapshotFile;
use crate::parser::language_pack_ts_js::{language_for_extension, path_extension};
use crate::parser::ParserError;
use crate::parser::line_index::{LineIndex, TextEdit};
use crate::planner::copy::DeepCopy;
use crate::protocol::symbols::{
    FileFactsSummary, FileParseArtifactMetadata, ParseArtifactStage, ParseDiagnostic, ParseDiagnosticCode,
    ParseDiagnosticSeverity, ParseInputSourceKind, SourceSpan,
};
use crate::text::{concat2, opt_view, owned, push_str, utf8};

verus! {

/// A file to be parsed: where it is, which dialect it is, where its contents came from and
/// what they hash to.
#[derive(Debug, Clone, PartialEq, Eq)]
pub struct ParseCandidate {
    pub path: String,
    pub language: TsJsLanguage,
    pub source_kind: ParseInputSourceKind,
    pub content_sha256: String,
    pub content_bytes: usize,
}

/// A syntax node as plain values: its kind, where it stands and what its parser said of it.
#[derive(Debug, Clone, PartialEq, Eq)]
pub struct AstNodeHandle {
    pub kind: String,
    pub span: SourceSpan,
    pub named_child_count: u32,
    pub child_count: u32,
    pub has_error: bool,
    pub is_error: bool,
    pub is_missing: bool,
}

impl AstNodeHandle {
    /// The handle of a node of `kind` over the bytes `start_byte..end_byte` of the text
    /// `line_index` was built from; the span is clamped to the text.
    pub fn from_byte_range(
        kind: &str,
        line_index: &LineIndex,
        start_byte: usize,
        end_byte: usize,
        has_error: bool,
        is_error: bool,
        is_missing: bool,
        named_child_count: u32,
        child_count: u32,
    ) -> (r: Self)
        ensures
            r.kind@ == kind@,
            r.span == line_index.span_between(start_byte, end_byte),
            r.named_child_count == named_child_count,
            r.child_count == child_count,
            r.has_error == has_error,
            r.is_error == is_error,
            r.is_missing == is_missing,
    {
        AstNodeHandle {
            kind: owned(kind),
            span: line_index.byte_range_to_span(start_byte, end_byte),
            named_child_count,
            child_count,
            has_error,
            is_error,
            is_missing,
        }
    }
}

/// What an inspection of a parsed file reports.
#[derive(Debug, Clone, PartialEq, Eq)]
pub struct ParseArtifactInspection {
    pub artifact: FileParseArtifactMetadata,
    pub parse_succeeded: bool,
    pub has_recoverable_errors: bool,
    pub reused_incremental_tree: bool,
    pub line_count: u32,
    pub root: AstNodeHandle,
}

/// Settings of a parser core.
#[derive(Debug, Clone, PartialEq, Eq, Structural)]
pub struct ParseCoreSettings {
    pub diagnostics_max_per_file: usize,
}

impl Default for ParseCoreSettings {
    /// At most 32 diagnostics per file.
    fn default() -> (r: Self)
        ensures
            r.diagnostics_max_per_file == 32,
    {
        ParseCoreSettings { diagnostics_max_per_file: 32 }
    }
}

/// A syntax tree node as plain values: what its parser reported of it, and the positions
/// of its children, in order, in its tree's node list.
#[derive(Debug, Clone, PartialEq, Eq)]
pub struct SyntaxNode {
    pub kind: String,
    pub start_byte: usize,
    pub end_byte: usize,
    pub has_error: bool,
    pub is_error: bool,
    pub is_missing: bool,
    pub named_child_count: u32,
    pub children: Vec<usize>,
}

/// A syntax tree as a list of nodes, the root first.
#[derive(Debug, Clone, PartialEq, Eq)]
pub struct SyntaxTree {
    pub nodes: Vec<SyntaxNode>,
}

/// A tree-sitter syntax tree.
#[verifier::external_type_specification]
#[verifier::external_body]
pub struct ExSyntaxTree(tree_sitter::Tree);

/// `tree_sitter::Parser::parse`: the tree of `text`, reusing `old_tree` (already edited to
/// match `text`) where it can; `None` when the parser has no grammar or gave up. Nothing
/// is stated of the result: a tree is opaque here, and its nodes are read through
/// `syntax_of_tree`.
#[verifier::external_body]
fn parse_text(parser: &mut tree_sitter::Parser, text: &str, old_tree: Option<&tree_sitter::Tree>) -> Option<tree_sitter::Tree> {
    parser.parse(text, old_tree)
}

/// `tree_sitter::Tree::clone`: a copy of a tree. Nothing is stated of it: trees are
/// opaque here.
#[verifier::external_body]
fn copy_tree(tree: &tree_sitter::Tree) -> tree_sitter::Tree {
    tree.clone()
}

/// `tree_sitter::Tree::edit`: shifts a tree to match a text edit, given as the same byte
/// offsets and zero-based rows and columns. Nothing is stated of the edited tree.
#[verifier::external_body]
fn edit_tree(tree: &mut tree_sitter::Tree, edit: &TextEdit) {
    tree.edit(&tree_sitter::InputEdit {
        start_byte: edit.start_byte,
        old_end_byte: edit.old_end_byte,
        new_end_byte: edit.new_end_byte,
        start_position: tree_sitter::Point { row: edit.start_position.row, column: edit.start_position.column },
        old_end_position: tree_sitter::Point { row: edit.old_end_position.row, column: edit.old_end_position.column },
        new_end_position: tree_sitter::Point { row: edit.new_end_position.row, column: edit.new_end_position.column },
    });
}

/// The nodes of a tree as plain values (`Tree::root_node`, then `Node::children` of each
/// node in turn), listed root first and each node's children after all earlier nodes'
/// children, with each node's kind, byte range, error flags, named-child count and the
/// positions of its children. It walks the tree with a list, not by recursion. Nothing is
/// stated of the result here: which tree the parser built is not named.
#[verifier::external_body]
fn syntax_of_tree(tree: &tree_sitter::Tree) -> (r: SyntaxTree)
    ensures
        r.nodes@.len() >= 1,
{
    let (mut pending, mut nodes, mut next) = (vec![tree.root_node()], Vec::new(), 0);
    while next < pending.len() {
        let (node, first) = (pending[next], pending.len());
        pending.extend(node.children(&mut node.walk()));
        nodes.push(SyntaxNode { kind: node.kind().to_string(), start_byte: node.start_byte(),
            end_byte: node.end_byte(), has_error: node.has_error(), is_error: node.is_error(),
            is_missing: node.is_missing(), named_child_count: node.named_child_count() as u32,
            children: (first..pending.len()).collect() });
        next += 1;
    }
    SyntaxTree { nodes }
}

/// What a fresh parse of `text` with the TypeScript grammar gives, as plain values; none
/// when the grammar is refused or the parser gives up.
pub uninterp spec fn typescript_syntax(text: Seq<char>) -> Option<SyntaxTree>;

/// What a fresh parse of `text` with the TSX grammar gives, as plain values; none when the
/// grammar is refused or the parser gives up.
pub uninterp spec fn tsx_syntax(text: Seq<char>) -> Option<SyntaxTree>;

/// A fresh parse of `text` with `tree_sitter_typescript::LANGUAGE_TYPESCRIPT`
/// (`Parser::new`, `set_language`, `parse` with no old tree): the tree and its nodes. The
/// nodes are named: a fresh parse depends only on the grammar and the text. There is at
/// least the root.
#[verifier::external_body]
fn parse_fresh_typescript(text: &str) -> (r: Option<(tree_sitter::Tree, SyntaxTree)>)
    ensures
        match r {
            Some(p) => typescript_syntax(text@) == Some(p.1) && p.1.nodes@.len() >= 1,
            None => typescript_syntax(text@) is None,
        },
{
    let mut parser = tree_sitter::Parser::new();
    parser.set_language(&tree_sitter_typescript::LANGUAGE_TYPESCRIPT.into()).ok()?;
    let tree = parser.parse(text, None)?;
    let syntax = syntax_of_tree(&tree);
    Some((tree, syntax))
}

/// A fresh parse of `text` with `tree_sitter_typescript::LANGUAGE_TSX`, as
/// `parse_fresh_typescript` does with its grammar.
#[verifier::external_body]
fn parse_fresh_tsx(text: &str) -> (r: Option<(tree_sitter::Tree, SyntaxTree)>)
    ensures
        match r {
            Some(p) => tsx_syntax(text@) == Some(p.1) && p.1.nodes@.len() >= 1,
            None => tsx_syntax(text@) is None,
        },
{
    let mut parser = tree_sitter::Parser::new();
    parser.set_language(&tree_sitter_typescript::LANGUAGE_TSX.into()).ok()?;
    let tree = parser.parse(text, None)?;
    let syntax = syntax_of_tree(&tree);
    Some((tree, syntax))
}

/// Whether a dialect is read with the TSX grammar (`.tsx`, `.jsx`) rather than the
/// TypeScript one.
pub open spec fn uses_tsx(language: TsJsLanguage) -> bool {
    language == TsJsLanguage::TypeScriptReact || language == TsJsLanguage::JavaScriptReact
}

/// What a fresh parse of `text` as `language` gives, by the dialect's grammar.
pub open spec fn fresh_syntax(language: TsJsLanguage, text: Seq<char>) -> Option<SyntaxTree> {
    if uses_tsx(language) { tsx_syntax(text) } else { typescript_syntax(text) }
}

fn parse_fresh(language: TsJsLanguage, text: &str) -> (r: Option<(tree_sitter::Tree, SyntaxTree)>)
    ensures
        match r {
            Some(p) => fresh_syntax(language, text@) == Some(p.1) && p.1.nodes@.len() >= 1,
            None => fresh_syntax(language, text@) is None,
        },
{
    match language {
        TsJsLanguage::TypeScriptReact | TsJsLanguage::JavaScriptReact => parse_fresh_tsx(text),
        _ => parse_fresh_typescript(text),
    }
}

/// The children of node `i` that a visit follows, among `cs`: those listed after `i`.
pub open spec fn followed(t: Seq<SyntaxNode>, i: int, cs: Seq<usize>) -> Seq<int>
    decreases cs.len(),
{
    if cs.len() == 0 {
        Seq::empty()
    } else {
        let r = followed(t, i, cs.drop_last());
        let c = cs.last() as int;
        if i < c < t.len() { r.push(c) } else { r }
    }
}

/// The children of node `i` that a visit follows.
pub open spec fn kids(t: Seq<SyntaxNode>, i: int) -> Seq<int> {
    followed(t, i, t[i].children@)
}

/// How many visits the subtree at `i` takes.
pub open spec fn size(t: Seq<SyntaxNode>, i: int) -> nat
    decreases t.len() - i, 1int, 0int,
{
    if 0 <= i < t.len() {
        1 + below(t, i, kids(t, i))
    } else {
        0
    }
}

/// How many visits the subtrees at `q` take, counting only those after `i`.
pub open spec fn below(t: Seq<SyntaxNode>, i: int, q: Seq<int>) -> nat
    decreases t.len() - i, 0int, q.len(),
{
    if q.len() == 0 {
        0
    } else {
        below(t, i, q.drop_last()) + if i < q.last() < t.len() { size(t, q.last()) } else { 0 }
    }
}

/// How many visits the subtrees at `q` take.
pub open spec fn qsize(t: Seq<SyntaxNode>, q: Seq<int>) -> nat
    decreases q.len(),
{
    if q.len() == 0 {
        0
    } else {
        qsize(t, q.drop_last()) + size(t, q.last())
    }
}

proof fn lemma_followed_after(t: Seq<SyntaxNode>, i: int, cs: Seq<usize>)
    ensures
        forall|k: int| 0 <= k < followed(t, i, cs).len() ==> i < #[trigger] followed(t, i, cs)[k] < t.len(),
    decreases cs.len(),
{
    if cs.len() > 0 {
        lemma_followed_after(t, i, cs.drop_last());
        let r = followed(t, i, cs.drop_last());
        let f = followed(t, i, cs);
        assert forall|k: int| 0 <= k < f.len() implies i < #[trigger] f[k] < t.len() by {
            if k < r.len() {
                assert(f[k] == r[k]);
            }
        }
    }
}

proof fn lemma_below_is_qsize(t: Seq<SyntaxNode>, i: int, q: Seq<int>)
    requires
        forall|k: int| 0 <= k < q.len() ==> i < #[trigger] q[k] < t.len(),
    ensures
        below(t, i, q) == qsize(t, q),
    decreases q.len(),
{
    if q.len() > 0 {
        lemma_below_is_qsize(t, i, q.drop_last());
    }
}

proof fn lemma_qsize_concat(t: Seq<SyntaxNode>, a: Seq<int>, b: Seq<int>)
    ensures
        qsize(t, a + b) == qsize(t, a) + qsize(t, b),
    decreases b.len(),
{
    if b.len() == 0 {
        assert(a + b =~= a);
    } else {
        lemma_qsize_concat(t, a, b.drop_last());
        assert((a + b).drop_last() =~= a + b.drop_last());
    }
}

proof fn lemma_qsize_front(t: Seq<SyntaxNode>, q: Seq<int>)
    requires
        q.len() > 0,
    ensures
        qsize(t, q) == size(t, q[0]) + qsize(t, q.drop_first()),
{
    let head = seq![q[0]];
    assert(head.drop_last() =~= Seq::<int>::empty());
    assert(qsize(t, head) == qsize(t, head.drop_last()) + size(t, head.last()));
    lemma_qsize_concat(t, head, q.drop_first());
    assert(head + q.drop_first() =~= q);
}

proof fn lemma_qsize_step(t: Seq<SyntaxNode>, q: Seq<int>)
    requires
        q.len() > 0,
        0 <= q[0] < t.len(),
    ensures
        qsize(t, q.drop_first() + kids(t, q[0])) + 1 == qsize(t, q),
{
    lemma_qsize_front(t, q);
    lemma_qsize_concat(t, q.drop_first(), kids(t, q[0]));
    lemma_followed_after(t, q[0], t[q[0]].children@);
    lemma_below_is_qsize(t, q[0], kids(t, q[0]));
}

/// The positions a breadth-first visit from the queue `q` goes through: the head, then
/// the rest of the queue with the head's children behind it.
pub open spec fn breadth_first(t: Seq<SyntaxNode>, q: Seq<int>) -> Seq<int>
    decreases qsize(t, q), q.len(),
    via breadth_first_decreases
{
    if q.len() == 0 {
        Seq::empty()
    } else if 0 <= q[0] < t.len() {
        seq![q[0]] + breadth_first(t, q.drop_first() + kids(t, q[0]))
    } else {
        breadth_first(t, q.drop_first())
    }
}

#[via_fn]
proof fn breadth_first_decreases(t: Seq<SyntaxNode>, q: Seq<int>) {
    if q.len() > 0 {
        if 0 <= q[0] < t.len() {
            lemma_qsize_step(t, q);
        } else {
            lemma_qsize_front(t, q);
        }
    }
}

/// The nodes at the positions `order`.
pub open spec fn nodes_at(t: Seq<SyntaxNode>, order: Seq<int>) -> Seq<SyntaxNode> {
    order.map_values(|i: int| t[i])
}

/// What tells two syntax diagnostics apart: the clamped byte span, the node kind and
/// whether the node is missing.
pub open spec fn diagnostic_key(li: LineIndex, n: SyntaxNode) -> (u32, u32, Seq<char>, bool) {
    let span = li.span_between(n.start_byte, n.end_byte);
    (span.bytes.start, span.bytes.end, n.kind@, n.is_missing)
}

/// The keys of the nodes reported so far.
pub open spec fn reported_keys(li: LineIndex, e: Seq<SyntaxNode>) -> Seq<(u32, u32, Seq<char>, bool)> {
    e.map_values(|n: SyntaxNode| diagnostic_key(li, n))
}

/// The nodes that get a syntax diagnostic when `nodes` are visited in order: each error or
/// missing node whose key was not reported yet, until `max` are reported.
pub open spec fn reported_nodes(li: LineIndex, nodes: Seq<SyntaxNode>, max: nat) -> Seq<SyntaxNode>
    decreases nodes.len(),
{
    if nodes.len() == 0 {
        Seq::empty()
    } else {
        let e = reported_nodes(li, nodes.drop_last(), max);
        let x = nodes.last();
        if e.len() < max && (x.is_error || x.is_missing) && !reported_keys(li, e).contains(diagnostic_key(li, x)) {
            e.push(x)
        } else {
            e
        }
    }
}

/// The message of a syntax diagnostic on node `n`.
pub open spec fn syntax_message(n: SyntaxNode) -> Seq<char> {
    if n.is_missing {
        "missing syntax node near "@ + n.kind@
    } else {
        "syntax error near "@ + n.kind@
    }
}

/// `d` is the syntax error diagnostic of node `n` of the file at `path`.
pub open spec fn is_syntax_diagnostic(d: ParseDiagnostic, path: Seq<char>, li: LineIndex, n: SyntaxNode) -> bool {
    &&& d.severity == ParseDiagnosticSeverity::Error
    &&& d.code == ParseDiagnosticCode::SyntaxError
    &&& d.message@ == syntax_message(n)
    &&& opt_view(d.path) == Some(path)
    &&& d.span == Some(li.span_between(n.start_byte, n.end_byte))
}

/// The message of a recovery reported without an error node.
pub open spec fn recovery_message() -> Seq<char> {
    "tree-sitter reported parse recovery without a concrete error node"@
}

/// `d` is the diagnostic that reports a recovery on the whole tree `root`.
pub open spec fn is_recovery_diagnostic(d: ParseDiagnostic, path: Seq<char>, li: LineIndex, root: SyntaxNode) -> bool {
    &&& d.severity == ParseDiagnosticSeverity::Error
    &&& d.code == ParseDiagnosticCode::PartialAnalysis
    &&& d.message@ == recovery_message()
    &&& opt_view(d.path) == Some(path)
    &&& d.span == Some(li.span_between(root.start_byte, root.end_byte))
}

proof fn lemma_reported_saturated(li: LineIndex, s: Seq<SyntaxNode>, t: Seq<SyntaxNode>, max: nat)
    requires
        reported_nodes(li, s, max).len() >= max,
    ensures
        reported_nodes(li, s + t, max) == reported_nodes(li, s, max),
    decreases t.len(),
{
    if t.len() == 0 {
        assert(s + t =~= s);
    } else {
        lemma_reported_saturated(li, s, t.drop_last(), max);
        assert((s + t).drop_last() =~= s + t.drop_last());
    }
}

/// `r` is the diagnostics report of the tree `t` of the file at `path`: one syntax
/// diagnostic per reported node of a breadth-first visit from the root, or, where no node
/// is reported and the root says the tree holds an error, one recovery diagnostic.
pub open spec fn diagnostics_report(r: Seq<ParseDiagnostic>, path: Seq<char>, li: LineIndex, t: Seq<SyntaxNode>, max: usize) -> bool {
    let e = reported_nodes(li, nodes_at(t, breadth_first(t, seq![0int])), max as nat);
    if e.len() == 0 && t.len() > 0 && t[0].has_error {
        &&& r.len() == 1
        &&& is_recovery_diagnostic(r[0], path, li, t[0])
    } else {
        &&& r.len() == e.len()
        &&& forall|i: int| 0 <= i < e.len() ==> is_syntax_diagnostic(#[trigger] r[i], path, li, e[i])
    }
}

/// Syntax diagnostics stay within the per-file limit, and no two of them share a span,
/// a node kind and missingness.
pub proof fn law_reported_nodes_bounded_and_distinct(li: LineIndex, nodes: Seq<SyntaxNode>, max: nat)
    ensures
        reported_nodes(li, nodes, max).len() <= max,
        forall|i: int, j: int| 0 <= i < j < reported_nodes(li, nodes, max).len()
            ==> diagnostic_key(li, #[trigger] reported_nodes(li, nodes, max)[i])
                != diagnostic_key(li, #[trigger] reported_nodes(li, nodes, max)[j]),
    decreases nodes.len(),
{
    if nodes.len() > 0 {
        law_reported_nodes_bounded_and_distinct(li, nodes.drop_last(), max);
        let e = reported_nodes(li, nodes.drop_last(), max);
        let x = nodes.last();
        let r = reported_nodes(li, nodes, max);
        if r.len() > e.len() {
            assert forall|i: int, j: int| 0 <= i < j < r.len()
                implies diagnostic_key(li, #[trigger] r[i]) != diagnostic_key(li, #[trigger] r[j]) by {
                if j == r.len() - 1 {
                    assert(r[i] == e[i]);
                    assert(reported_keys(li, e)[i] == diagnostic_key(li, e[i]));
                } else {
                    assert(r[i] == e[i] && r[j] == e[j]);
                }
            }
        }
    }
}

/// The keys held, as plain text.
pub open spec fn key_views(keys: Seq<(u32, u32, String, bool)>) -> Seq<(u32, u32, Seq<char>, bool)> {
    keys.map_values(|k: (u32, u32, String, bool)| (k.0, k.1, k.2@, k.3))
}

fn key_seen(seen: &Vec<(u32, u32, String, bool)>, start: u32, end: u32, kind: &String, missing: bool) -> (r: bool)
    ensures
        r == key_views(seen@).contains((start, end, kind@, missing)),
{
    let ghost k = (start, end, kind@, missing);
    let mut i: usize = 0;
    while i < seen.len()
        invariant
            0 <= i <= seen@.len(),
            k == (start, end, kind@, missing),
            forall|j: int| 0 <= j < i ==> key_views(seen@)[j] != k,
        decreases seen@.len() - i,
    {
        let e = &seen[i];
        assert(key_views(seen@)[i as int] == (e.0, e.1, e.2@, e.3));
        if e.0 == start && e.1 == end && e.3 == missing && e.2 == *kind {
            assert(key_views(seen@)[i as int] == k);
            return true;
        }
        i = i + 1;
    }
    false
}

fn syntax_diagnostic(path: &str, line_index: &LineIndex, node: &SyntaxNode) -> (d: ParseDiagnostic)
    ensures
        is_syntax_diagnostic(d, path@, *line_index, *node),
{
    let message = if node.is_missing {
        concat2("missing syntax node near ", node.kind.as_str())
    } else {
        concat2("syntax error near ", node.kind.as_str())
    };
    ParseDiagnostic {
        severity: ParseDiagnosticSeverity::Error,
        code: ParseDiagnosticCode::SyntaxError,
        message,
        path: Some(owned(path)),
        span: Some(line_index.byte_range_to_span(node.start_byte, node.end_byte)),
    }
}

/// The syntax diagnostics of the tree `tree` of the file at `path`: its nodes are visited
/// breadth-first from the root, and each error or missing node whose span, kind and
/// missingness were not reported yet is reported, until `diagnostics_max_per_file` are.
/// Where none is reported and the root says the tree holds an error, one recovery
/// diagnostic on the whole tree is given instead.
pub fn collect_diagnostics(path: &str, line_index: &LineIndex, tree: &SyntaxTree, diagnostics_max_per_file: usize)
    -> (r: Vec<ParseDiagnostic>)
    ensures
        diagnostics_report(r@, path@, *line_index, tree.nodes@, diagnostics_max_per_file),
{
    let ghost li = *line_index;
    let ghost max = diagnostics_max_per_file as nat;
    let ghost t = tree.nodes@;
    let ghost full = breadth_first(t, seq![0int]);
    let n = tree.nodes.len();
    let mut queue: Vec<usize> = Vec::new();
    if n > 0 {
        queue.push(0);
    }
    let mut head: usize = 0;
    let ghost mut visited: Seq<int> = Seq::empty();
    let mut diagnostics: Vec<ParseDiagnostic> = Vec::new();
    let mut seen: Vec<(u32, u32, String, bool)> = Vec::new();
    proof {
        if n > 0 {
            assert(ints(queue@.subrange(0, 1)) =~= seq![0int]);
        } else {
            assert(breadth_first(t, seq![0int]) == breadth_first(t, seq![0int].drop_first()));
            assert(seq![0int].drop_first() =~= Seq::<int>::empty());
            assert(ints(queue@.subrange(0, 0)) =~= Seq::<int>::empty());
        }
        assert(visited + full =~= full);
    }
    while head < queue.len()
        invariant
            head <= queue@.len(),
            n == t.len(),
            t == tree.nodes@,
            full == breadth_first(t, seq![0int]),
            forall|k: int| 0 <= k < queue@.len() ==> #[trigger] queue@[k] < n,
            full == visited + breadth_first(t, ints(queue@.subrange(head as int, queue@.len() as int))),
            diagnostics@.len() == reported_nodes(li, nodes_at(t, visited), max).len(),
            forall|i: int| 0 <= i < diagnostics@.len() ==> is_syntax_diagnostic(
                #[trigger] diagnostics@[i], path@, li, reported_nodes(li, nodes_at(t, visited), max)[i]),
            key_views(seen@) == reported_keys(li, reported_nodes(li, nodes_at(t, visited), max)),
            li == *line_index,
            max == diagnostics_max_per_file as nat,
        ensures
            head >= queue@.len() || diagnostics@.len() >= diagnostics_max_per_file,
        decreases qsize(t, ints(queue@.subrange(head as int, queue@.len() as int))),
    {
        if diagnostics.len() >= diagnostics_max_per_file {
            break;
        }
        let ghost rest = ints(queue@.subrange(head as int, queue@.len() as int));
        let ghost before = reported_nodes(li, nodes_at(t, visited), max);
        let x = queue[head];
        let node: &SyntaxNode = &tree.nodes[x];
        proof {
            assert(rest[0] == x as int);
            lemma_qsize_step(t, rest);
        }
        head = head + 1;
        if node.is_error || node.is_missing {
            let span = line_index.byte_range_to_span(node.start_byte, node.end_byte);
            let found = key_seen(&seen, span.bytes.start, span.bytes.end, &node.kind, node.is_missing);
            if !found {
                let d = syntax_diagnostic(path, line_index, node);
                diagnostics.push(d);
                seen.push((span.bytes.start, span.bytes.end, node.kind.clone(), node.is_missing));
            }
        }
        proof {
            let after = visited.push(x as int);
            assert(nodes_at(t, after) =~= nodes_at(t, visited).push(*node));
            let va = nodes_at(t, after);
            assert(va.drop_last() =~= nodes_at(t, visited));
            let e2 = reported_nodes(li, va, max);
            assert(e2 == if before.len() < max && (node.is_error || node.is_missing)
                && !reported_keys(li, before).contains(diagnostic_key(li, *node)) { before.push(*node) } else { before });
            if e2.len() > before.len() {
                assert(reported_keys(li, e2) =~= reported_keys(li, before).push(diagnostic_key(li, *node)));
                assert(key_views(seen@) =~= reported_keys(li, e2));
            }
            visited = after;
        }
        let ghost mid = queue@;
        let mut j: usize = 0;
        while j < node.children.len()
            invariant
                0 <= j <= node.children@.len(),
                head <= mid.len(),
                n == t.len(),
                x < n,
                *node == t[x as int],
                forall|k: int| 0 <= k < mid.len() ==> #[trigger] mid[k] < n,
                queue@.subrange(0, mid.len() as int) == mid,
                queue@.len() >= mid.len(),
                ints(queue@.subrange(mid.len() as int, queue@.len() as int)) == followed(t, x as int, node.children@.take(j as int)),
                forall|k: int| 0 <= k < queue@.len() ==> #[trigger] queue@[k] < n,
            decreases node.children@.len() - j,
        {
            let c = node.children[j];
            let ghost before_q = queue@;
            proof {
                assert(node.children@.take(j + 1).drop_last() =~= node.children@.take(j as int));
                assert(node.children@.take(j + 1).last() == c);
            }
            if x < c && c < n {
                queue.push(c);
                assert(ints(queue@.subrange(mid.len() as int, queue@.len() as int))
                    =~= ints(before_q.subrange(mid.len() as int, before_q.len() as int)).push(c as int));
            } else {
                assert(queue@ == before_q);
            }
            assert(queue@.subrange(0, mid.len() as int) =~= before_q.subrange(0, mid.len() as int));
            j = j + 1;
        }
        proof {
            assert(node.children@.take(node.children@.len() as int) =~= node.children@);
            let now = ints(queue@.subrange(head as int, queue@.len() as int));
            assert(ints(queue@.subrange(head as int, mid.len() as int)) =~= rest.drop_first());
            assert(now =~= ints(queue@.subrange(head as int, mid.len() as int)) + ints(queue@.subrange(mid.len() as int, queue@.len() as int)));
            assert(now =~= rest.drop_first() + kids(t, x as int));
            assert(breadth_first(t, rest) == seq![rest[0]] + breadth_first(t, rest.drop_first() + kids(t, rest[0])));
            assert(full =~= visited + breadth_first(t, now));
        }
    }
    proof {
        let rest = ints(queue@.subrange(head as int, queue@.len() as int));
        if head >= queue@.len() {
            assert(rest =~= Seq::<int>::empty());
            assert(full =~= visited);
        } else {
            assert(nodes_at(t, visited + breadth_first(t, rest)) =~= nodes_at(t, visited) + nodes_at(t, breadth_first(t, rest)));
            lemma_reported_saturated(li, nodes_at(t, visited), nodes_at(t, breadth_first(t, rest)), max);
        }
    }
    if diagnostics.len() == 0 && n > 0 && tree.nodes[0].has_error {
        let root = &tree.nodes[0];
        diagnostics.push(ParseDiagnostic {
            severity: ParseDiagnosticSeverity::Error,
            code: ParseDiagnosticCode::PartialAnalysis,
            message: owned("tree-sitter reported parse recovery without a concrete error node"),
            path: Some(owned(path)),
            span: Some(line_index.byte_range_to_span(root.start_byte, root.end_byte)),
        });
    }
    diagnostics
}

/// Positions as integers.
pub open spec fn ints(q: Seq<usize>) -> Seq<int> {
    q.map_values(|i: usize| i as int)
}

impl AstNodeHandle {
    /// The handle of a syntax node of the text `line_index` was built from.
    pub fn from_node(node: &SyntaxNode, line_index: &LineIndex) -> (r: Self)
        ensures
            is_handle_of(r, *line_index, *node),
    {
        Self::from_byte_range(
            node.kind.as_str(),
            line_index,
            node.start_byte,
            node.end_byte,
            node.has_error,
            node.is_error,
            node.is_missing,
            node.named_child_count,
            node.children.len() as u32,
        )
    }
}

/// `h` is the handle of node `n` of the text indexed by `li`.
pub open spec fn is_handle_of(h: AstNodeHandle, li: LineIndex, n: SyntaxNode) -> bool {
    &&& h.kind@ == n.kind@
    &&& h.span == li.span_between(n.start_byte, n.end_byte)
    &&& h.named_child_count == n.named_child_count
    &&& h.child_count == n.children@.len() as u32
    &&& h.has_error == n.has_error
    &&& h.is_error == n.is_error
    &&& h.is_missing == n.is_missing
}

impl DeepCopy for ParseCandidate {
    fn deep_copy(&self) -> (r: Self) {
        ParseCandidate {
            path: self.path.clone(),
            language: self.language,
            source_kind: self.source_kind,
            content_sha256: self.content_sha256.clone(),
            content_bytes: self.content_bytes,
        }
    }
}

impl DeepCopy for AstNodeHandle {
    fn deep_copy(&self) -> (r: Self) {
        AstNodeHandle {
            kind: self.kind.clone(),
            span: self.span,
            named_child_count: self.named_child_count,
            child_count: self.child_count,
            has_error: self.has_error,
            is_error: self.is_error,
            is_missing: self.is_missing,
        }
    }
}

impl DeepCopy for ParseDiagnostic {
    fn deep_copy(&self) -> (r: Self) {
        ParseDiagnostic {
            severity: self.severity,
            code: self.code,
            message: self.message.clone(),
            path: self.path.deep_copy(),
            span: self.span,
        }
    }
}

/// `a` and `b` hold the same metadata.
pub open spec fn same_metadata(a: FileParseArtifactMetadata, b: FileParseArtifactMetadata) -> bool {
    &&& a.artifact_id == b.artifact_id
    &&& a.path == b.path
    &&& a.language == b.language
    &&& a.source_kind == b.source_kind
    &&& a.stage == b.stage
    &&& a.content_sha256 == b.content_sha256
    &&& a.content_bytes == b.content_bytes
    &&& a.parser_pack_id == b.parser_pack_id
    &&& a.facts == b.facts
    &&& a.diagnostics@ == b.diagnostics@
}

fn copy_metadata(m: &FileParseArtifactMetadata) -> (r: FileParseArtifactMetadata)
    ensures
        same_metadata(r, *m),
{
    FileParseArtifactMetadata {
        artifact_id: m.artifact_id.clone(),
        path: m.path.clone(),
        language: m.language,
        source_kind: m.source_kind,
        stage: m.stage,
        content_sha256: m.content_sha256.clone(),
        content_bytes: m.content_bytes,
        parser_pack_id: m.parser_pack_id.clone(),
        facts: m.facts,
        diagnostics: crate::planner::copy::copy_vec(&m.diagnostics),
    }
}

/// A tree-sitter tree of a parsed file.
pub struct ParsedSyntaxTree {
    tree: tree_sitter::Tree,
}

impl ParsedSyntaxTree {
    /// Wraps a tree.
    pub fn new(tree: tree_sitter::Tree) -> Self {
        ParsedSyntaxTree { tree }
    }

    /// The tree.
    pub fn tree(&self) -> &tree_sitter::Tree {
        &self.tree
    }
}

/// The digest that identifies contents: the lower-case hexadecimal SHA-256 of their UTF-8
/// bytes.
pub open spec fn content_digest(contents: Seq<char>) -> Seq<char> {
    hex_lower(sha256(utf8(contents)))
}

/// `m` is the metadata of a parse of `contents` as `c`, with `diagnostics`.
pub open spec fn is_metadata_of(m: FileParseArtifactMetadata, c: ParseCandidate, contents: Seq<char>, diagnostics: Seq<ParseDiagnostic>) -> bool {
    &&& m.artifact_id@ == "parse:"@ + c.path@ + ":"@ + content_digest(contents)
    &&& m.path@ == c.path@
    &&& m.language == protocol_language(c.language)
    &&& m.source_kind == c.source_kind
    &&& m.stage == ParseArtifactStage::Parsed
    &&& m.content_sha256@ == content_digest(contents)
    &&& m.content_bytes == c.content_bytes as u64
    &&& m.parser_pack_id@ == TS_JS_PACK_ID@
    &&& m.facts == (FileFactsSummary { symbol_count: 0, occurrence_count: 0, edge_count: 0 })
    &&& m.diagnostics@ == diagnostics
}

/// A parsed file: what was parsed, its tree, and what was learned of it.
pub struct ParseArtifact {
    pub candidate: ParseCandidate,
    pub cache_key: ParseCacheKey,
    pub metadata: FileParseArtifactMetadata,
    pub parse_succeeded: bool,
    pub reused_incremental_tree: bool,
    pub contents: String,
    pub line_index: LineIndex,
    pub syntax: ParsedSyntaxTree,
    pub nodes: SyntaxTree,
    pub root: AstNodeHandle,
}

impl ParseArtifact {
    /// `self` is a parse of `contents` as `c`, keeping at most `max` diagnostics, that
    /// reused an earlier tree exactly when `reused`; a parse that reused none holds the
    /// nodes of a fresh parse of the contents with the dialect's grammar.
    pub open spec fn is_parse_of(&self, c: ParseCandidate, contents: Seq<char>, max: usize, reused: bool) -> bool {
        &&& self.candidate == c
        &&& key_view(self.cache_key) == (c.path@, content_digest(contents))
        &&& self.contents@ == contents
        &&& self.line_index.starts() == crate::parser::line_index::line_starts_of(utf8(contents))
        &&& self.line_index.len_view() == utf8(contents).len()
        &&& self.parse_succeeded
        &&& self.reused_incremental_tree == reused
        &&& self.nodes.nodes@.len() >= 1
        &&& is_handle_of(self.root, self.line_index, self.nodes.nodes@[0])
        &&& diagnostics_report(self.metadata.diagnostics@, c.path@, self.line_index, self.nodes.nodes@, max)
        &&& !reused ==> fresh_syntax(c.language, contents) == Some(self.nodes)
        &&& is_metadata_of(self.metadata, c, contents, self.metadata.diagnostics@)
    }

    /// What was parsed.
    pub fn candidate(&self) -> (r: &ParseCandidate)
        ensures
            *r == self.candidate,
    {
        &self.candidate
    }

    /// The key the parse is cached under.
    pub fn cache_key(&self) -> (r: &ParseCacheKey)
        ensures
            *r == self.cache_key,
    {
        &self.cache_key
    }

    /// The parse's metadata.
    pub fn metadata(&self) -> (r: &FileParseArtifactMetadata)
        ensures
            *r == self.metadata,
    {
        &self.metadata
    }

    /// Whether the parse produced a tree.
    pub fn parse_succeeded(&self) -> (r: bool)
        ensures
            r == self.parse_succeeded,
    {
        self.parse_succeeded
    }

    /// Whether the parser recovered from errors: whether any diagnostic was reported.
    pub fn has_recoverable_errors(&self) -> (r: bool)
        ensures
            r == (self.metadata.diagnostics@.len() > 0),
    {
        self.metadata.diagnostics.len() > 0
    }

    /// Whether an earlier tree of the file was reused.
    pub fn reused_incremental_tree(&self) -> (r: bool)
        ensures
            r == self.reused_incremental_tree,
    {
        self.reused_incremental_tree
    }

    /// The contents parsed.
    pub fn contents(&self) -> (r: &str)
        ensures
            r@ == self.contents@,
    {
        self.contents.as_str()
    }

    /// The line index of the contents.
    pub fn line_index(&self) -> (r: &LineIndex)
        ensures
            *r == self.line_index,
    {
        &self.line_index
    }

    /// The tree-sitter tree.
    pub fn syntax(&self) -> &ParsedSyntaxTree {
        &self.syntax
    }

    /// The handle of the tree's root.
    pub fn root(&self) -> (r: &AstNodeHandle)
        ensures
            *r == self.root,
    {
        &self.root
    }

    /// What an inspection of the parse reports.
    pub fn inspection(&self) -> (r: ParseArtifactInspection)
        ensures
            same_metadata(r.artifact, self.metadata),
            r.parse_succeeded == self.parse_succeeded,
            r.has_recoverable_errors == (self.metadata.diagnostics@.len() > 0),
            r.reused_incremental_tree == self.reused_incremental_tree,
            r.line_count == self.line_index.starts().len() as u32,
            r.root == self.root,
    {
        ParseArtifactInspection {
            artifact: copy_metadata(&self.metadata),
            parse_succeeded: self.parse_succeeded,
            has_recoverable_errors: self.has_recoverable_errors(),
            reused_incremental_tree: self.reused_incremental_tree,
            line_count: self.line_index.line_count() as u32,
            root: self.root.deep_copy(),
        }
    }
}

/// What a later parse of a file needs of its last parse.
pub struct CachedParse {
    pub language: TsJsLanguage,
    pub contents: String,
    pub line_index: LineIndex,
    pub tree: tree_sitter::Tree,
}

/// The parses of a snapshot, and the paths that no grammar covers.
pub struct ParseBatchPlan {
    pub snapshot_id: String,
    pub artifacts: Vec<ParseArtifact>,
    pub skipped_paths: Vec<String>,
}

/// A parser of TypeScript and JavaScript files that keeps each file's last tree for
/// incremental reparsing.
pub struct ParseCore {
    language_pack: TsJsLanguagePack,
    cache: ParseCache<CachedParse>,
    settings: ParseCoreSettings,
}

/// The message of a parse that produced no tree.
pub open spec fn parse_failure(path: Seq<char>) -> Seq<char> {
    "tree-sitter failed to parse "@ + path
}

/// The message of an incremental reparse that produced no tree.
pub open spec fn reparse_failure(path: Seq<char>) -> Seq<char> {
    "tree-sitter failed to reparse "@ + path
}

/// `m` says why a parse of the file at `path` failed: its grammar was refused, or the
/// parser produced no tree.
pub open spec fn is_parse_failure(m: Seq<char>, path: Seq<char>) -> bool {
    ||| crate::text::has_prefix(m, "failed to load parser grammar: "@)
    ||| m == parse_failure(path)
    ||| m == reparse_failure(path)
}

impl ParseCore {
    /// The core's own consistency: its cache is well formed.
    pub closed spec fn wf(&self) -> bool {
        self.cache.wf()
    }

    /// The per-file diagnostic limit.
    pub closed spec fn max_diagnostics(&self) -> usize {
        self.settings.diagnostics_max_per_file
    }

    /// The dialect and contents of the last parse of `path`, if any.
    pub closed spec fn last_parse(&self, path: Seq<char>) -> Option<(TsJsLanguage, Seq<char>)> {
        match self.cache.latest_value(path) {
            Some(c) => Some((c.language, c.contents@)),
            None => None,
        }
    }

    /// How many parses are cached.
    pub closed spec fn cached_count(&self) -> nat {
        self.cache.entries_view().dom().len()
    }

    /// A core with an empty cache and these settings.
    pub fn with_settings(settings: ParseCoreSettings) -> (r: Self)
        ensures
            r.wf(),
            r.max_diagnostics() == settings.diagnostics_max_per_file,
            r.cached_count() == 0,
            forall|p: Seq<char>| r.last_parse(p) is None,
    {
        let cache = ParseCache::default();
        proof {
            assert(cache.entries_view().dom() =~= Set::empty());
        }
        ParseCore { language_pack: TsJsLanguagePack, cache, settings }
    }

    /// How many parses are cached.
    pub fn cache_len(&self) -> (r: usize)
        requires
            self.wf(),
        ensures
            r == self.cached_count(),
    {
        self.cache.len()
    }

    /// Parses `contents` as `candidate`. Where `previous` holds an earlier parse of the
    /// file in the same dialect, its tree is reused: as it is when the contents are the
    /// same, else edited to match and reparsed.
    fn parse_from_contents(
        &self,
        candidate: ParseCandidate,
        contents: String,
        previous: Option<(TsJsLanguage, &str, &LineIndex, &tree_sitter::Tree)>,
    ) -> (r: Result<ParseArtifact, ParserError>)
        ensures
            match r {
                Ok(a) => a.is_parse_of(candidate, contents@, self.settings.diagnostics_max_per_file,
                    previous matches Some(p) && p.0 == candidate.language),
                Err(ParserError::Message(m)) => is_parse_failure(m@, candidate.path@),
            },
    {
        let cache_key = ParseCacheKey::from_contents(candidate.path.as_str(), contents.as_str());
        let line_index = LineIndex::new(contents.as_str());
        let mut parser = self.language_pack.new_parser(candidate.language)?;
        let same_language = match previous {
            Some(p) => p.0 == candidate.language,
            None => false,
        };
        let (tree, reused) = match previous {
            Some((_, prior_contents, prior_index, prior_tree)) if same_language => {
                if owned(prior_contents) == contents {
                    (copy_tree(prior_tree), true)
                } else {
                    let mut edited = copy_tree(prior_tree);
                    let edit = prior_index.edit_from(prior_contents, contents.as_str(), &line_index);
                    edit_tree(&mut edited, &edit);
                    match parse_text(&mut parser, contents.as_str(), Some(&edited)) {
                        Some(t) => (t, true),
                        None => {
                            return Err(ParserError::Message(concat2("tree-sitter failed to reparse ", candidate.path.as_str())));
                        },
                    }
                }
            },
            _ => {
                match parse_fresh(candidate.language, contents.as_str()) {
                    Some((t, fresh)) => {
                        let root = AstNodeHandle::from_node(&fresh.nodes[0], &line_index);
                        let diagnostics = collect_diagnostics(candidate.path.as_str(), &line_index, &fresh, self.settings.diagnostics_max_per_file);
                        return Ok(self.artifact_of(candidate, cache_key, contents, line_index, t, fresh, root, diagnostics, false));
                    },
                    None => {
                        return Err(ParserError::Message(concat2("tree-sitter failed to parse ", candidate.path.as_str())));
                    },
                }
            },
        };
        let nodes = syntax_of_tree(&tree);
        let root = AstNodeHandle::from_node(&nodes.nodes[0], &line_index);
        let diagnostics = collect_diagnostics(candidate.path.as_str(), &line_index, &nodes, self.settings.diagnostics_max_per_file);
        Ok(self.artifact_of(candidate, cache_key, contents, line_index, tree, nodes, root, diagnostics, reused))
    }

    fn artifact_of(
        &self,
        candidate: ParseCandidate,
        cache_key: ParseCacheKey,
        contents: String,
        line_index: LineIndex,
        tree: tree_sitter::Tree,
        nodes: SyntaxTree,
        root: AstNodeHandle,
        diagnostics: Vec<ParseDiagnostic>,
        reused: bool,
    ) -> (a: ParseArtifact)
        requires
            key_view(cache_key) == (candidate.path@, content_digest(contents@)),
            cache_key.content_sha256@ == content_digest(contents@),
        ensures
            a.candidate == candidate,
            a.cache_key == cache_key,
            a.contents == contents,
            a.line_index == line_index,
            a.nodes == nodes,
            a.root == root,
            a.parse_succeeded,
            a.reused_incremental_tree == reused,
            a.metadata.diagnostics@ == diagnostics@,
            is_metadata_of(a.metadata, candidate, contents@, diagnostics@),
    {
        let mut artifact_id = owned("parse:");
        push_str(&mut artifact_id, candidate.path.as_str());
        push_str(&mut artifact_id, ":");
        push_str(&mut artifact_id, cache_key.content_sha256.as_str());
        let metadata = FileParseArtifactMetadata {
            artifact_id,
            path: candidate.path.clone(),
            language: candidate.language.to_protocol_language(),
            source_kind: candidate.source_kind,
            stage: ParseArtifactStage::Parsed,
            content_sha256: cache_key.content_sha256.clone(),
            content_bytes: candidate.content_bytes as u64,
            parser_pack_id: owned(self.language_pack.pack_id()),
            facts: FileFactsSummary { symbol_count: 0, occurrence_count: 0, edge_count: 0 },
            diagnostics,
        };
        ParseArtifact {
            candidate,
            cache_key,
            metadata,
            parse_succeeded: true,
            reused_incremental_tree: reused,
            contents,
            line_index,
            syntax: ParsedSyntaxTree::new(tree),
            nodes,
            root,
        }
    }

    /// Parses `contents` as `candidate`, reusing the last tree of the same path when its
    /// dialect is the same, and keeps the new parse as the path's last.
    pub fn parse_contents(&mut self, candidate: ParseCandidate, contents: String) -> (r: Result<ParseArtifact, ParserError>)
        requires
            old(self).wf(),
        ensures
            final(self).wf(),
            final(self).max_diagnostics() == old(self).max_diagnostics(),
            match r {
                Ok(a) => {
                    &&& a.is_parse_of(candidate, contents@, old(self).max_diagnostics(),
                        old(self).last_parse(candidate.path@) matches Some(p) && p.0 == candidate.language)
                    &&& final(self).last_parse(candidate.path@) == Some((candidate.language, contents@))
                },
                Err(ParserError::Message(m)) => is_parse_failure(m@, candidate.path@) && *final(self) == *old(self),
            },
    {
        let result = match self.cache.latest_for_path(candidate.path.as_str()) {
            Some(prior) => self.parse_from_contents(
                candidate,
                contents,
                Some((prior.language, prior.contents.as_str(), &prior.line_index, &prior.tree)),
            ),
            None => self.parse_from_contents(candidate, contents, None),
        };
        let artifact = result?;
        let key = ParseCacheKey {
            path: artifact.cache_key.path.clone(),
            content_sha256: artifact.cache_key.content_sha256.clone(),
        };
        let kept = CachedParse {
            language: artifact.candidate.language,
            contents: artifact.contents.clone(),
            line_index: artifact.line_index.duplicate(),
            tree: copy_tree(artifact.syntax.tree()),
        };
        self.cache.upsert(key, kept);
        Ok(artifact)
    }

    /// Reparses the file of `prior` with `new_contents` from `source_kind`, reusing the
    /// prior tree.
    pub fn reparse(&mut self, prior: &ParseArtifact, new_contents: &str, source_kind: ParseInputSourceKind)
        -> (r: Result<ParseArtifact, ParserError>)
        ensures
            *final(self) == *old(self),
            match r {
                Ok(a) => a.is_parse_of(
                    ParseCandidate {
                        path: prior.candidate.path,
                        language: prior.candidate.language,
                        source_kind,
                        content_sha256: a.candidate.content_sha256,
                        content_bytes: utf8(new_contents@).len() as usize,
                    },
                    new_contents@,
                    old(self).max_diagnostics(),
                    true,
                ) && a.candidate.content_sha256@ == content_digest(new_contents@),
                Err(ParserError::Message(m)) => is_parse_failure(m@, prior.candidate.path@),
            },
    {
        let key = ParseCacheKey::from_contents(prior.candidate.path.as_str(), new_contents);
        let candidate = ParseCandidate {
            path: prior.candidate.path.clone(),
            language: prior.candidate.language,
            source_kind,
            content_sha256: key.content_sha256,
            content_bytes: new_contents.len(),
        };
        self.parse_from_contents(
            candidate,
            owned(new_contents),
            Some((prior.candidate.language, prior.contents.as_str(), &prior.line_index, prior.syntax.tree())),
        )
    }
}

/// The dialect of a path, by its extension.
pub open spec fn dialect_of(path: Seq<char>) -> Option<TsJsLanguage> {
    language_for_extension(path_extension(path))
}

/// One path of a snapshot and its resolved content, none where an overlay deletes it.
pub type SnapshotPathEntry = (String, Option<ResolvedSnapshotFile>);

/// The paths among `entries` that no dialect covers, in order.
pub open spec fn unparsed_paths(entries: Seq<SnapshotPathEntry>) -> Seq<Seq<char>>
    decreases entries.len(),
{
    if entries.len() == 0 {
        Seq::empty()
    } else {
        let rest = unparsed_paths(entries.drop_last());
        if dialect_of(entries.last().0@) is None {
            rest.push(entries.last().0@)
        } else {
            rest
        }
    }
}

/// The resolved files among `entries` whose path a dialect covers, with that dialect, in
/// order.
pub open spec fn parse_targets(entries: Seq<SnapshotPathEntry>) -> Seq<(ResolvedSnapshotFile, TsJsLanguage)>
    decreases entries.len(),
{
    if entries.len() == 0 {
        Seq::empty()
    } else {
        let rest = parse_targets(entries.drop_last());
        match (dialect_of(entries.last().0@), entries.last().1) {
            (Some(l), Some(f)) => rest.push((f, l)),
            _ => rest,
        }
    }
}

/// `a` is a parse of the resolved file `f` as dialect `l`.
pub open spec fn parses_file(a: ParseArtifact, f: ResolvedSnapshotFile, l: TsJsLanguage, max: usize) -> bool {
    &&& a.candidate.path@ == f.path@
    &&& a.candidate.language == l
    &&& a.candidate.source_kind == f.source_kind
    &&& a.candidate.content_sha256@ == content_digest(f.contents@)
    &&& a.candidate.content_bytes == utf8(f.contents@).len()
    &&& a.is_parse_of(a.candidate, f.contents@, max, a.reused_incremental_tree)
}

impl ParseCore {
    fn parse_resolved(&mut self, file: ResolvedSnapshotFile, language: TsJsLanguage) -> (r: Result<ParseArtifact, ParserError>)
        requires
            old(self).wf(),
        ensures
            final(self).wf(),
            final(self).max_diagnostics() == old(self).max_diagnostics(),
            match r {
                Ok(a) => parses_file(a, file, language, old(self).max_diagnostics()),
                Err(ParserError::Message(m)) => is_parse_failure(m@, file.path@),
            },
    {
        let key = ParseCacheKey::from_contents(file.path.as_str(), file.contents.as_str());
        let candidate = ParseCandidate {
            path: file.path.clone(),
            language,
            source_kind: file.source_kind,
            content_sha256: key.content_sha256,
            content_bytes: file.contents.as_str().len(),
        };
        let contents = file.contents;
        self.parse_contents(candidate, contents)
    }

    /// Parses the files of a snapshot: `entries` holds each path the snapshot names and
    /// its resolved content. A path that no dialect covers is listed as skipped; a path
    /// that the snapshot deletes is passed over; every other file is parsed, in order.
    pub fn parse_snapshot(&mut self, snapshot_id: &str, entries: Vec<SnapshotPathEntry>) -> (r: Result<ParseBatchPlan, ParserError>)
        requires
            old(self).wf(),
        ensures
            final(self).wf(),
            final(self).max_diagnostics() == old(self).max_diagnostics(),
            match r {
                Ok(plan) => {
                    &&& plan.snapshot_id@ == snapshot_id@
                    &&& crate::text::views(plan.skipped_paths@) == unparsed_paths(entries@)
                    &&& plan.artifacts@.len() == parse_targets(entries@).len()
                    &&& forall|i: int| 0 <= i < plan.artifacts@.len() ==> parses_file(
                        #[trigger] plan.artifacts@[i], parse_targets(entries@)[i].0, parse_targets(entries@)[i].1,
                        old(self).max_diagnostics())
                },
                Err(ParserError::Message(m)) => exists|i: int| 0 <= i < parse_targets(entries@).len()
                    && is_parse_failure(m@, parse_targets(entries@)[i].0.path@),
            },
    {
        let ghost all = entries@;
        let ghost max = self.settings.diagnostics_max_per_file;
        let mut artifacts: Vec<ParseArtifact> = Vec::new();
        let mut skipped_paths: Vec<String> = Vec::new();
        let mut rest = entries;
        assert(rest@.len() == rest.len());
        let mut i: usize = 0;
        while rest.len() > 0
            invariant
                0 <= i <= all.len(),
                all.len() <= usize::MAX,
                all == entries@,
                rest@ == all.subrange(i as int, all.len() as int),
                self.wf(),
                self.max_diagnostics() == max,
                max == old(self).max_diagnostics(),
                crate::text::views(skipped_paths@) == unparsed_paths(all.subrange(0, i as int)),
                artifacts@.len() == parse_targets(all.subrange(0, i as int)).len(),
                forall|k: int| 0 <= k < artifacts@.len() ==> parses_file(
                    #[trigger] artifacts@[k], parse_targets(all.subrange(0, i as int))[k].0,
                    parse_targets(all.subrange(0, i as int))[k].1, max),
            decreases rest@.len(),
        {
            let entry = rest.remove(0);
            let ghost prefix = all.subrange(0, i as int);
            let ghost next = all.subrange(0, i + 1);
            proof {
                assert(next.drop_last() =~= prefix);
                assert(next.last() == entry);
            }
            let (path, resolved) = entry;
            match TsJsLanguagePack.detect_path(path.as_str()) {
                None => {
                    let ghost before = skipped_paths@;
                    skipped_paths.push(path);
                    proof {
                        assert(crate::text::views(skipped_paths@) =~= crate::text::views(before).push(entry.0@));
                    }
                },
                Some(language) => {
                    match resolved {
                        None => {},
                        Some(file) => {
                            let ghost f = file;
                            let parsed = self.parse_resolved(file, language);
                            match parsed {
                                Ok(a) => {
                                    artifacts.push(a);
                                },
                                Err(e) => {
                                    proof {
                                        assert(parse_targets(next) == parse_targets(prefix).push((f, language)));
                                        lemma_targets_prefix(all, i as int + 1);
                                        assert(parse_targets(all)[parse_targets(prefix).len() as int] == (f, language));
                                    }
                                    return Err(e);
                                },
                            }
                        },
                    }
                },
            }
            assert(rest@ =~= all.subrange(i + 1, all.len() as int));
            i = i + 1;
        }
        assert(all.subrange(0, all.len() as int) =~= all);
        Ok(ParseBatchPlan { snapshot_id: owned(snapshot_id), artifacts, skipped_paths })
    }

    /// Parses one file of a snapshot: nothing when no dialect covers `path` or the
    /// snapshot deletes it (`resolved` is its resolved content).
    pub fn parse_file_from_snapshot(&mut self, path: &str, resolved: Option<ResolvedSnapshotFile>)
        -> (r: Result<Option<ParseArtifact>, ParserError>)
        requires
            old(self).wf(),
        ensures
            final(self).wf(),
            final(self).max_diagnostics() == old(self).max_diagnostics(),
            match r {
                Ok(None) => dialect_of(path@) is None || resolved is None,
                Ok(Some(a)) => dialect_of(path@) matches Some(l) && resolved matches Some(f)
                    && parses_file(a, f, l, old(self).max_diagnostics()),
                Err(ParserError::Message(m)) => resolved matches Some(f) && is_parse_failure(m@, f.path@),
            },
    {
        match TsJsLanguagePack.detect_path(path) {
            None => Ok(None),
            Some(language) => match resolved {
                None => Ok(None),
                Some(file) => match self.parse_resolved(file, language) {
                    Ok(a) => Ok(Some(a)),
                    Err(e) => Err(e),
                },
            },
        }
    }
}

proof fn lemma_targets_prefix(all: Seq<SnapshotPathEntry>, n: int)
    requires
        0 <= n <= all.len(),
    ensures
        parse_targets(all.subrange(0, n)).len() <= parse_targets(all).len(),
        forall|k: int| 0 <= k < parse_targets(all.subrange(0, n)).len()
            ==> #[trigger] parse_targets(all)[k] == parse_targets(all.subrange(0, n))[k],
    decreases all.len() - n,
{
    if n < all.len() {
        lemma_targets_prefix(all, n + 1);
        assert(all.subrange(0, n + 1).drop_last() =~= all.subrange(0, n));
    } else {
        assert(all.subrange(0, n) =~= all);
    }
}

impl Default for ParseCore {
    /// A core with an empty cache and default settings.
    fn default() -> (r: Self)
        ensures
            r.wf(),
            r.max_diagnostics() == 32,
            r.cached_count() == 0,
    {
        ParseCore::with_settings(ParseCoreSettings::default())
    }
}

} // verus!
