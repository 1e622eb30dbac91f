use vstd::prelude::*;

use crate::digest::{hex_lower, sha256, sha256_hex};
use crate::parser::language_pack_ts_js::language_name;
use crate::parser::parse_core::ParseArtifactInspection;
use crate::parser::snapshot_catalog::{ParseEligibilityRules, ResolvedParseFile, SkippedParseFile};
use crate::planner::ranking::{ranked_sort, sort_ranked, Ranked};
use crate::protocol::config::RuntimeConfig;
use crate::protocol::symbols::LanguageId;
use crate::text::{decimal, decimal_string, owned, push_str, seq_lt, str_lt, utf8, views};

verus! {

/// How a parse manager runs: where it stores artifacts, which files it takes in, and how
/// many diagnostics it keeps per file.
#[derive(Debug, Clone, PartialEq, Eq)]
pub struct ParseManagerOptions {
    pub store_root: String,
    pub rules: ParseEligibilityRules,
    pub diagnostics_max_per_file: usize,
}

impl ParseManagerOptions {
    /// The options a runtime configuration asks for.
    pub fn from_runtime_config(config: &RuntimeConfig) -> (r: Self)
        ensures
            r.store_root@ == config.parser.artifact_dir@,
            r.diagnostics_max_per_file == config.parser.diagnostics_max_per_file,
            r.rules.max_file_bytes == config.parser.max_file_bytes,
            r.rules.ignore_patterns@ == config.ignores.global_patterns@ + config.ignores.repo_patterns@,
    {
        ParseManagerOptions {
            store_root: config.parser.artifact_dir.clone(),
            rules: ParseEligibilityRules::from_runtime_config(config),
            diagnostics_max_per_file: config.parser.diagnostics_max_per_file,
        }
    }
}

/// Counts of one parse build.
#[derive(Debug, Clone, Copy, PartialEq, Eq, Structural)]
pub struct ParseBuildStats {
    pub planned_file_count: u64,
    pub parsed_file_count: u64,
    pub reused_file_count: u64,
    pub skipped_file_count: u64,
    pub diagnostic_count: u64,
    pub elapsed_ms: u128,
}

/// The layout version of a stored parse build record.
pub const BUILD_SCHEMA_VERSION: u32 = 1;

/// The layout version of a stored per-file parse cache entry.
pub const CACHE_SCHEMA_VERSION: u32 = 1;

/// One file of a parse build: its path, the cache entry that holds its parse, whether that
/// entry was reused, and what an inspection of the parse reports.
#[derive(Debug, Clone, PartialEq, Eq)]
pub struct ParseStoreFileRecord {
    pub path: String,
    pub cache_id: String,
    pub reused_from_cache: bool,
    pub inspection: ParseArtifactInspection,
}

/// The stored record of a parse build of one snapshot.
#[derive(Debug, Clone, PartialEq, Eq)]
pub struct ParseBuildStatus {
    pub schema_version: u32,
    pub build_id: String,
    pub repo_id: String,
    pub snapshot_id: String,
    pub parser_config_digest: String,
    pub artifact_root: String,
    pub cache_root: String,
    pub created_at_epoch_ms: u128,
    pub loaded_from_existing_build: bool,
    pub stats: ParseBuildStats,
    pub files: Vec<ParseStoreFileRecord>,
    pub skipped_files: Vec<SkippedParseFile>,
}

/// What becomes of a stored build record or cache entry that was read back and decoded.
#[derive(Debug, Clone, Copy, PartialEq, Eq, Structural)]
pub enum StoredRecordVerdict {
    /// It is current: use it.
    Use,
    /// It was written in another layout: delete it and work without it.
    Discard,
    /// It belongs to another parser configuration: leave it and work without it.
    Ignore,
}

/// The verdict on a stored record written in layout `found_schema` under configuration
/// digest `found_digest`, for a manager at layout `expected_schema` and digest
/// `expected_digest`. The layout is checked first.
pub fn stored_record_verdict(found_schema: u32, expected_schema: u32, found_digest: &str, expected_digest: &str)
    -> (v: StoredRecordVerdict)
    ensures
        found_schema != expected_schema ==> v == StoredRecordVerdict::Discard,
        found_schema == expected_schema && found_digest@ != expected_digest@ ==> v == StoredRecordVerdict::Ignore,
        found_schema == expected_schema && found_digest@ == expected_digest@ ==> v == StoredRecordVerdict::Use,
{
    if found_schema != expected_schema {
        StoredRecordVerdict::Discard
    } else if owned(found_digest) != owned(expected_digest) {
        StoredRecordVerdict::Ignore
    } else {
        StoredRecordVerdict::Use
    }
}

/// How one eligible file of a build was handled: taken from the cache or parsed anew, and
/// how many diagnostics its parse carries.
#[derive(Debug, Clone, Copy, PartialEq, Eq, Structural)]
pub struct FileParseOutcome {
    pub reused_from_cache: bool,
    pub diagnostic_count: u64,
}

/// How many of the outcomes came from the cache.
pub open spec fn reused_count(s: Seq<FileParseOutcome>) -> nat
    decreases s.len(),
{
    if s.len() == 0 {
        0
    } else {
        reused_count(s.drop_last()) + if s.last().reused_from_cache { 1nat } else { 0nat }
    }
}

/// The diagnostics of all the outcomes together.
pub open spec fn diagnostic_total(s: Seq<FileParseOutcome>) -> nat
    decreases s.len(),
{
    if s.len() == 0 {
        0
    } else {
        diagnostic_total(s.drop_last()) + s.last().diagnostic_count as nat
    }
}

proof fn lemma_diagnostics_prefix(s: Seq<FileParseOutcome>, i: int)
    requires
        0 <= i <= s.len(),
    ensures
        diagnostic_total(s.take(i)) <= diagnostic_total(s),
    decreases s.len() - i,
{
    if i < s.len() {
        lemma_diagnostics_prefix(s, i + 1);
        assert(s.take(i + 1).drop_last() =~= s.take(i));
    } else {
        assert(s.take(i) =~= s);
    }
}

proof fn lemma_reused_at_most_len(s: Seq<FileParseOutcome>)
    ensures
        reused_count(s) <= s.len(),
    decreases s.len(),
{
    if s.len() > 0 {
        lemma_reused_at_most_len(s.drop_last());
    }
}

/// The counts of a build whose eligible files were handled as `outcomes`, with
/// `skipped_file_count` files left out: every eligible file is planned, and each planned
/// file is either reused from the cache or parsed.
pub fn tally_build_stats(outcomes: &Vec<FileParseOutcome>, skipped_file_count: u64, elapsed_ms: u128)
    -> (r: ParseBuildStats)
    requires
        diagnostic_total(outcomes@) <= u64::MAX,
    ensures
        r.planned_file_count == outcomes@.len(),
        r.reused_file_count == reused_count(outcomes@),
        r.parsed_file_count + r.reused_file_count == r.planned_file_count,
        r.skipped_file_count == skipped_file_count,
        r.diagnostic_count == diagnostic_total(outcomes@),
        r.elapsed_ms == elapsed_ms,
{
    let mut parsed: u64 = 0;
    let mut reused: u64 = 0;
    let mut diagnostics: u64 = 0;
    let mut i: usize = 0;
    while i < outcomes.len()
        invariant
            0 <= i <= outcomes@.len(),
            diagnostic_total(outcomes@) <= u64::MAX,
            reused == reused_count(outcomes@.take(i as int)),
            parsed + reused == i,
            diagnostics == diagnostic_total(outcomes@.take(i as int)),
        decreases outcomes@.len() - i,
    {
        proof {
            assert(outcomes@.take(i + 1).drop_last() =~= outcomes@.take(i as int));
            lemma_diagnostics_prefix(outcomes@, i + 1);
            lemma_reused_at_most_len(outcomes@.take(i as int));
        }
        let o = outcomes[i];
        if o.reused_from_cache {
            reused = reused + 1;
        } else {
            parsed = parsed + 1;
        }
        diagnostics = diagnostics + o.diagnostic_count;
        i = i + 1;
    }
    assert(outcomes@.take(outcomes@.len() as int) =~= outcomes@);
    ParseBuildStats {
        planned_file_count: outcomes.len() as u64,
        parsed_file_count: parsed,
        reused_file_count: reused,
        skipped_file_count,
        diagnostic_count: diagnostics,
        elapsed_ms,
    }
}

impl Ranked for String {
    open spec fn ranks_before(a: Self, b: Self) -> bool {
        seq_lt(a@, b@)
    }

    fn before(&self, other: &Self) -> (r: bool) {
        str_lt(self.as_str(), other.as_str())
    }
}

/// The name of a language id.
pub open spec fn language_id_name(l: LanguageId) -> Seq<char> {
    match l {
        LanguageId::Typescript => "Typescript"@,
        LanguageId::Tsx => "Tsx"@,
        LanguageId::Javascript => "Javascript"@,
        LanguageId::Jsx => "Jsx"@,
        LanguageId::Mts => "Mts"@,
        LanguageId::Cts => "Cts"@,
    }
}

fn language_id_str(l: LanguageId) -> (r: &'static str)
    ensures
        r@ == language_id_name(l),
{
    match l {
        LanguageId::Typescript => "Typescript",
        LanguageId::Tsx => "Tsx",
        LanguageId::Javascript => "Javascript",
        LanguageId::Jsx => "Jsx",
        LanguageId::Mts => "Mts",
        LanguageId::Cts => "Cts",
    }
}

/// `true` or `false`.
pub open spec fn flag(b: bool) -> Seq<char> {
    if b { "true"@ } else { "false"@ }
}

/// Each item framed as `label` + item + a line break, in order.
pub open spec fn framed_lines(label: Seq<char>, items: Seq<Seq<char>>) -> Seq<char>
    decreases items.len(),
{
    if items.len() == 0 {
        Seq::empty()
    } else {
        framed_lines(label, items.drop_last()) + label + items.last() + "\n"@
    }
}

/// The text whose digest identifies a parser configuration: the settings line by line,
/// then the ignore patterns and the language names, each sorted.
pub open spec fn parser_config_text(options: ParseManagerOptions) -> Seq<char> {
    let rules = options.rules;
    "phase4-parse-manager-v1\n"@
        + "max_file_bytes:"@ + decimal(rules.max_file_bytes as nat) + "\n"@
        + "diagnostics_max_per_file:"@ + decimal(options.diagnostics_max_per_file as nat) + "\n"@
        + "exclude_vendor_paths:"@ + flag(rules.exclude_vendor_paths) + "\n"@
        + "exclude_generated_paths:"@ + flag(rules.exclude_generated_paths) + "\n"@
        + "exclude_binary_like_contents:"@ + flag(rules.exclude_binary_like_contents) + "\n"@
        + framed_lines("ignore:"@, text_sort(views(rules.ignore_patterns@)))
        + framed_lines("language:"@, text_sort(rules.enabled_languages@.map_values(|l: LanguageId| language_id_name(l))))
}

/// Where `x` goes in sorted text `s`: before the first entry it sorts before.
pub open spec fn text_insert_pos(s: Seq<Seq<char>>, x: Seq<char>) -> int
    decreases s.len(),
{
    if s.len() == 0 {
        0
    } else if seq_lt(x, s[0]) {
        0
    } else {
        1 + text_insert_pos(s.drop_first(), x)
    }
}

/// Texts sorted into lexicographic order by insertion, equal texts keeping their order.
pub open spec fn text_sort(s: Seq<Seq<char>>) -> Seq<Seq<char>>
    decreases s.len(),
{
    if s.len() == 0 {
        s
    } else {
        let sorted = text_sort(s.drop_last());
        sorted.insert(text_insert_pos(sorted, s.last()), s.last())
    }
}

proof fn lemma_insert_pos_views(s: Seq<String>, x: String)
    ensures
        crate::planner::ranking::insert_pos(s, x) == text_insert_pos(views(s), x@),
    decreases s.len(),
{
    if s.len() > 0 {
        assert(views(s.drop_first()) =~= views(s).drop_first());
        lemma_insert_pos_views(s.drop_first(), x);
    }
}

proof fn lemma_sort_views(v: Seq<String>)
    ensures
        views(ranked_sort(v)) == text_sort(views(v)),
    decreases v.len(),
{
    if v.len() > 0 {
        lemma_sort_views(v.drop_last());
        assert(views(v.drop_last()) =~= views(v).drop_last());
        let sorted = ranked_sort(v.drop_last());
        lemma_insert_pos_views(sorted, v.last());
        crate::planner::ranking::lemma_ranked_sort_len(v.drop_last());
        let pos = crate::planner::ranking::insert_pos(sorted, v.last());
        lemma_insert_pos_bounds_text(views(sorted), v.last()@);
        assert(views(sorted.insert(pos, v.last())) =~= views(sorted).insert(pos, v.last()@));
    }
}

proof fn lemma_insert_pos_bounds_text(s: Seq<Seq<char>>, x: Seq<char>)
    ensures
        0 <= text_insert_pos(s, x) <= s.len(),
    decreases s.len(),
{
    if s.len() > 0 {
        lemma_insert_pos_bounds_text(s.drop_first(), x);
    }
}

fn push_framed(out: &mut String, label: &str, items: &Vec<String>)
    ensures
        final(out)@ == old(out)@ + framed_lines(label@, views(items@)),
{
    let ghost start = out@;
    let mut i: usize = 0;
    while i < items.len()
        invariant
            0 <= i <= items@.len(),
            out@ == start + framed_lines(label@, views(items@.subrange(0, i as int))),
        decreases items@.len() - i,
    {
        assert(views(items@.subrange(0, i + 1)).drop_last() =~= views(items@.subrange(0, i as int)));
        push_str(out, label);
        push_str(out, items[i].as_str());
        push_str(out, "\n");
        assert(out@ =~= start + framed_lines(label@, views(items@.subrange(0, i + 1))));
        i = i + 1;
    }
    assert(items@.subrange(0, items@.len() as int) =~= items@);
}


fn language_name_list(ls: &Vec<LanguageId>) -> (r: Vec<String>)
    ensures
        views(r@) == ls@.map_values(|l: LanguageId| language_id_name(l)),
{
    let mut r: Vec<String> = Vec::new();
    let mut i: usize = 0;
    while i < ls.len()
        invariant
            0 <= i <= ls@.len(),
            views(r@) == ls@.subrange(0, i as int).map_values(|l: LanguageId| language_id_name(l)),
        decreases ls@.len() - i,
    {
        let ghost before = r@;
        r.push(language_id_str(ls[i]).to_owned());
        assert(views(r@) =~= views(before).push(language_id_name(ls@[i as int])));
        assert(ls@.subrange(0, i + 1).map_values(|l: LanguageId| language_id_name(l))
            =~= ls@.subrange(0, i as int).map_values(|l: LanguageId| language_id_name(l)).push(language_id_name(ls@[i as int])));
        i = i + 1;
    }
    assert(ls@.subrange(0, ls@.len() as int) =~= ls@);
    r
}

/// The digest that identifies a parser configuration: the lower-case hexadecimal SHA-256
/// of its settings text.
pub fn parser_config_digest(options: &ParseManagerOptions) -> (r: String)
    ensures
        r@ == hex_lower(sha256(utf8(parser_config_text(*options)))),
{
    let rules = &options.rules;
    let mut text = owned("phase4-parse-manager-v1\n");
    push_str(&mut text, "max_file_bytes:");
    push_str(&mut text, decimal_string(rules.max_file_bytes as u64).as_str());
    push_str(&mut text, "\n");
    push_str(&mut text, "diagnostics_max_per_file:");
    push_str(&mut text, decimal_string(options.diagnostics_max_per_file as u64).as_str());
    push_str(&mut text, "\n");
    push_str(&mut text, "exclude_vendor_paths:");
    push_str(&mut text, if rules.exclude_vendor_paths { "true" } else { "false" });
    push_str(&mut text, "\n");
    push_str(&mut text, "exclude_generated_paths:");
    push_str(&mut text, if rules.exclude_generated_paths { "true" } else { "false" });
    push_str(&mut text, "\n");
    push_str(&mut text, "exclude_binary_like_contents:");
    push_str(&mut text, if rules.exclude_binary_like_contents { "true" } else { "false" });
    push_str(&mut text, "\n");
    let patterns = sort_ranked(crate::planner::copy::copy_vec(&rules.ignore_patterns));
    proof {
        lemma_sort_views(rules.ignore_patterns@);
    }
    push_framed(&mut text, "ignore:", &patterns);
    let names = language_name_list(&rules.enabled_languages);
    let ghost name_strings = names@;
    let sorted_names = sort_ranked(names);
    proof {
        lemma_sort_views(name_strings);
    }
    push_framed(&mut text, "language:", &sorted_names);
    assert(text@ =~= parser_config_text(*options));
    sha256_hex(text.as_str().as_bytes())
}

/// The text whose digest identifies a cached parse of a file under a configuration.
pub open spec fn cache_text(config_digest: Seq<char>, file: ResolvedParseFile) -> Seq<char> {
    config_digest + "\n"@ + file.path@ + "\n"@ + language_name(file.language) + "\n"@ + file.content_sha256@ + "\n"@
}

/// The id of a cached parse of a file: the digest of the configuration digest, the path,
/// the language and the content digest.
pub fn cache_id_for(parser_config_digest: &str, file: &ResolvedParseFile) -> (r: String)
    ensures
        r@ == hex_lower(sha256(utf8(cache_text(parser_config_digest@, *file)))),
{
    let mut text = owned(parser_config_digest);
    push_str(&mut text, "\n");
    push_str(&mut text, file.path.as_str());
    push_str(&mut text, "\n");
    push_str(&mut text, file.language.as_str());
    push_str(&mut text, "\n");
    push_str(&mut text, file.content_sha256.as_str());
    push_str(&mut text, "\n");
    sha256_hex(text.as_str().as_bytes())
}

/// The id of a parse build: `parse-`, the snapshot id, `-` and the first twelve
/// characters of the configuration digest.
pub fn build_id_for(snapshot_id: &str, parser_config_digest: &str) -> (r: String)
    ensures
        r@ == "parse-"@ + snapshot_id@ + "-"@ + parser_config_digest@.take(
            if parser_config_digest@.len() < 12 { parser_config_digest@.len() as int } else { 12 }),
{
    let chars = crate::text::str_chars(parser_config_digest);
    let n: usize = if chars.len() < 12 { chars.len() } else { 12 };
    let mut short: Vec<char> = Vec::new();
    let mut i: usize = 0;
    while i < n
        invariant
            0 <= i <= n,
            n <= chars@.len(),
            chars@ == parser_config_digest@,
            short@ == chars@.take(i as int),
        decreases n - i,
    {
        short.push(chars[i]);
        assert(chars@.take(i + 1) =~= chars@.take(i as int).push(chars@[i as int]));
        i = i + 1;
    }
    let mut r = owned("parse-");
    push_str(&mut r, snapshot_id);
    push_str(&mut r, "-");
    push_str(&mut r, crate::text::string_from_chars(&short).as_str());
    r
}

} // verus!
