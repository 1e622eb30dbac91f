use vstd::prelude::*;

use crate::digest::{hex_lower, sha256, sha256_hex};
use crate::parser::language_pack_ts_js::{
    language_for_extension, path_extension, protocol_language, LanguagePack, TsJsLanguage,
    TsJsLanguagePack,
};
use crate::planner::copy::copy_vec;
use crate::planner::ranking::{is_ranked, lemma_ranked_sort_is_ranked, lemma_ranked_sort_len, ranked_sort, sort_ranked, strict_order, Ranked};
use crate::protocol::config::{all_ts_js_languages, ts_js_languages, RuntimeConfig};
use crate::protocol::snapshot::{BufferOverlay, ComposedSnapshot, SnapshotFile, WorkingTreeEntry};
use crate::protocol::symbols::{LanguageId, ParseInputSourceKind};
use crate::text::{views, decimal, decimal_string, has_suffix, has_sub, lemma_seq_lt_asymmetric, lemma_seq_lt_transitive, owned, push_str, seq_lt, str_chars, str_lt, utf8};

verus! {

/// Which snapshot files the parser takes in.
#[derive(Debug, Clone, PartialEq, Eq)]
pub struct ParseEligibilityRules {
    pub max_file_bytes: usize,
    pub ignore_patterns: Vec<String>,
    pub enabled_languages: Vec<LanguageId>,
    pub exclude_vendor_paths: bool,
    pub exclude_generated_paths: bool,
    pub exclude_binary_like_contents: bool,
}

/// The default ignore patterns.
pub open spec fn default_ignore_patterns() -> Seq<Seq<char>> {
    seq![".git/**"@, "node_modules/**"@, "target/**"@, ".next/**"@, "dist/**"@]
}

impl Default for ParseEligibilityRules {
    /// Files of up to 2 MiB in the six TS/JS languages, outside the usual build and
    /// dependency directories, with every exclusion heuristic on.
    fn default() -> (r: Self)
        ensures
            r.max_file_bytes == 2_097_152,
            crate::text::views(r.ignore_patterns@) == default_ignore_patterns(),
            r.enabled_languages@ == all_ts_js_languages(),
            r.exclude_vendor_paths,
            r.exclude_generated_paths,
            r.exclude_binary_like_contents,
    {
        let ignore_patterns = vec![
            ".git/**".to_owned(),
            "node_modules/**".to_owned(),
            "target/**".to_owned(),
            ".next/**".to_owned(),
            "dist/**".to_owned(),
        ];
        assert(crate::text::views(ignore_patterns@) =~= default_ignore_patterns());
        ParseEligibilityRules {
            max_file_bytes: 2_097_152,
            ignore_patterns,
            enabled_languages: ts_js_languages(),
            exclude_vendor_paths: true,
            exclude_generated_paths: true,
            exclude_binary_like_contents: true,
        }
    }
}

/// The languages of the enabled packs, in pack order.
pub open spec fn enabled_pack_languages(packs: Seq<crate::protocol::config::LanguagePackConfig>) -> Seq<LanguageId>
    decreases packs.len(),
{
    if packs.len() == 0 {
        Seq::empty()
    } else {
        enabled_pack_languages(packs.drop_last()) + if packs.last().enabled { packs.last().languages@ } else { Seq::empty() }
    }
}

impl ParseEligibilityRules {
    /// The rules a runtime configuration asks for: the parser's size limit, the global then
    /// the repository ignore patterns, and the languages of the enabled packs (all TS/JS
    /// languages when no enabled pack names one).
    pub fn from_runtime_config(config: &RuntimeConfig) -> (r: Self)
        ensures
            r.max_file_bytes == config.parser.max_file_bytes,
            r.ignore_patterns@ == config.ignores.global_patterns@ + config.ignores.repo_patterns@,
            r.enabled_languages@ == (if enabled_pack_languages(config.parser.language_packs@).len() == 0 {
                all_ts_js_languages()
            } else {
                enabled_pack_languages(config.parser.language_packs@)
            }),
            r.exclude_vendor_paths,
            r.exclude_generated_paths,
            r.exclude_binary_like_contents,
    {
        let packs = &config.parser.language_packs;
        let mut enabled_languages: Vec<LanguageId> = Vec::new();
        let mut i: usize = 0;
        while i < packs.len()
            invariant
                0 <= i <= packs@.len(),
                enabled_languages@ == enabled_pack_languages(packs@.subrange(0, i as int)),
            decreases packs@.len() - i,
        {
            assert(packs@.subrange(0, i + 1).drop_last() =~= packs@.subrange(0, i as int));
            if packs[i].enabled {
                let mut more = copy_vec(&packs[i].languages);
                enabled_languages.append(&mut more);
            } else {
                assert(enabled_languages@ =~= enabled_languages@ + Seq::<LanguageId>::empty());
            }
            i = i + 1;
        }
        assert(packs@.subrange(0, packs@.len() as int) =~= packs@);
        if enabled_languages.len() == 0 {
            enabled_languages = ts_js_languages();
        }
        let mut ignore_patterns = copy_vec(&config.ignores.global_patterns);
        let mut repo = copy_vec(&config.ignores.repo_patterns);
        ignore_patterns.append(&mut repo);
        ParseEligibilityRules {
            max_file_bytes: config.parser.max_file_bytes,
            ignore_patterns,
            enabled_languages,
            exclude_vendor_paths: true,
            exclude_generated_paths: true,
            exclude_binary_like_contents: true,
        }
    }

    /// Whether the rules enable a language.
    pub fn allows_language(&self, language: TsJsLanguage) -> (r: bool)
        ensures
            r == self.enabled_languages@.contains(protocol_language(language)),
    {
        let wanted = language.to_protocol_language();
        let mut i: usize = 0;
        while i < self.enabled_languages.len()
            invariant
                0 <= i <= self.enabled_languages@.len(),
                wanted == protocol_language(language),
                forall|k: int| 0 <= k < i ==> self.enabled_languages@[k] != wanted,
            decreases self.enabled_languages@.len() - i,
        {
            if self.enabled_languages[i] == wanted {
                assert(self.enabled_languages@[i as int] == wanted);
                return true;
            }
            i = i + 1;
        }
        false
    }
}

/// A file the parser will take in.
#[derive(Debug, Clone, PartialEq, Eq)]
pub struct ResolvedParseFile {
    pub path: String,
    pub language: TsJsLanguage,
    pub source_kind: ParseInputSourceKind,
    pub content_sha256: String,
    pub content_bytes: usize,
    pub contents: String,
}

/// Why a snapshot file is left out of parsing.
#[derive(Debug, Clone, Copy, PartialEq, Eq, Structural)]
pub enum ParseSkipReason {
    UnsupportedLanguage,
    IgnoredByPattern,
    FileTooLarge,
    BinaryLikeContent,
    VendorPath,
    GeneratedPath,
    DeletedInSnapshot,
}

/// A snapshot file left out of parsing, and why.
#[derive(Debug, Clone, PartialEq, Eq)]
pub struct SkippedParseFile {
    pub path: String,
    pub reason: ParseSkipReason,
    pub detail: String,
    pub content_bytes: Option<usize>,
}

/// The files of a snapshot split into those the parser takes in and those it skips,
/// each list ordered by path.
#[derive(Debug, Clone, PartialEq, Eq)]
pub struct SnapshotFileCatalog {
    pub eligible_files: Vec<ResolvedParseFile>,
    pub skipped_files: Vec<SkippedParseFile>,
}

/// A snapshot file's content after its overlays are applied, and where it came from.
#[derive(Debug, Clone, PartialEq, Eq)]
pub struct ResolvedSnapshotFile {
    pub path: String,
    pub contents: String,
    pub source_kind: ParseInputSourceKind,
}

/// One path of a snapshot: its resolved content (none when an overlay deletes it) and
/// whether the ignore patterns match it.
#[derive(Debug, Clone, PartialEq, Eq)]
pub struct CatalogEntry {
    pub path: String,
    pub resolved: Option<ResolvedSnapshotFile>,
    pub ignored: bool,
}

/// The `/`-separated pieces of a path, the last one included, empty pieces kept.
pub open spec fn slash_state(s: Seq<char>) -> (Seq<Seq<char>>, Seq<char>)
    decreases s.len(),
{
    if s.len() == 0 {
        (Seq::empty(), Seq::empty())
    } else {
        let (done, cur) = slash_state(s.drop_last());
        if s.last() == '/' { (done.push(cur), Seq::empty()) } else { (done, cur.push(s.last())) }
    }
}

/// The `/`-separated pieces of a path.
pub open spec fn path_pieces(s: Seq<char>) -> Seq<Seq<char>> {
    let (done, cur) = slash_state(s);
    done.push(cur)
}

/// The last `/`-separated piece of a path: its file name.
pub open spec fn file_name(s: Seq<char>) -> Seq<char> {
    slash_state(s).1
}

/// Whether a path lies in a vendored or third-party directory.
pub open spec fn is_vendor(path: Seq<char>) -> bool {
    let pieces = path_pieces(path);
    pieces.contains("vendor"@) || pieces.contains("vendors"@) || pieces.contains("third_party"@)
        || pieces.contains("third-party"@) || pieces.contains("node_modules"@)
}

/// Whether a path looks generated: a generated directory, or a generated or minified
/// file name.
pub open spec fn is_generated(path: Seq<char>) -> bool {
    let pieces = path_pieces(path);
    let name = file_name(path);
    pieces.contains("__generated__"@) || pieces.contains("generated"@) || pieces.contains("gen"@)
        || has_sub(name, ".generated."@) || has_sub(name, ".gen."@) || has_suffix(name, ".min.js"@)
}

/// Whether a byte is an ASCII control byte other than tab, line feed and carriage return.
pub open spec fn is_control_byte(b: u8) -> bool {
    b <= 0x08 || b == 0x0B || b == 0x0C || (0x0E <= b && b <= 0x1F)
}

/// Whether text holds a control byte, and so looks binary.
pub open spec fn binary_like(contents: Seq<char>) -> bool {
    exists|i: int| 0 <= i < utf8(contents).len() && is_control_byte(#[trigger] utf8(contents)[i])
}

fn path_pieces_exec(path: &str) -> (r: Vec<Vec<char>>)
    ensures
        r@.map_values(|p: Vec<char>| p@) == path_pieces(path@),
{
    let chars = str_chars(path);
    let mut done: Vec<Vec<char>> = Vec::new();
    let mut cur: Vec<char> = Vec::new();
    let mut i: usize = 0;
    while i < chars.len()
        invariant
            0 <= i <= chars@.len(),
            chars@ == path@,
            (done@.map_values(|p: Vec<char>| p@), cur@) == slash_state(chars@.subrange(0, i as int)),
        decreases chars@.len() - i,
    {
        assert(chars@.subrange(0, i + 1).drop_last() =~= chars@.subrange(0, i as int));
        if chars[i] == '/' {
            let ghost before = done@;
            let piece = cur;
            done.push(piece);
            assert(done@.map_values(|p: Vec<char>| p@) =~= before.map_values(|p: Vec<char>| p@).push(piece@));
            cur = Vec::new();
        } else {
            cur.push(chars[i]);
        }
        i = i + 1;
    }
    assert(chars@.subrange(0, chars@.len() as int) =~= chars@);
    let ghost before = done@;
    let last = cur;
    done.push(last);
    assert(done@.map_values(|p: Vec<char>| p@) =~= before.map_values(|p: Vec<char>| p@).push(last@));
    done
}

fn chars_equal(a: &Vec<char>, b: &Vec<char>) -> (r: bool)
    ensures
        r == (a@ == b@),
{
    if a.len() != b.len() {
        return false;
    }
    let mut i: usize = 0;
    while i < a.len()
        invariant
            0 <= i <= a@.len(),
            a@.len() == b@.len(),
            forall|k: int| 0 <= k < i ==> a@[k] == b@[k],
        decreases a@.len() - i,
    {
        if a[i] != b[i] {
            return false;
        }
        i = i + 1;
    }
    assert(a@ =~= b@);
    true
}

fn has_piece(pieces: &Vec<Vec<char>>, name: &str) -> (r: bool)
    ensures
        r == pieces@.map_values(|p: Vec<char>| p@).contains(name@),
{
    let wanted = str_chars(name);
    let ghost views = pieces@.map_values(|p: Vec<char>| p@);
    let mut i: usize = 0;
    while i < pieces.len()
        invariant
            0 <= i <= pieces@.len(),
            wanted@ == name@,
            views == pieces@.map_values(|p: Vec<char>| p@),
            forall|k: int| 0 <= k < i ==> views[k] != name@,
        decreases pieces@.len() - i,
    {
        if chars_equal(&pieces[i], &wanted) {
            assert(views[i as int] == name@);
            return true;
        }
        i = i + 1;
    }
    false
}

/// Whether a path lies in a vendored or third-party directory.
pub fn is_vendor_path(path: &str) -> (r: bool)
    ensures
        r == is_vendor(path@),
{
    let pieces = path_pieces_exec(path);
    has_piece(&pieces, "vendor") || has_piece(&pieces, "vendors") || has_piece(&pieces, "third_party")
        || has_piece(&pieces, "third-party") || has_piece(&pieces, "node_modules")
}

fn last_piece(path: &str) -> (r: String)
    ensures
        r@ == file_name(path@),
{
    let chars = str_chars(path);
    let mut cur: Vec<char> = Vec::new();
    let mut i: usize = 0;
    while i < chars.len()
        invariant
            0 <= i <= chars@.len(),
            chars@ == path@,
            cur@ == slash_state(chars@.subrange(0, i as int)).1,
        decreases chars@.len() - i,
    {
        assert(chars@.subrange(0, i + 1).drop_last() =~= chars@.subrange(0, i as int));
        if chars[i] == '/' {
            cur = Vec::new();
        } else {
            cur.push(chars[i]);
        }
        i = i + 1;
    }
    assert(chars@.subrange(0, chars@.len() as int) =~= chars@);
    crate::text::string_from_chars(&cur)
}

/// Whether a path looks generated.
pub fn is_generated_path(path: &str) -> (r: bool)
    ensures
        r == is_generated(path@),
{
    let pieces = path_pieces_exec(path);
    let name = last_piece(path);
    has_piece(&pieces, "__generated__") || has_piece(&pieces, "generated") || has_piece(&pieces, "gen")
        || crate::text::contains_str(name.as_str(), ".generated.") || crate::text::contains_str(name.as_str(), ".gen.")
        || crate::text::ends_with(name.as_str(), ".min.js")
}

/// Whether text holds a control byte, and so looks binary.
pub fn is_binary_like(contents: &str) -> (r: bool)
    ensures
        r == binary_like(contents@),
{
    let bytes = contents.as_bytes();
    let mut i: usize = 0;
    while i < bytes.len()
        invariant
            0 <= i <= bytes@.len(),
            bytes@ == utf8(contents@),
            forall|k: int| 0 <= k < i ==> !is_control_byte(#[trigger] bytes@[k]),
        decreases bytes@.len() - i,
    {
        let b = bytes[i];
        if b <= 0x08 || b == 0x0B || b == 0x0C || (0x0E <= b && b <= 0x1F) {
            assert(is_control_byte(bytes@[i as int]));
            return true;
        }
        i = i + 1;
    }
    false
}


/// Why an entry is skipped and the detail recorded, or none when the parser takes it in.
pub open spec fn skip_for(e: CatalogEntry, rules: ParseEligibilityRules) -> Option<(ParseSkipReason, Seq<char>)> {
    match e.resolved {
        None => Some((ParseSkipReason::DeletedInSnapshot, "path is deleted by the composed snapshot overlays"@)),
        Some(f) => {
            let size = utf8(f.contents@).len();
            if e.ignored {
                Some((ParseSkipReason::IgnoredByPattern, "path matched configured ignore rules"@))
            } else if rules.exclude_vendor_paths && is_vendor(f.path@) {
                Some((ParseSkipReason::VendorPath, "path matched the phase-appropriate vendor exclusion heuristic"@))
            } else if rules.exclude_generated_paths && is_generated(f.path@) {
                Some((ParseSkipReason::GeneratedPath, "path matched the phase-appropriate generated-file exclusion heuristic"@))
            } else {
                match language_for_extension(path_extension(f.path@)) {
                    None => Some((ParseSkipReason::UnsupportedLanguage,
                        "path extension is not supported by the active TS/JS language pack"@)),
                    Some(l) => if !rules.enabled_languages@.contains(protocol_language(l)) {
                        Some((ParseSkipReason::UnsupportedLanguage, "language is disabled by the active parser rules"@))
                    } else if size > rules.max_file_bytes {
                        Some((ParseSkipReason::FileTooLarge, "file exceeds max parse size: "@ + decimal(size)
                            + " > "@ + decimal(rules.max_file_bytes as nat) + " bytes"@))
                    } else if rules.exclude_binary_like_contents && binary_like(f.contents@) {
                        Some((ParseSkipReason::BinaryLikeContent, "file contents look binary-like and were excluded"@))
                    } else {
                        None
                    },
                }
            }
        },
    }
}

/// Whether `r` is the eligible record of entry `e`.
pub open spec fn is_eligible_record(r: ResolvedParseFile, e: CatalogEntry) -> bool {
    e.resolved matches Some(f) && {
        &&& r.path == f.path
        &&& language_for_extension(path_extension(f.path@)) == Some(r.language)
        &&& r.source_kind == f.source_kind
        &&& r.content_sha256@ == hex_lower(sha256(utf8(f.contents@)))
        &&& r.content_bytes == utf8(f.contents@).len()
        &&& r.contents == f.contents
    }
}

/// Whether `r` is the record of entry `e` skipped for `reason` with `detail`.
pub open spec fn is_skip_record(r: SkippedParseFile, e: CatalogEntry, reason: ParseSkipReason, detail: Seq<char>) -> bool {
    &&& r.reason == reason
    &&& r.detail@ == detail
    &&& match e.resolved {
        None => r.path == e.path && r.content_bytes is None,
        Some(f) => r.path == f.path && r.content_bytes == Some(utf8(f.contents@).len() as usize),
    }
}

/// Whether `eligible` and `skipped` are the records of `entries`, in entry order.
pub open spec fn partitioned(
    eligible: Seq<ResolvedParseFile>,
    skipped: Seq<SkippedParseFile>,
    entries: Seq<CatalogEntry>,
    rules: ParseEligibilityRules,
) -> bool
    decreases entries.len(),
{
    if entries.len() == 0 {
        eligible.len() == 0 && skipped.len() == 0
    } else {
        let e = entries.last();
        match skip_for(e, rules) {
            None => eligible.len() > 0 && is_eligible_record(eligible.last(), e)
                && partitioned(eligible.drop_last(), skipped, entries.drop_last(), rules),
            Some((reason, detail)) => skipped.len() > 0 && is_skip_record(skipped.last(), e, reason, detail)
                && partitioned(eligible, skipped.drop_last(), entries.drop_last(), rules),
        }
    }
}

fn skipped(path: String, reason: ParseSkipReason, detail: &str, content_bytes: Option<usize>) -> (r: SkippedParseFile)
    ensures
        r.path == path,
        r.reason == reason,
        r.detail@ == detail@,
        r.content_bytes == content_bytes,
{
    SkippedParseFile { path, reason, detail: detail.to_owned(), content_bytes }
}

/// Decides whether the parser takes in one snapshot entry: a deleted path, an ignored
/// path, a vendor or generated path (when those exclusions are on), an unsupported or
/// disabled language, an oversized file and binary-looking contents (when that exclusion
/// is on) are skipped, in that order; anything else is taken in with its digest.
pub fn classify_entry(entry: CatalogEntry, rules: &ParseEligibilityRules) -> (r: Result<ResolvedParseFile, SkippedParseFile>)
    ensures
        match r {
            Ok(f) => skip_for(entry, *rules) is None && is_eligible_record(f, entry),
            Err(s) => skip_for(entry, *rules) matches Some((reason, detail)) && is_skip_record(s, entry, reason, detail),
        },
{
    let ghost e = entry;
    let CatalogEntry { path, resolved, ignored } = entry;
    let file = match resolved {
        None => {
            return Err(skipped(path, ParseSkipReason::DeletedInSnapshot,
                "path is deleted by the composed snapshot overlays", None));
        },
        Some(f) => f,
    };
    let size = file.contents.as_str().as_bytes().len();
    let ResolvedSnapshotFile { path: resolved_path, contents, source_kind } = file;
    if ignored {
        return Err(skipped(resolved_path, ParseSkipReason::IgnoredByPattern, "path matched configured ignore rules", Some(size)));
    }
    if rules.exclude_vendor_paths && is_vendor_path(resolved_path.as_str()) {
        return Err(skipped(resolved_path, ParseSkipReason::VendorPath,
            "path matched the phase-appropriate vendor exclusion heuristic", Some(size)));
    }
    if rules.exclude_generated_paths && is_generated_path(resolved_path.as_str()) {
        return Err(skipped(resolved_path, ParseSkipReason::GeneratedPath,
            "path matched the phase-appropriate generated-file exclusion heuristic", Some(size)));
    }
    let language = match TsJsLanguagePack.detect_path(resolved_path.as_str()) {
        None => {
            return Err(skipped(resolved_path, ParseSkipReason::UnsupportedLanguage,
                "path extension is not supported by the active TS/JS language pack", Some(size)));
        },
        Some(l) => l,
    };
    if !rules.allows_language(language) {
        return Err(skipped(resolved_path, ParseSkipReason::UnsupportedLanguage,
            "language is disabled by the active parser rules", Some(size)));
    }
    if size > rules.max_file_bytes {
        let mut detail = owned("file exceeds max parse size: ");
        push_str(&mut detail, decimal_string(size as u64).as_str());
        push_str(&mut detail, " > ");
        push_str(&mut detail, decimal_string(rules.max_file_bytes as u64).as_str());
        push_str(&mut detail, " bytes");
        return Err(skipped(resolved_path, ParseSkipReason::FileTooLarge, detail.as_str(), Some(size)));
    }
    if rules.exclude_binary_like_contents && is_binary_like(contents.as_str()) {
        return Err(skipped(resolved_path, ParseSkipReason::BinaryLikeContent,
            "file contents look binary-like and were excluded", Some(size)));
    }
    let content_sha256 = sha256_hex(contents.as_str().as_bytes());
    Ok(ResolvedParseFile {
        path: resolved_path,
        language,
        source_kind,
        content_sha256,
        content_bytes: size,
        contents,
    })
}

impl Ranked for ResolvedParseFile {
    open spec fn ranks_before(a: Self, b: Self) -> bool {
        seq_lt(a.path@, b.path@)
    }

    fn before(&self, other: &Self) -> (r: bool) {
        str_lt(self.path.as_str(), other.path.as_str())
    }
}

impl Ranked for SkippedParseFile {
    open spec fn ranks_before(a: Self, b: Self) -> bool {
        seq_lt(a.path@, b.path@)
    }

    fn before(&self, other: &Self) -> (r: bool) {
        str_lt(self.path.as_str(), other.path.as_str())
    }
}

impl SnapshotFileCatalog {
    /// The catalog of a snapshot's entries: each entry classified in turn, then both
    /// lists stably ordered by path.
    pub fn from_entries(entries: Vec<CatalogEntry>, rules: &ParseEligibilityRules) -> (c: Self)
        ensures
            catalog_of(c, entries@, *rules),
    {
        let ghost all = entries@;
        let n = entries.len();
        let mut rest = entries;
        let mut eligible: Vec<ResolvedParseFile> = Vec::new();
        let mut skipped_files: Vec<SkippedParseFile> = Vec::new();
        let mut i: usize = 0;
        while i < n
            invariant
                0 <= i <= n,
                n == all.len(),
                rest@ == all.subrange(i as int, n as int),
                partitioned(eligible@, skipped_files@, all.subrange(0, i as int), *rules),
            decreases n - i,
        {
            let entry = rest.remove(0);
            assert(entry == all[i as int]);
            assert(rest@ =~= all.subrange(i + 1, n as int));
            let ghost prefix = all.subrange(0, i + 1);
            assert(prefix.drop_last() =~= all.subrange(0, i as int));
            let ghost before_e = eligible@;
            let ghost before_s = skipped_files@;
            match classify_entry(entry, rules) {
                Ok(f) => {
                    eligible.push(f);
                    assert(eligible@.drop_last() =~= before_e);
                },
                Err(s) => {
                    skipped_files.push(s);
                    assert(skipped_files@.drop_last() =~= before_s);
                },
            }
            i = i + 1;
        }
        assert(all.subrange(0, n as int) =~= all);
        let ghost e = eligible@;
        let ghost s = skipped_files@;
        let c = SnapshotFileCatalog {
            eligible_files: sort_ranked(eligible),
            skipped_files: sort_ranked(skipped_files),
        };
        assert(partitioned(e, s, all, *rules));
        c
    }
}


/// Whether `c` is the catalog of `entries`: their records, in entry order, each list
/// then stably ordered by path.
pub open spec fn catalog_of(c: SnapshotFileCatalog, entries: Seq<CatalogEntry>, rules: ParseEligibilityRules) -> bool {
    exists|eligible: Seq<ResolvedParseFile>, skipped: Seq<SkippedParseFile>|
        #[trigger] partitioned(eligible, skipped, entries, rules)
        && c.eligible_files@ == ranked_sort(eligible)
        && c.skipped_files@ == ranked_sort(skipped)
}

proof fn lemma_partitioned_len(
    eligible: Seq<ResolvedParseFile>,
    skipped: Seq<SkippedParseFile>,
    entries: Seq<CatalogEntry>,
    rules: ParseEligibilityRules,
)
    requires
        partitioned(eligible, skipped, entries, rules),
    ensures
        eligible.len() + skipped.len() == entries.len(),
    decreases entries.len(),
{
    if entries.len() > 0 {
        match skip_for(entries.last(), rules) {
            None => lemma_partitioned_len(eligible.drop_last(), skipped, entries.drop_last(), rules),
            Some(_) => lemma_partitioned_len(eligible, skipped.drop_last(), entries.drop_last(), rules),
        }
    }
}

proof fn lemma_path_order_strict()
    ensures
        strict_order::<ResolvedParseFile>(),
        strict_order::<SkippedParseFile>(),
{
    assert forall|a: ResolvedParseFile, b: ResolvedParseFile| #[trigger] ResolvedParseFile::ranks_before(a, b)
        implies !ResolvedParseFile::ranks_before(b, a) by {
        lemma_seq_lt_asymmetric(a.path@, b.path@);
    }
    assert forall|a: ResolvedParseFile, b: ResolvedParseFile, c: ResolvedParseFile|
        #[trigger] ResolvedParseFile::ranks_before(a, b) && #[trigger] ResolvedParseFile::ranks_before(b, c)
        implies ResolvedParseFile::ranks_before(a, c) by {
        lemma_seq_lt_transitive(a.path@, b.path@, c.path@);
    }
    assert forall|a: SkippedParseFile, b: SkippedParseFile| #[trigger] SkippedParseFile::ranks_before(a, b)
        implies !SkippedParseFile::ranks_before(b, a) by {
        lemma_seq_lt_asymmetric(a.path@, b.path@);
    }
    assert forall|a: SkippedParseFile, b: SkippedParseFile, c: SkippedParseFile|
        #[trigger] SkippedParseFile::ranks_before(a, b) && #[trigger] SkippedParseFile::ranks_before(b, c)
        implies SkippedParseFile::ranks_before(a, c) by {
        lemma_seq_lt_transitive(a.path@, b.path@, c.path@);
    }
}

/// Every snapshot entry lands in exactly one of the catalog's two lists, and both lists
/// are ordered by path.
pub proof fn law_catalog_accounts_for_every_entry(c: SnapshotFileCatalog, entries: Seq<CatalogEntry>, rules: ParseEligibilityRules)
    requires
        catalog_of(c, entries, rules),
    ensures
        c.eligible_files@.len() + c.skipped_files@.len() == entries.len(),
        is_ranked(c.eligible_files@),
        is_ranked(c.skipped_files@),
{
    let (eligible, skipped) = choose|eligible: Seq<ResolvedParseFile>, skipped: Seq<SkippedParseFile>|
        #[trigger] partitioned(eligible, skipped, entries, rules)
        && c.eligible_files@ == ranked_sort(eligible)
        && c.skipped_files@ == ranked_sort(skipped);
    lemma_partitioned_len(eligible, skipped, entries, rules);
    lemma_ranked_sort_len(eligible);
    lemma_ranked_sort_len(skipped);
    lemma_path_order_strict();
    lemma_ranked_sort_is_ranked(eligible);
    lemma_ranked_sort_is_ranked(skipped);
}

/// Every path a snapshot names: its base files, then its working tree entries, then its
/// buffers.
pub open spec fn snapshot_path_list(s: ComposedSnapshot) -> Seq<Seq<char>> {
    s.base.files@.map_values(|f: SnapshotFile| f.path@)
        + s.working_tree.entries@.map_values(|e: WorkingTreeEntry| e.path@)
        + s.buffers@.map_values(|b: BufferOverlay| b.path@)
}

/// No text follows one that sorts after it.
pub open spec fn text_sorted(s: Seq<Seq<char>>) -> bool {
    forall|i: int, j: int| 0 <= i < j < s.len() ==> !seq_lt(#[trigger] s[j], #[trigger] s[i])
}

/// No text occurs twice.
pub open spec fn text_distinct(s: Seq<Seq<char>>) -> bool {
    forall|i: int, j: int| 0 <= i < j < s.len() ==> #[trigger] s[i] != #[trigger] s[j]
}

fn insert_sorted_unique(v: &mut Vec<String>, p: String)
    requires
        text_sorted(views(old(v)@)),
        text_distinct(views(old(v)@)),
    ensures
        text_sorted(views(final(v)@)),
        text_distinct(views(final(v)@)),
        forall|q: Seq<char>| views(final(v)@).contains(q) <==> (views(old(v)@).contains(q) || q == p@),
{
    let ghost before = views(v@);
    let mut k: usize = 0;
    while k < v.len()
        invariant
            0 <= k <= v@.len(),
            views(v@) == before,
            before == views(old(v)@),
            text_sorted(before),
            text_distinct(before),
            forall|i: int| 0 <= i < k ==> before[i] != p@,
        decreases v@.len() - k,
    {
        if v[k] == p {
            proof {
                assert(before[k as int] == p@);
                assert forall|q: Seq<char>| before.contains(q) <==> (before.contains(q) || q == p@) by {
                    if q == p@ {
                        assert(before[k as int] == q);
                    }
                }
            }
            return;
        }
        k = k + 1;
    }
    let mut j: usize = 0;
    while j < v.len() && !str_lt(p.as_str(), v[j].as_str())
        invariant
            0 <= j <= v@.len(),
            views(v@) == before,
            before == views(old(v)@),
            text_sorted(before),
            text_distinct(before),
            forall|i: int| 0 <= i < j ==> !seq_lt(p@, #[trigger] before[i]),
        decreases v@.len() - j,
    {
        j = j + 1;
    }
    let ghost pv = p@;
    v.insert(j, p);
    proof {
        let after = views(v@);
        assert(after =~= before.insert(j as int, pv));
        assert forall|a: int, b: int| 0 <= a < b < after.len() implies !seq_lt(#[trigger] after[b], #[trigger] after[a]) by {
            if a < j && b == j {
                assert(after[a] == before[a]);
            } else if a == j && b > j {
                assert(after[b] == before[b - 1]);
                assert(j < before.len());
                assert(seq_lt(pv, before[j as int]));
                if b - 1 > j {
                    assert(!seq_lt(before[b - 1], before[j as int]));
                    lemma_seq_lt_transitive(before[b - 1], pv, before[j as int]);
                } else {
                    lemma_seq_lt_asymmetric(pv, before[j as int]);
                }
            } else if a < j && b < j {
                assert(after[a] == before[a] && after[b] == before[b]);
            } else if a < j && b > j {
                assert(after[a] == before[a] && after[b] == before[b - 1]);
            } else {
                assert(after[a] == before[a - 1] && after[b] == before[b - 1]);
            }
        }
        assert forall|a: int, b: int| 0 <= a < b < after.len() implies #[trigger] after[a] != #[trigger] after[b] by {
            if a == j {
                assert(after[b] == before[b - 1]);
            } else if b == j {
                assert(after[a] == before[a]);
            } else if a < j && b < j {
                assert(after[a] == before[a] && after[b] == before[b]);
            } else if a < j && b > j {
                assert(after[a] == before[a] && after[b] == before[b - 1]);
            } else {
                assert(after[a] == before[a - 1] && after[b] == before[b - 1]);
            }
        }
        assert forall|q: Seq<char>| after.contains(q) <==> (before.contains(q) || q == pv) by {
            if after.contains(q) {
                let i = choose|i: int| 0 <= i < after.len() && after[i] == q;
                if i < j {
                    assert(before[i] == q);
                } else if i > j {
                    assert(before[i - 1] == q);
                }
            }
            if before.contains(q) {
                let i = choose|i: int| 0 <= i < before.len() && before[i] == q;
                if i < j {
                    assert(after[i] == q);
                } else {
                    assert(after[i + 1] == q);
                }
            }
            if q == pv {
                assert(after[j as int] == q);
            }
        }
    }
}

/// The paths a snapshot names, each once, in the order of `str`.
pub fn snapshot_paths(snapshot: &ComposedSnapshot) -> (r: Vec<String>)
    ensures
        text_sorted(views(r@)),
        text_distinct(views(r@)),
        forall|q: Seq<char>| views(r@).contains(q) <==> snapshot_path_list(*snapshot).contains(q),
{
    let mut all: Vec<String> = Vec::new();
    let files = &snapshot.base.files;
    let mut i: usize = 0;
    while i < files.len()
        invariant
            0 <= i <= files@.len(),
            views(all@) == files@.subrange(0, i as int).map_values(|f: SnapshotFile| f.path@),
        decreases files@.len() - i,
    {
        all.push(files[i].path.clone());
        assert(files@.subrange(0, i + 1).map_values(|f: SnapshotFile| f.path@)
            =~= files@.subrange(0, i as int).map_values(|f: SnapshotFile| f.path@).push(files@[i as int].path@));
        assert(views(all@) =~= files@.subrange(0, i + 1).map_values(|f: SnapshotFile| f.path@));
        i = i + 1;
    }
    assert(files@.subrange(0, files@.len() as int) =~= files@);
    let ghost base_part = views(all@);
    let entries = &snapshot.working_tree.entries;
    let mut i: usize = 0;
    while i < entries.len()
        invariant
            0 <= i <= entries@.len(),
            views(all@) == base_part + entries@.subrange(0, i as int).map_values(|e: WorkingTreeEntry| e.path@),
        decreases entries@.len() - i,
    {
        let ghost prev = all@;
        all.push(entries[i].path.clone());
        assert(views(all@) =~= views(prev).push(entries@[i as int].path@));
        assert(entries@.subrange(0, i + 1).map_values(|e: WorkingTreeEntry| e.path@)
            =~= entries@.subrange(0, i as int).map_values(|e: WorkingTreeEntry| e.path@).push(entries@[i as int].path@));
        assert(views(all@) =~= base_part + entries@.subrange(0, i + 1).map_values(|e: WorkingTreeEntry| e.path@));
        i = i + 1;
    }
    assert(entries@.subrange(0, entries@.len() as int) =~= entries@);
    let ghost tree_part = views(all@);
    let buffers = &snapshot.buffers;
    let mut i: usize = 0;
    while i < buffers.len()
        invariant
            0 <= i <= buffers@.len(),
            views(all@) == tree_part + buffers@.subrange(0, i as int).map_values(|b: BufferOverlay| b.path@),
        decreases buffers@.len() - i,
    {
        let ghost prev = all@;
        all.push(buffers[i].path.clone());
        assert(views(all@) =~= views(prev).push(buffers@[i as int].path@));
        assert(buffers@.subrange(0, i + 1).map_values(|b: BufferOverlay| b.path@)
            =~= buffers@.subrange(0, i as int).map_values(|b: BufferOverlay| b.path@).push(buffers@[i as int].path@));
        assert(views(all@) =~= tree_part + buffers@.subrange(0, i + 1).map_values(|b: BufferOverlay| b.path@));
        i = i + 1;
    }
    assert(buffers@.subrange(0, buffers@.len() as int) =~= buffers@);
    assert(views(all@) =~= snapshot_path_list(*snapshot));
    let ghost listed = views(all@);
    let mut r: Vec<String> = Vec::new();
    let mut k: usize = 0;
    while k < all.len()
        invariant
            0 <= k <= all@.len(),
            views(all@) == listed,
            text_sorted(views(r@)),
            text_distinct(views(r@)),
            forall|q: Seq<char>| views(r@).contains(q) <==> listed.subrange(0, k as int).contains(q),
        decreases all@.len() - k,
    {
        let ghost prefix = listed.subrange(0, k as int);
        insert_sorted_unique(&mut r, all[k].clone());
        proof {
            let next = listed.subrange(0, k + 1);
            assert(next =~= prefix.push(listed[k as int]));
            assert forall|q: Seq<char>| next.contains(q) <==> (prefix.contains(q) || q == listed[k as int]) by {
                if next.contains(q) {
                    let i = choose|i: int| 0 <= i < next.len() && next[i] == q;
                    if i < k {
                        assert(prefix[i] == q);
                    }
                }
                if prefix.contains(q) {
                    let i = choose|i: int| 0 <= i < prefix.len() && prefix[i] == q;
                    assert(next[i] == q);
                }
                if q == listed[k as int] {
                    assert(next[k as int] == q);
                }
            }
        }
        k = k + 1;
    }
    assert(listed.subrange(0, listed.len() as int) =~= listed);
    r
}

} // verus!
