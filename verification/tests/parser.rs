use hyperindex::parser::language_pack_ts_js::{LanguagePack, TsJsLanguage, TsJsLanguagePack};
use hyperindex::parser::line_index::LineIndex;
use hyperindex::parser::parse_cache::{ParseCache, ParseCacheKey};
use hyperindex::parser::parse_core::{collect_diagnostics, AstNodeHandle, ParseCoreSettings, SyntaxNode, SyntaxTree};
use hyperindex::parser::snapshot_catalog::snapshot_paths;
use hyperindex::protocol::config::{PROTOCOL_VERSION, STORAGE_VERSION};
use hyperindex::protocol::snapshot::{
    BaseSnapshot, BaseSnapshotKind, BufferOverlay, ComposedSnapshot, OverlayEntryKind, SnapshotFile,
    WorkingTreeEntry, WorkingTreeOverlay,
};
use hyperindex::protocol::symbols::{ParseDiagnosticCode, ParseDiagnosticSeverity};
use hyperindex::parser::parse_manager::{
    stored_record_verdict, tally_build_stats, FileParseOutcome, StoredRecordVerdict, CACHE_SCHEMA_VERSION,
};
use hyperindex::parser::ParserError;
use hyperindex::protocol::symbols::LanguageId;

#[test]
fn converts_bytes_and_line_columns_both_ways() {
    let index = LineIndex::new("alpha\nbeta\n");
    assert_eq!(index.line_count(), 3);
    assert_eq!(index.byte_to_line_position(0).line, 1);
    assert_eq!(index.byte_to_line_position(0).column, 1);
    assert_eq!(index.byte_to_line_position(6).line, 2);
    assert_eq!(index.byte_to_line_position(6).column, 1);
    assert_eq!(index.line_column_to_byte(2, 3), Some(8));
}

#[test]
fn computes_incremental_edit_window() {
    let old_contents = "export const value = 1;\n";
    let new_contents = "export const value = 42;\n";
    let old_index = LineIndex::new(old_contents);
    let new_index = LineIndex::new(new_contents);
    let edit = old_index.edit_from(old_contents, new_contents, &new_index);

    assert_eq!(edit.start_byte, 21);
    assert_eq!(edit.old_end_byte, 22);
    assert_eq!(edit.new_end_byte, 23);
    assert_eq!(edit.start_position.row, 0);
    assert_eq!(edit.start_position.column, 21);
}

#[test]
fn line_index_clamps_and_rejects_out_of_range_positions() {
    let index = LineIndex::new("ab\ncd");
    assert_eq!(index.len(), 5);
    assert!(!index.is_empty());
    assert!(LineIndex::new("").is_empty());
    let end = index.byte_to_line_position(99);
    assert_eq!((end.line, end.column), (2, 3));
    assert_eq!(index.line_column_to_byte(0, 1), None);
    assert_eq!(index.line_column_to_byte(3, 1), None);
    assert_eq!(index.line_column_to_byte(1, 4), Some(3));
    assert_eq!(index.line_column_to_byte(1, 5), None);
    assert_eq!(index.line_column_to_byte(1, 3), Some(2));
    let span = index.byte_range_to_span(1, 4);
    assert_eq!((span.start.line, span.start.column), (1, 2));
    assert_eq!((span.end.line, span.end.column), (2, 2));
    assert_eq!((span.bytes.start, span.bytes.end), (1, 4));
    let copy = index.clone();
    assert_eq!(copy, index);
}

#[test]
fn detects_supported_ts_js_extensions() {
    let pack = TsJsLanguagePack;
    assert_eq!(pack.detect_path("src/app.ts"), Some(TsJsLanguage::TypeScript));
    assert_eq!(pack.detect_path("src/app.tsx"), Some(TsJsLanguage::TypeScriptReact));
    assert_eq!(pack.detect_path("src/app.js"), Some(TsJsLanguage::JavaScript));
    assert_eq!(pack.detect_path("src/app.jsx"), Some(TsJsLanguage::JavaScriptReact));
    assert_eq!(pack.detect_path("src/app.mts"), Some(TsJsLanguage::TypeScriptModule));
    assert_eq!(pack.detect_path("src/app.cts"), Some(TsJsLanguage::TypeScriptCommonJs));
    assert_eq!(pack.detect_path("README.md"), None);
}

#[test]
fn language_names_and_protocol_ids() {
    let pack = TsJsLanguagePack;
    assert_eq!(pack.pack_id(), "ts_js_core");
    assert!(pack.supports_path("a/b.mts"));
    assert!(!pack.supports_path("a/.ts"));
    assert_eq!(TsJsLanguage::TypeScriptReact.as_str(), "tsx");
    assert_eq!(TsJsLanguage::TypeScriptCommonJs.to_protocol_language(), LanguageId::Cts);
}

use hyperindex::parser::snapshot_catalog::{
    is_binary_like, is_generated_path, is_vendor_path, CatalogEntry, ParseEligibilityRules,
    ParseSkipReason, ResolvedSnapshotFile, SnapshotFileCatalog,
};
use hyperindex::protocol::symbols::ParseInputSourceKind;

fn entry(path: &str, contents: Option<(&str, ParseInputSourceKind)>, ignored: bool) -> CatalogEntry {
    CatalogEntry {
        path: path.to_string(),
        resolved: contents.map(|(text, source_kind)| ResolvedSnapshotFile {
            path: path.to_string(),
            contents: text.to_string(),
            source_kind,
        }),
        ignored,
    }
}

// The snapshot of the original scenario, after its overlays are applied (the buffer
// replaces `src/app.ts`, the working tree deletes `src/deleted.ts`) and the extra
// `ignored/**` pattern is matched.
#[test]
fn catalog_excludes_ignored_vendor_generated_and_binary_files() {
    let entries = vec![
        entry("ignored/drop.ts", Some(("export const ignored = 1;", ParseInputSourceKind::BaseSnapshot)), true),
        entry(
            "src/__generated__/types.ts",
            Some(("export const generated = 1;", ParseInputSourceKind::BaseSnapshot)),
            false,
        ),
        entry(
            "src/app.ts",
            Some(("export const value = buffer();", ParseInputSourceKind::BufferOverlay)),
            false,
        ),
        entry("src/blob.ts", Some(("abc\0de", ParseInputSourceKind::BaseSnapshot)), false),
        entry("src/deleted.ts", None, false),
        entry("vendor/lib.ts", Some(("export const vendor = 1;", ParseInputSourceKind::BaseSnapshot)), false),
    ];
    let mut rules = ParseEligibilityRules::default();
    rules.ignore_patterns.push("ignored/**".to_string());

    let catalog = SnapshotFileCatalog::from_entries(entries, &rules);

    assert_eq!(catalog.eligible_files.len(), 1);
    assert_eq!(catalog.eligible_files[0].path, "src/app.ts");
    assert_eq!(catalog.skipped_files.len(), 5);
    assert_eq!(
        catalog
            .skipped_files
            .iter()
            .map(|file| file.reason.clone())
            .collect::<Vec<_>>(),
        vec![
            ParseSkipReason::IgnoredByPattern,
            ParseSkipReason::GeneratedPath,
            ParseSkipReason::BinaryLikeContent,
            ParseSkipReason::DeletedInSnapshot,
            ParseSkipReason::VendorPath,
        ]
    );
}

#[test]
fn catalog_records_digest_size_and_source_of_eligible_files() {
    let catalog = SnapshotFileCatalog::from_entries(
        vec![
            entry("b.ts", Some(("abc", ParseInputSourceKind::WorkingTreeOverlay)), false),
            entry("a.tsx", Some(("x", ParseInputSourceKind::BaseSnapshot)), false),
            entry("c.rs", Some(("fn main() {}", ParseInputSourceKind::BaseSnapshot)), false),
        ],
        &ParseEligibilityRules::default(),
    );
    assert_eq!(catalog.eligible_files.len(), 2);
    assert_eq!(catalog.eligible_files[0].path, "a.tsx");
    let b = &catalog.eligible_files[1];
    assert_eq!(b.path, "b.ts");
    assert_eq!(b.content_bytes, 3);
    assert_eq!(b.source_kind, ParseInputSourceKind::WorkingTreeOverlay);
    assert_eq!(
        b.content_sha256,
        "ba7816bf8f01cfea414140de5dae2223b00361a396177a9cb410ff61f20015ad"
    );
    assert_eq!(catalog.skipped_files[0].reason, ParseSkipReason::UnsupportedLanguage);
}

#[test]
fn catalog_skips_files_over_the_size_limit() {
    let mut rules = ParseEligibilityRules::default();
    rules.max_file_bytes = 4;
    let catalog = SnapshotFileCatalog::from_entries(
        vec![entry("big.ts", Some(("123456", ParseInputSourceKind::BaseSnapshot)), false)],
        &rules,
    );
    assert!(catalog.eligible_files.is_empty());
    assert_eq!(catalog.skipped_files[0].reason, ParseSkipReason::FileTooLarge);
    assert_eq!(catalog.skipped_files[0].detail, "file exceeds max parse size: 6 > 4 bytes");
    assert_eq!(catalog.skipped_files[0].content_bytes, Some(6));

    rules.enabled_languages = vec![hyperindex::protocol::symbols::LanguageId::Javascript];
    let catalog = SnapshotFileCatalog::from_entries(
        vec![entry("a.ts", Some(("1", ParseInputSourceKind::BaseSnapshot)), false)],
        &rules,
    );
    assert_eq!(
        catalog.skipped_files[0].detail,
        "language is disabled by the active parser rules"
    );
}

#[test]
fn path_heuristics_match_components_and_file_names() {
    assert!(is_vendor_path("a/third-party/x.ts"));
    assert!(is_vendor_path("node_modules/x.ts"));
    assert!(!is_vendor_path("src/vendorish/x.ts"));
    assert!(is_generated_path("src/gen/x.ts"));
    assert!(is_generated_path("src/x.generated.ts"));
    assert!(is_generated_path("dist/app.min.js"));
    assert!(!is_generated_path("src/generator.ts"));
    assert!(is_binary_like("a\u{1}b"));
    assert!(!is_binary_like("tab\tline\nreturn\r"));
}

#[test]
fn eligibility_rules_follow_the_runtime_config() {
    let mut config = hyperindex::protocol::config::RuntimeConfig::default();
    config.ignores.global_patterns = vec!["a/**".to_string()];
    config.ignores.repo_patterns = vec!["b/**".to_string()];
    config.parser.max_file_bytes = 77;
    let rules = ParseEligibilityRules::from_runtime_config(&config);
    assert_eq!(rules.ignore_patterns, vec!["a/**".to_string(), "b/**".to_string()]);
    assert_eq!(rules.max_file_bytes, 77);
    assert_eq!(rules.enabled_languages.len(), 6);

    for pack in config.parser.language_packs.iter_mut() {
        pack.enabled = false;
    }
    let rules = ParseEligibilityRules::from_runtime_config(&config);
    assert_eq!(rules.enabled_languages, ParseEligibilityRules::default().enabled_languages);
}

use hyperindex::parser::parse_manager::{
    build_id_for, cache_id_for, parser_config_digest, ParseManagerOptions,
};
use hyperindex::parser::snapshot_catalog::ResolvedParseFile;

fn manager_options() -> ParseManagerOptions {
    ParseManagerOptions {
        store_root: "/tmp/parse".to_string(),
        rules: ParseEligibilityRules::default(),
        diagnostics_max_per_file: 10,
    }
}

#[test]
fn parser_config_digest_hashes_sorted_settings() {
    let options = manager_options();
    let digest = parser_config_digest(&options);
    assert_eq!(
        digest,
        "08a502719a99d317007ceddc059c6e38b7c045980822b18c54a1aa6ee3c7e924"
    );
    let mut reordered = manager_options();
    reordered.rules.ignore_patterns.reverse();
    reordered.rules.enabled_languages.reverse();
    assert_eq!(parser_config_digest(&reordered), digest);
    let mut changed = manager_options();
    changed.diagnostics_max_per_file = 11;
    assert_ne!(parser_config_digest(&changed), digest);
}

#[test]
fn cache_and_build_ids_follow_the_config_digest() {
    let digest = "08a502719a99d317007ceddc059c6e38b7c045980822b18c54a1aa6ee3c7e924";
    let file = ResolvedParseFile {
        path: "src/a.ts".to_string(),
        language: TsJsLanguage::TypeScript,
        source_kind: hyperindex::protocol::symbols::ParseInputSourceKind::BaseSnapshot,
        content_sha256: "abc".to_string(),
        content_bytes: 3,
        contents: "abc".to_string(),
    };
    assert_eq!(
        cache_id_for(digest, &file),
        "749650f709e96b35d3bca35de5019d9eb0cfde3bef4e30e02ba8eca592587546"
    );
    assert_eq!(build_id_for("snap-1", digest), "parse-snap-1-08a502719a99");
    assert_eq!(build_id_for("snap-1", "abc"), "parse-snap-1-abc");
}

#[test]
fn cache_key_hashes_the_contents() {
    let key = ParseCacheKey::from_contents("src/app.ts", "abc");
    assert_eq!(key.path, "src/app.ts");
    assert_eq!(key.content_sha256, "ba7816bf8f01cfea414140de5dae2223b00361a396177a9cb410ff61f20015ad");
    let other = ParseCacheKey::from_contents("src/app.ts", "abd");
    assert_ne!(key, other);
}

#[test]
fn node_handles_clamp_their_span_to_the_text() {
    let index = LineIndex::new("ab\ncd");
    let node = AstNodeHandle::from_byte_range("identifier", &index, 3, 99, false, false, true, 0, 1);
    assert_eq!(node.kind, "identifier");
    assert_eq!(node.span.bytes.start, 3);
    assert_eq!(node.span.bytes.end, 5);
    assert_eq!(node.span.start.line, 2);
    assert_eq!(node.span.start.column, 1);
    assert_eq!(node.span.end.line, 2);
    assert_eq!(node.span.end.column, 3);
    assert!(node.is_missing && !node.is_error && !node.has_error);
    assert_eq!(node.child_count, 1);
    assert_eq!(node.named_child_count, 0);
    assert_eq!(ParseCoreSettings::default().diagnostics_max_per_file, 32);
}

#[test]
fn stored_records_are_used_discarded_or_ignored() {
    assert_eq!(stored_record_verdict(1, CACHE_SCHEMA_VERSION, "abc", "abc"), StoredRecordVerdict::Use);
    assert_eq!(stored_record_verdict(1, CACHE_SCHEMA_VERSION, "abc", "abd"), StoredRecordVerdict::Ignore);
    assert_eq!(stored_record_verdict(2, CACHE_SCHEMA_VERSION, "abc", "abc"), StoredRecordVerdict::Discard);
    assert_eq!(stored_record_verdict(0, 1, "x", "y"), StoredRecordVerdict::Discard);
}

#[test]
fn build_stats_count_every_planned_file_once() {
    let outcomes = vec![
        FileParseOutcome { reused_from_cache: true, diagnostic_count: 2 },
        FileParseOutcome { reused_from_cache: false, diagnostic_count: 0 },
        FileParseOutcome { reused_from_cache: false, diagnostic_count: 3 },
    ];
    let stats = tally_build_stats(&outcomes, 4, 17);
    assert_eq!(stats.planned_file_count, 3);
    assert_eq!(stats.reused_file_count, 1);
    assert_eq!(stats.parsed_file_count, 2);
    assert_eq!(stats.skipped_file_count, 4);
    assert_eq!(stats.diagnostic_count, 5);
    assert_eq!(stats.elapsed_ms, 17);
    let empty = tally_build_stats(&Vec::new(), 0, 0);
    assert_eq!(empty.planned_file_count, 0);
    assert_eq!(empty.diagnostic_count, 0);
}

#[test]
fn parser_errors_carry_their_message() {
    assert_eq!(ParserError::Message("failed to parse".to_string()).message(), "failed to parse");
}

#[test]
fn cache_roundtrip_uses_content_identity_and_latest_path_key() {
    let key = ParseCacheKey::from_contents("src/app.ts", "export const value = 1;");
    let mut cache: ParseCache<(bool, ParseCacheKey)> = ParseCache::default();
    cache.upsert(key.clone(), (true, key.clone()));

    let entry = cache.get(&key).unwrap();
    assert!(entry.0);
    assert_eq!(&cache.latest_for_path("src/app.ts").unwrap().1, &key);
    assert_eq!(cache.len(), 1);
}

#[test]
fn cache_keeps_old_contents_and_follows_the_latest() {
    let first = ParseCacheKey::from_contents("src/app.ts", "export const value = 1;");
    let second = ParseCacheKey::from_contents("src/app.ts", "export const value = 2;");
    let other = ParseCacheKey::from_contents("src/lib.ts", "export const value = 1;");
    let mut cache: ParseCache<u32> = ParseCache::default();
    assert_eq!(cache.len(), 0);
    assert_eq!(cache.latest_for_path("src/app.ts"), None);
    cache.upsert(first.clone(), 1);
    cache.upsert(second.clone(), 2);
    cache.upsert(other.clone(), 3);
    assert_eq!(cache.len(), 3);
    assert_eq!(cache.get(&first), Some(&1));
    assert_eq!(cache.latest_for_path("src/app.ts"), Some(&2));
    assert_eq!(cache.latest_for_path("src/lib.ts"), Some(&3));
    cache.upsert(first.clone(), 4);
    assert_eq!(cache.len(), 3);
    assert_eq!(cache.get(&first), Some(&4));
    assert_eq!(cache.get(&second), Some(&2));
    assert_eq!(cache.latest_for_path("src/app.ts"), Some(&4));
    assert_eq!(cache.latest_for_path("src/none.ts"), None);
}

fn leaf(kind: &str, start: usize, end: usize, is_error: bool, is_missing: bool) -> SyntaxNode {
    SyntaxNode {
        kind: kind.to_string(),
        start_byte: start,
        end_byte: end,
        has_error: is_error || is_missing,
        is_error,
        is_missing,
        named_child_count: 0,
        children: Vec::new(),
    }
}

fn tree_with_errors() -> SyntaxTree {
    let root = SyntaxNode {
        kind: "program".to_string(),
        start_byte: 0,
        end_byte: 11,
        has_error: true,
        is_error: false,
        is_missing: false,
        named_child_count: 1,
        children: vec![1, 2, 3],
    };
    let inner = SyntaxNode {
        kind: "lexical_declaration".to_string(),
        start_byte: 4,
        end_byte: 11,
        has_error: true,
        is_error: false,
        is_missing: false,
        named_child_count: 1,
        children: vec![4, 5],
    };
    SyntaxTree {
        nodes: vec![
            root,
            leaf("ERROR", 0, 2, true, false),
            inner,
            leaf("ERROR", 0, 2, true, false),
            leaf(";", 11, 11, false, true),
            leaf("ERROR", 5, 7, true, false),
        ],
    }
}

#[test]
fn diagnostics_follow_breadth_first_order_without_duplicates() {
    let index = LineIndex::new("abc\ndef\nghi");
    let diagnostics = collect_diagnostics("src/app.ts", &index, &tree_with_errors(), 32);
    assert_eq!(diagnostics.len(), 3);
    assert_eq!(diagnostics[0].message, "syntax error near ERROR");
    assert_eq!(diagnostics[0].span.unwrap().bytes.start, 0);
    assert_eq!(diagnostics[0].span.unwrap().bytes.end, 2);
    assert_eq!(diagnostics[1].message, "missing syntax node near ;");
    assert_eq!(diagnostics[1].span.unwrap().start.line, 3);
    assert_eq!(diagnostics[1].span.unwrap().start.column, 4);
    assert_eq!(diagnostics[2].message, "syntax error near ERROR");
    assert_eq!(diagnostics[2].span.unwrap().bytes.start, 5);
    assert_eq!(diagnostics[2].span.unwrap().start.line, 2);
    assert_eq!(diagnostics[2].span.unwrap().start.column, 2);
    for d in &diagnostics {
        assert_eq!(d.severity, ParseDiagnosticSeverity::Error);
        assert_eq!(d.code, ParseDiagnosticCode::SyntaxError);
        assert_eq!(d.path.as_deref(), Some("src/app.ts"));
    }
}

#[test]
fn diagnostics_stop_at_the_per_file_limit() {
    let index = LineIndex::new("abc\ndef\nghi");
    let diagnostics = collect_diagnostics("src/app.ts", &index, &tree_with_errors(), 1);
    assert_eq!(diagnostics.len(), 1);
    assert_eq!(diagnostics[0].span.unwrap().bytes.end, 2);
}

#[test]
fn recovery_without_error_nodes_is_reported_once() {
    let index = LineIndex::new("abc\ndef\nghi");
    let mut root = leaf("program", 0, 11, false, false);
    root.has_error = true;
    root.children.push(1);
    let recovered = SyntaxTree { nodes: vec![root, leaf("identifier", 0, 3, false, false)] };
    let diagnostics = collect_diagnostics("src/app.ts", &index, &recovered, 32);
    assert_eq!(diagnostics.len(), 1);
    assert_eq!(diagnostics[0].code, ParseDiagnosticCode::PartialAnalysis);
    assert_eq!(diagnostics[0].message, "tree-sitter reported parse recovery without a concrete error node");
    assert_eq!(diagnostics[0].span.unwrap().bytes.end, 11);

    let limited = collect_diagnostics("src/app.ts", &index, &tree_with_errors(), 0);
    assert_eq!(limited.len(), 1);
    assert_eq!(limited[0].code, ParseDiagnosticCode::PartialAnalysis);

    let clean_tree = SyntaxTree { nodes: vec![leaf("program", 0, 11, false, false)] };
    let clean = collect_diagnostics("src/app.ts", &index, &clean_tree, 32);
    assert!(clean.is_empty());
}

#[test]
fn snapshot_paths_are_sorted_and_listed_once() {
    let file = |path: &str| SnapshotFile {
        path: path.to_string(),
        content_sha256: "sha".to_string(),
        content_bytes: 1,
        contents: "x".to_string(),
    };
    let snapshot = ComposedSnapshot {
        version: STORAGE_VERSION,
        protocol_version: PROTOCOL_VERSION.to_string(),
        snapshot_id: "snap-1".to_string(),
        repo_id: "repo-1".to_string(),
        repo_root: "/tmp/repo".to_string(),
        base: BaseSnapshot {
            kind: BaseSnapshotKind::GitCommit,
            commit: "abc123".to_string(),
            digest: "base".to_string(),
            file_count: 2,
            files: vec![file("src/b.ts"), file("README.md"), file("src/a.ts")],
        },
        working_tree: WorkingTreeOverlay {
            digest: "work".to_string(),
            entries: vec![WorkingTreeEntry {
                path: "src/a.ts".to_string(),
                kind: OverlayEntryKind::Delete,
                content_sha256: None,
                content_bytes: None,
                contents: None,
            }],
        },
        buffers: vec![BufferOverlay {
            buffer_id: "buffer-1".to_string(),
            path: "src/c.ts".to_string(),
            version: 1,
            content_sha256: "sha-buffer".to_string(),
            content_bytes: 1,
            contents: "y".to_string(),
        }],
    };
    assert_eq!(snapshot_paths(&snapshot), vec!["README.md", "src/a.ts", "src/b.ts", "src/c.ts"]);
}

#[test]
fn line_count_is_one_more_than_the_newlines() {
    for text in ["", "a", "a\n", "alpha\nbeta\n", "\n\n\n", "x\ny\nz"] {
        let index = LineIndex::new(text);
        assert_eq!(index.line_count(), 1 + text.bytes().filter(|b| *b == b'\n').count());
        assert_eq!(index.len(), text.len());
        assert_eq!(index.is_empty(), text.is_empty());
    }
    let index = LineIndex::new("alpha\nbeta\n");
    assert_eq!(index.line_column_to_byte(2, 3), Some(8));
    assert_eq!(index.line_column_to_byte(0, 1), None);
    assert_eq!(index.line_column_to_byte(1, 0), None);
    assert_eq!(index.line_column_to_byte(4, 1), None);
}
