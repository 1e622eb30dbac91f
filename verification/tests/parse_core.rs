use hyperindex::parser::parse_core::{ParseCore, SnapshotPathEntry};
use hyperindex::parser::snapshot_catalog::{snapshot_paths, ResolvedSnapshotFile};
use hyperindex::protocol::config::{PROTOCOL_VERSION, STORAGE_VERSION};
use hyperindex::protocol::snapshot::{
    BaseSnapshot, BaseSnapshotKind, BufferOverlay, ComposedSnapshot, OverlayEntryKind, SnapshotFile,
    WorkingTreeEntry, WorkingTreeOverlay,
};
use hyperindex::protocol::symbols::{LanguageId, ParseDiagnosticCode, ParseInputSourceKind};

const VALID_MODULE_TS: &str = "export interface Session {\n  id: string;\n}\n\nexport function invalidateSession(session: Session): void {\n  console.log(session.id);\n}\n";
const VALID_COMPONENT_TSX: &str = "export const App = () => <div className=\"app\">hello</div>;\n";
const VALID_PLAIN_JS: &str = "export function add(a, b) {\n  return a + b;\n}\n";
const VALID_WIDGET_JSX: &str = "export const Widget = () => <section>widget</section>;\n";
const VALID_SERVER_MTS: &str = "export const port: number = 8080;\n";
const VALID_CONFIG_CTS: &str = "const config = { retries: 3 };\nexport = config;\n";
const BROKEN_EDITING_TSX: &str = "export const App = () => {\n  const label = \"x\";\n  return <div>{label</div>;\n};\n";

fn resolve(snapshot: &ComposedSnapshot, path: &str) -> Option<ResolvedSnapshotFile> {
    if let Some(buffer) = snapshot.buffers.iter().rev().find(|b| b.path == path) {
        return Some(ResolvedSnapshotFile {
            path: path.to_string(),
            contents: buffer.contents.clone(),
            source_kind: ParseInputSourceKind::BufferOverlay,
        });
    }
    if let Some(entry) = snapshot.working_tree.entries.iter().rev().find(|e| e.path == path) {
        return match entry.kind {
            OverlayEntryKind::Delete => None,
            OverlayEntryKind::Upsert => Some(ResolvedSnapshotFile {
                path: path.to_string(),
                contents: entry.contents.clone().unwrap_or_default(),
                source_kind: ParseInputSourceKind::WorkingTreeOverlay,
            }),
        };
    }
    snapshot.base.files.iter().find(|f| f.path == path).map(|f| ResolvedSnapshotFile {
        path: path.to_string(),
        contents: f.contents.clone(),
        source_kind: ParseInputSourceKind::BaseSnapshot,
    })
}

fn entries(snapshot: &ComposedSnapshot) -> Vec<SnapshotPathEntry> {
    snapshot_paths(snapshot)
        .into_iter()
        .map(|path| {
            let resolved = resolve(snapshot, &path);
            (path, resolved)
        })
        .collect()
}

fn snapshot_with_file(path: &str, contents: &str) -> ComposedSnapshot {
    ComposedSnapshot {
        version: STORAGE_VERSION,
        protocol_version: PROTOCOL_VERSION.to_string(),
        snapshot_id: format!("snap-{path}"),
        repo_id: "repo-1".to_string(),
        repo_root: "/tmp/repo".to_string(),
        base: BaseSnapshot {
            kind: BaseSnapshotKind::GitCommit,
            commit: "abc123".to_string(),
            digest: "base".to_string(),
            file_count: 1,
            files: vec![SnapshotFile {
                path: path.to_string(),
                content_sha256: format!("sha-{path}"),
                content_bytes: contents.len(),
                contents: contents.to_string(),
            }],
        },
        working_tree: WorkingTreeOverlay { digest: "work".to_string(), entries: Vec::new() },
        buffers: Vec::new(),
    }
}

#[test]
fn parse_snapshot_prefers_overlay_order_and_only_keeps_supported_files() {
    let mut core = ParseCore::default();
    let snapshot = ComposedSnapshot {
        version: STORAGE_VERSION,
        protocol_version: PROTOCOL_VERSION.to_string(),
        snapshot_id: "snap-1".to_string(),
        repo_id: "repo-1".to_string(),
        repo_root: "/tmp/repo".to_string(),
        base: BaseSnapshot {
            kind: BaseSnapshotKind::GitCommit,
            commit: "abc123".to_string(),
            digest: "base".to_string(),
            file_count: 2,
            files: vec![
                SnapshotFile {
                    path: "src/app.ts".to_string(),
                    content_sha256: "sha-base".to_string(),
                    content_bytes: 23,
                    contents: "export const value = 1;".to_string(),
                },
                SnapshotFile {
                    path: "README.md".to_string(),
                    content_sha256: "sha-readme".to_string(),
                    content_bytes: 4,
                    contents: "read".to_string(),
                },
            ],
        },
        working_tree: WorkingTreeOverlay {
            digest: "work".to_string(),
            entries: vec![WorkingTreeEntry {
                path: "src/app.ts".to_string(),
                kind: OverlayEntryKind::Upsert,
                content_sha256: Some("sha-work".to_string()),
                content_bytes: Some(30),
                contents: Some("export const value = work();".to_string()),
            }],
        },
        buffers: vec![BufferOverlay {
            buffer_id: "buffer-1".to_string(),
            path: "src/app.ts".to_string(),
            version: 3,
            content_sha256: "sha-buffer".to_string(),
            content_bytes: 32,
            contents: "export const value = buffer();".to_string(),
        }],
    };

    let batch = core.parse_snapshot(&snapshot.snapshot_id, entries(&snapshot)).unwrap();
    assert_eq!(batch.artifacts.len(), 1);
    assert_eq!(batch.skipped_paths, vec!["README.md".to_string()]);
    assert_eq!(batch.artifacts[0].candidate().path, "src/app.ts");
    assert_eq!(batch.artifacts[0].metadata().source_kind, ParseInputSourceKind::BufferOverlay);
    assert!(batch.artifacts[0].parse_succeeded());
    assert_eq!(batch.artifacts[0].root().kind, "program");
    assert_eq!(core.cache_len(), 1);
}

#[test]
fn reparse_reuses_prior_tree_and_updates_diagnostics() {
    let mut core = ParseCore::default();
    let snapshot = snapshot_with_file("src/app.tsx", "export const App = () => <div />;");
    let parsed = core
        .parse_file_from_snapshot("src/app.tsx", resolve(&snapshot, "src/app.tsx"))
        .unwrap()
        .unwrap();
    let reparsed = core
        .reparse(&parsed, "export const App = () => <div>{label</div>;", ParseInputSourceKind::BufferOverlay)
        .unwrap();

    assert!(reparsed.reused_incremental_tree());
    assert!(reparsed.has_recoverable_errors());
    assert_eq!(reparsed.metadata().source_kind, ParseInputSourceKind::BufferOverlay);
}

#[test]
fn parses_all_supported_ts_js_extensions() {
    let cases = [
        ("src/module.ts", VALID_MODULE_TS, LanguageId::Typescript),
        ("src/component.tsx", VALID_COMPONENT_TSX, LanguageId::Tsx),
        ("src/plain.js", VALID_PLAIN_JS, LanguageId::Javascript),
        ("src/widget.jsx", VALID_WIDGET_JSX, LanguageId::Jsx),
        ("src/server.mts", VALID_SERVER_MTS, LanguageId::Mts),
        ("src/config.cts", VALID_CONFIG_CTS, LanguageId::Cts),
    ];

    for (path, contents, language) in cases {
        let snapshot = snapshot_with_file(path, contents);
        let mut parser = ParseCore::default();
        let artifact = parser.parse_file_from_snapshot(path, resolve(&snapshot, path)).unwrap().unwrap();

        assert!(artifact.parse_succeeded(), "{path}");
        assert!(!artifact.has_recoverable_errors(), "{path}");
        assert_eq!(artifact.metadata().language, language, "{path}");
        assert_eq!(artifact.root().kind, "program", "{path}");
        assert!(artifact.root().child_count > 0, "{path}");
    }
}

#[test]
fn broken_editing_fixture_reports_recoverable_diagnostics() {
    let snapshot = snapshot_with_file("src/editing.tsx", BROKEN_EDITING_TSX);
    let mut parser = ParseCore::default();
    let artifact = parser
        .parse_file_from_snapshot("src/editing.tsx", resolve(&snapshot, "src/editing.tsx"))
        .unwrap()
        .unwrap();

    assert!(artifact.parse_succeeded());
    assert!(artifact.has_recoverable_errors());
    assert_eq!(artifact.metadata().language, LanguageId::Tsx);
    assert!(!artifact.metadata().diagnostics.is_empty());
    assert!(artifact.root().has_error);
}

#[test]
fn snapshot_parse_respects_buffer_and_working_tree_precedence() {
    let mut parser = ParseCore::default();
    let snapshot = ComposedSnapshot {
        version: STORAGE_VERSION,
        protocol_version: PROTOCOL_VERSION.to_string(),
        snapshot_id: "snap-precedence".to_string(),
        repo_id: "repo-1".to_string(),
        repo_root: "/tmp/repo".to_string(),
        base: BaseSnapshot {
            kind: BaseSnapshotKind::GitCommit,
            commit: "abc123".to_string(),
            digest: "base".to_string(),
            file_count: 1,
            files: vec![SnapshotFile {
                path: "src/module.ts".to_string(),
                content_sha256: "sha-base".to_string(),
                content_bytes: VALID_MODULE_TS.len(),
                contents: VALID_MODULE_TS.to_string(),
            }],
        },
        working_tree: WorkingTreeOverlay {
            digest: "work".to_string(),
            entries: vec![WorkingTreeEntry {
                path: "src/module.ts".to_string(),
                kind: OverlayEntryKind::Upsert,
                content_sha256: Some("sha-work".to_string()),
                content_bytes: Some(VALID_PLAIN_JS.len()),
                contents: Some(VALID_PLAIN_JS.to_string()),
            }],
        },
        buffers: vec![BufferOverlay {
            buffer_id: "buffer-1".to_string(),
            path: "src/module.ts".to_string(),
            version: 2,
            content_sha256: "sha-buffer".to_string(),
            content_bytes: BROKEN_EDITING_TSX.len(),
            contents: BROKEN_EDITING_TSX.to_string(),
        }],
    };

    let artifact = parser
        .parse_file_from_snapshot("src/module.ts", resolve(&snapshot, "src/module.ts"))
        .unwrap()
        .unwrap();

    assert_eq!(artifact.metadata().source_kind, ParseInputSourceKind::BufferOverlay);
    assert_eq!(artifact.contents(), BROKEN_EDITING_TSX);
    assert!(artifact.has_recoverable_errors());
}

#[test]
fn incremental_reparse_reuses_prior_tree_and_updates_line_mapping() {
    let mut parser = ParseCore::default();
    let snapshot = snapshot_with_file("src/module.ts", VALID_MODULE_TS);
    let original = parser
        .parse_file_from_snapshot("src/module.ts", resolve(&snapshot, "src/module.ts"))
        .unwrap()
        .unwrap();
    let edited = format!("{}\nexport const finalFlag = true;\n", VALID_MODULE_TS);

    let reparsed = parser.reparse(&original, &edited, ParseInputSourceKind::BufferOverlay).unwrap();
    let expected_byte = edited.find("export const finalFlag").unwrap();
    let final_line = edited.lines().count() as u32;

    assert!(reparsed.reused_incremental_tree());
    assert!(!reparsed.has_recoverable_errors());
    assert_eq!(reparsed.line_index().line_column_to_byte(final_line, 1), Some(expected_byte));
}

#[test]
fn parse_metadata_names_the_artifact_by_path_and_digest() {
    let mut core = ParseCore::default();
    let candidate_path = "src/app.ts";
    let snapshot = snapshot_with_file(candidate_path, "abc");
    let artifact = core
        .parse_file_from_snapshot(candidate_path, resolve(&snapshot, candidate_path))
        .unwrap()
        .unwrap();
    let digest = "ba7816bf8f01cfea414140de5dae2223b00361a396177a9cb410ff61f20015ad";
    assert_eq!(artifact.metadata().artifact_id, format!("parse:src/app.ts:{digest}"));
    assert_eq!(artifact.metadata().content_sha256, digest);
    assert_eq!(artifact.metadata().parser_pack_id, "ts_js_core");
    assert_eq!(artifact.metadata().content_bytes, 3);
    assert_eq!(artifact.cache_key().content_sha256, digest);
    assert!(!artifact.reused_incremental_tree());
    let inspection = artifact.inspection();
    assert_eq!(inspection.line_count, 1);
    assert_eq!(inspection.artifact, *artifact.metadata());
    assert_eq!(core.cache_len(), 1);

    let again = core.parse_contents(artifact.candidate().clone(), "abc".to_string()).unwrap();
    assert!(again.reused_incremental_tree());
    assert_eq!(core.cache_len(), 1);
}

#[test]
fn unsupported_or_deleted_paths_are_not_parsed() {
    let mut core = ParseCore::default();
    assert!(core.parse_file_from_snapshot("README.md", None).unwrap().is_none());
    assert!(core.parse_file_from_snapshot("src/gone.ts", None).unwrap().is_none());
    assert_eq!(core.cache_len(), 0);

    let broken = snapshot_with_file("src/bad.ts", "export const = ;");
    let artifact = core.parse_file_from_snapshot("src/bad.ts", resolve(&broken, "src/bad.ts")).unwrap().unwrap();
    assert!(artifact.metadata().diagnostics.iter().all(|d| d.code == ParseDiagnosticCode::SyntaxError));
    assert!(!artifact.metadata().diagnostics.is_empty());
}
