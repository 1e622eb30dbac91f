
use hyperindex::protocol::planner::{
    PlannerAnchor, PlannerEvidenceItem, PlannerEvidenceKind, PlannerRouteKind,
};
use hyperindex::protocol::snapshot::{
    BaseSnapshot, BaseSnapshotKind, ComposedSnapshot, WorkingTreeOverlay,
};
use hyperindex::protocol::symbols::{
    ByteRange, LanguageId, LinePosition, SourceSpan, SymbolId, SymbolKind,
};
use hyperindex::protocol::config::{PROTOCOL_VERSION, STORAGE_VERSION};

use hyperindex::planner::route_adapters::NormalizedPlannerCandidate;

fn snapshot() -> ComposedSnapshot {
    ComposedSnapshot {
        version: STORAGE_VERSION,
        protocol_version: PROTOCOL_VERSION.to_string(),
        repo_id: "repo-123".to_string(),
        repo_root: "/tmp/repo".to_string(),
        snapshot_id: "snap-123".to_string(),
        base: BaseSnapshot {
            kind: BaseSnapshotKind::GitCommit,
            commit: "deadbeef".to_string(),
            digest: "base".to_string(),
            file_count: 0,
            files: Vec::new(),
        },
        working_tree: WorkingTreeOverlay {
            digest: "work".to_string(),
            entries: Vec::new(),
        },
        buffers: Vec::new(),
    }
}

fn span() -> SourceSpan {
    SourceSpan {
        start: LinePosition { line: 1, column: 0 },
        end: LinePosition {
            line: 1,
            column: 12,
        },
        bytes: ByteRange { start: 0, end: 12 },
    }
}

fn candidate() -> NormalizedPlannerCandidate {
    NormalizedPlannerCandidate {
        candidate_id: "symbol:sym.invalidateSession".to_string(),
        route_kind: PlannerRouteKind::Symbol,
        engine_type: PlannerRouteKind::Symbol,
        label: "invalidateSession".to_string(),
        anchor: PlannerAnchor::Symbol {
            symbol_id: SymbolId("sym.invalidateSession".to_string()),
            path: "packages/auth/src/session/service.ts".to_string(),
            span: Some(span()),
        },
        rank: Some(1),
        engine_score: Some(98),
        normalized_score: None,
        primary_path: Some("packages/auth/src/session/service.ts".to_string()),
        primary_symbol_id: Some(SymbolId("sym.invalidateSession".to_string())),
        primary_span: Some(span()),
        language: Some(LanguageId::Typescript),
        extension: Some("ts".to_string()),
        symbol_kind: Some(SymbolKind::Function),
        package_name: Some("@hyperindex/auth".to_string()),
        package_root: Some("packages/auth".to_string()),
        workspace_root: Some("/tmp/repo".to_string()),
        evidence: vec![PlannerEvidenceItem {
            evidence_kind: PlannerEvidenceKind::SymbolHit,
            route_kind: PlannerRouteKind::Symbol,
            label: "exact symbol lookup".to_string(),
            path: Some("packages/auth/src/session/service.ts".to_string()),
            span: Some(span()),
            symbol_id: Some(SymbolId("sym.invalidateSession".to_string())),
            impact_entity: None,
            snippet: None,
            score: Some(98),
            notes: Vec::new(),
        }],
        engine_diagnostics: vec!["symbol build loaded from existing snapshot".to_string()],
        notes: vec!["match_kind=exact".to_string()],
    }
}

#[test]
fn normalized_candidate_matches_supported_filters() {
    let candidate = candidate();
    let filters = hyperindex::protocol::planner::PlannerQueryFilters {
        path_globs: vec!["packages/**".to_string()],
        package_names: vec!["@hyperindex/auth".to_string()],
        package_roots: vec!["packages/auth".to_string()],
        workspace_roots: vec!["/tmp/repo".to_string()],
        languages: vec![LanguageId::Typescript],
        extensions: vec![".ts".to_string()],
        symbol_kinds: vec![SymbolKind::Function],
    };

    assert!(candidate.matches_filters(&filters, &snapshot()));
}

#[test]
fn normalized_candidate_rejects_missing_filter_metadata() {
    let mut candidate = candidate();
    candidate.package_name = None;
    let filters = hyperindex::protocol::planner::PlannerQueryFilters {
        package_names: vec!["@hyperindex/auth".to_string()],
        ..hyperindex::protocol::planner::PlannerQueryFilters::default()
    };

    assert!(!candidate.matches_filters(&filters, &snapshot()));
}
