use hyperindex::planner::cli_integration::{
    render_capabilities_text, render_explain_text, render_query_text, render_status_text,
};
use hyperindex::planner::daemon_integration::PlannerRuntimeContext;
use hyperindex::planner::planner_model::PlannerWorkspace;
use hyperindex::protocol::config::{PROTOCOL_VERSION, STORAGE_VERSION};
use hyperindex::protocol::planner::{
    PlannerCapabilitiesResponse, PlannerEvidenceItem, PlannerEvidenceKind,
    PlannerExplanationPayload, PlannerMode, PlannerQueryFilters, PlannerQueryParams,
    PlannerQueryState, PlannerQueryText, PlannerResultGroup, PlannerRouteHints, PlannerRouteKind,
    PlannerStatusResponse, PlannerTrustPayload, PlannerTrustTier,
};
use hyperindex::protocol::snapshot::{
    BaseSnapshot, BaseSnapshotKind, ComposedSnapshot, WorkingTreeOverlay,
};

fn snapshot() -> ComposedSnapshot {
    ComposedSnapshot {
        version: STORAGE_VERSION,
        protocol_version: PROTOCOL_VERSION.to_string(),
        repo_id: "repo-123".to_string(),
        repo_root: "/tmp/repo".to_string(),
        snapshot_id: "snap-123".to_string(),
        base: BaseSnapshot {
            kind: BaseSnapshotKind::GitCommit,
            commit: "deadbeef".to_string(),
            digest: "base".to_string(),
            file_count: 0,
            files: Vec::new(),
        },
        working_tree: WorkingTreeOverlay {
            digest: "work".to_string(),
            entries: Vec::new(),
        },
        buffers: Vec::new(),
    }
}

fn params(mode_override: Option<PlannerMode>, include_trace: bool) -> PlannerQueryParams {
    PlannerQueryParams {
        repo_id: "repo-123".to_string(),
        snapshot_id: "snap-123".to_string(),
        query: PlannerQueryText {
            text: "invalidateSession".to_string(),
        },
        mode_override,
        selected_context: None,
        target_context: None,
        filters: PlannerQueryFilters::default(),
        route_hints: PlannerRouteHints::default(),
        budgets: None,
        limit: 5,
        explain: false,
        include_trace,
    }
}

fn group() -> PlannerResultGroup {
    PlannerResultGroup {
        group_id: "g\"1".to_string(),
        label: "auth".to_string(),
        anchor: None,
        routes: vec![PlannerRouteKind::Symbol, PlannerRouteKind::Semantic],
        trust: PlannerTrustPayload {
            tier: PlannerTrustTier::High,
            deterministic: true,
            evidence_count: 1,
            route_agreement_count: 2,
            template_id: "t".to_string(),
            reasons: vec!["strong".to_string()],
            warnings: Vec::new(),
        },
        explanation: PlannerExplanationPayload {
            template_id: "e".to_string(),
            summary: "sum".to_string(),
            details: Vec::new(),
        },
        evidence: vec![PlannerEvidenceItem {
            evidence_kind: PlannerEvidenceKind::SymbolHit,
            route_kind: PlannerRouteKind::Symbol,
            label: "x".to_string(),
            path: Some("a.ts".to_string()),
            span: None,
            symbol_id: None,
            impact_entity: None,
            snippet: None,
            score: None,
            notes: Vec::new(),
        }],
        score: Some(7),
    }
}

#[test]
fn query_text_lists_summary_groups_and_trace() {
    let mut response = PlannerWorkspace::default()
        .plan(&PlannerRuntimeContext::default(), &params(Some(PlannerMode::Impact), true), &snapshot())
        .unwrap();
    response.groups = vec![group()];
    let text = render_query_text(&response);
    let lines: Vec<&str> = text.split('\n').collect();
    assert_eq!(lines[0], "planner query snap-123");
    assert_eq!(lines[1], "mode: Impact (ExplicitOverride)");
    assert_eq!(lines[2], "routes: 3/4 available");
    assert_eq!(lines[3], "groups_returned: 0");
    assert_eq!(lines[4], "  [\"g\\\"1\"] auth (score=7, trust=High, routes=[Symbol, Semantic])");
    assert_eq!(lines[5], "    sum");
    assert_eq!(lines[6], "    evidence: SymbolHit a.ts (score=0)");
    assert_eq!(lines[7], "diagnostics:");
    assert!(lines.contains(&"trace:"));
    assert!(lines.contains(&"  step: mode_selected - selected_mode=Impact"));
    assert!(lines
        .iter()
        .any(|line| line.starts_with("  route Exact: Skipped (available=false, selected=false")));
    assert!(lines.contains(&"no_answer: ExecutionDeferred"));
    assert!(!text.ends_with('\n'));
}

#[test]
fn explain_text_shows_query_reading_and_stats() {
    let mut request = params(None, false);
    request.explain = true;
    let workspace = PlannerWorkspace::default();
    let response = workspace
        .plan(&PlannerRuntimeContext::default(), &request, &snapshot())
        .unwrap();
    let explain = hyperindex::protocol::planner::PlannerExplainResponse {
        repo_id: response.repo_id.clone(),
        snapshot_id: response.snapshot_id.clone(),
        mode: response.mode.clone(),
        ir: response.ir.clone(),
        candidates: Vec::new(),
        groups: vec![group()],
        diagnostics: Vec::new(),
        trace: response.trace.clone(),
        no_answer: None,
        ambiguity: None,
        stats: response.stats.clone(),
    };
    let text = render_explain_text(&explain);
    let lines: Vec<&str> = text.split('\n').collect();
    assert_eq!(lines[0], "planner explain snap-123");
    assert_eq!(lines[2], "query_ir:");
    assert_eq!(lines[3], "  surface_query: \"invalidateSession\"");
    assert!(lines[6].starts_with("  candidate_styles: ["));
    assert_eq!(lines[9], "groups: (1)");
    assert_eq!(lines[12], "    trust: strong");
    assert!(lines.contains(&"trace:"));
    assert!(lines.iter().any(|line| line.starts_with("  planner_version: ")));
    assert!(lines.iter().any(|line| line.starts_with("    note: ")));
    assert_eq!(
        *lines.last().unwrap(),
        "stats: candidates_considered=0, groups_returned=0, elapsed=0ms"
    );
}

#[test]
fn status_and_capabilities_text_list_routes() {
    let context = PlannerRuntimeContext::default();
    let status = PlannerStatusResponse {
        repo_id: "repo-123".to_string(),
        snapshot_id: "snap-123".to_string(),
        state: PlannerQueryState::Ready,
        capabilities: context.capabilities(),
        diagnostics: Vec::new(),
    };
    let text = render_status_text(&status);
    let lines: Vec<&str> = text.split('\n').collect();
    assert_eq!(lines[0], "planner status snap-123");
    assert_eq!(lines[1], "state: Ready");
    assert_eq!(lines[2], "  Exact: enabled (not ready)");
    assert_eq!(lines[3], "    exact route boundary exists but no exact engine ships yet");
    assert_eq!(lines[4], "  Symbol: ready");

    let capabilities = PlannerCapabilitiesResponse {
        repo_id: "repo-123".to_string(),
        snapshot_id: "snap-123".to_string(),
        default_mode: PlannerMode::Auto,
        default_limit: 10,
        max_limit: 50,
        budgets: context.budget_policy.clone(),
        capabilities: context.capabilities(),
        diagnostics: Vec::new(),
    };
    let text = render_capabilities_text(&capabilities);
    let lines: Vec<&str> = text.split('\n').collect();
    assert_eq!(lines[0], "planner capabilities snap-123");
    assert_eq!(lines[1], "default_mode: Auto");
    assert_eq!(lines[2], "limits: default=10, max=50");
    assert_eq!(lines[4], "capabilities:");
    assert!(lines.contains(&"route_budgets:"));
    assert!(lines.contains(&"  Exact: max_candidates=25, max_groups=10, timeout=150ms"));
}
