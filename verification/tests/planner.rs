use hyperindex::planner::daemon_integration::PlannerRuntimeContext;
use hyperindex::planner::exact_route::UnavailableExactRouteProvider;
use hyperindex::planner::planner_engine::no_answer_for;
use hyperindex::planner::planner_model::{PlannerError, PlannerWorkspace};
use hyperindex::planner::query_ir::merge_budget_policy;
use hyperindex::planner::route_policy::PlannerRoutePolicyKind;
use hyperindex::planner::route_registry::PlannerRoutePlan;
use hyperindex::protocol::config::{PROTOCOL_VERSION, STORAGE_VERSION};
use hyperindex::protocol::planner::{
    PlannerBudgetHints, PlannerMode, PlannerModeSelectionSource, PlannerNoAnswerReason,
    PlannerQueryFilters, PlannerQueryParams, PlannerQueryText, PlannerRouteBudget,
    PlannerRouteHints, PlannerRouteKind, PlannerRouteStatus, PlannerRouteTrace,
};
use hyperindex::protocol::snapshot::{
    BaseSnapshot, BaseSnapshotKind, ComposedSnapshot, WorkingTreeOverlay,
};

fn scaffold_snapshot() -> ComposedSnapshot {
    ComposedSnapshot {
        version: STORAGE_VERSION,
        protocol_version: PROTOCOL_VERSION.to_string(),
        repo_id: "repo-123".to_string(),
        repo_root: "/tmp/repo".to_string(),
        snapshot_id: "snap-123".to_string(),
        base: BaseSnapshot {
            kind: BaseSnapshotKind::GitCommit,
            commit: "deadbeef".to_string(),
            digest: "base".to_string(),
            file_count: 0,
            files: Vec::new(),
        },
        working_tree: WorkingTreeOverlay {
            digest: "working-tree".to_string(),
            entries: Vec::new(),
        },
        buffers: Vec::new(),
    }
}

fn params(text: &str, mode_override: Option<PlannerMode>, path_globs: Vec<String>, limit: u32, include_trace: bool) -> PlannerQueryParams {
    PlannerQueryParams {
        repo_id: "repo-123".to_string(),
        snapshot_id: "snap-123".to_string(),
        query: PlannerQueryText {
            text: text.to_string(),
        },
        mode_override,
        selected_context: None,
        target_context: None,
        filters: PlannerQueryFilters {
            path_globs,
            ..PlannerQueryFilters::default()
        },
        route_hints: PlannerRouteHints::default(),
        budgets: None,
        limit,
        explain: false,
        include_trace,
    }
}

#[test]
fn planner_workspace_emits_scaffold_trace_for_hybrid_query() {
    let response = PlannerWorkspace::default()
        .plan(
            &PlannerRuntimeContext::default(),
            &params(
                "where do we invalidate sessions?",
                None,
                vec!["packages/**".to_string()],
                10,
                true,
            ),
            &scaffold_snapshot(),
        )
        .unwrap();

    assert_eq!(response.mode.source, PlannerModeSelectionSource::Heuristic);
    assert!(response.groups.is_empty());
    let trace = response.trace.unwrap();
    assert!(trace
        .routes
        .iter()
        .any(|route| route.route_kind == PlannerRouteKind::Exact
            && route.status == PlannerRouteStatus::Skipped));
}

#[test]
fn explicit_intent_hint_overrides_heuristics() {
    let response = PlannerWorkspace::default()
        .plan(
            &PlannerRuntimeContext::default(),
            &params("invalidateSession", Some(PlannerMode::Impact), Vec::new(), 5, false),
            &scaffold_snapshot(),
        )
        .unwrap();

    assert_eq!(response.mode.selected_mode, PlannerMode::Impact);
    assert!(response.trace.is_none());
}

#[test]
fn planner_refuses_a_request_for_another_snapshot() {
    let mut request = params("invalidateSession", None, Vec::new(), 5, false);
    request.snapshot_id = "snap-999".to_string();
    let error = PlannerWorkspace::default()
        .plan(&PlannerRuntimeContext::default(), &request, &scaffold_snapshot())
        .unwrap_err();
    assert!(matches!(error, PlannerError::SnapshotMismatch { .. }));
    assert_eq!(
        error.message(),
        "planner snapshot mismatch: requested repo=repo-123 snapshot=snap-999, loaded repo=repo-123 snapshot=snap-123"
    );
}

#[test]
fn planner_refuses_a_blank_query() {
    let error = PlannerWorkspace::default()
        .plan(
            &PlannerRuntimeContext::default(),
            &params("   \t ", None, Vec::new(), 5, false),
            &scaffold_snapshot(),
        )
        .unwrap_err();
    assert_eq!(
        error,
        PlannerError::InvalidQuery("planner query text must not be empty".to_string())
    );
    assert_eq!(
        error.message(),
        "planner query is invalid: planner query text must not be empty"
    );
}

#[test]
fn query_reading_clamps_the_limit_and_normalizes_text() {
    let response = PlannerWorkspace::default()
        .plan(
            &PlannerRuntimeContext::default(),
            &params("  invalidate   Session ", None, Vec::new(), 500, true),
            &scaffold_snapshot(),
        )
        .unwrap();
    assert_eq!(response.ir.limit, 50);
    assert_eq!(response.ir.normalized_query, "invalidate Session");
    assert_eq!(response.ir.surface_query, "  invalidate   Session ");
    assert_eq!(response.stats.limit_requested, 500);
    assert_eq!(response.stats.routes_considered, 4);
    let trace = response.trace.unwrap();
    assert_eq!(trace.steps.len(), 7);
    assert_eq!(trace.steps[4].message, "snapshot=snap-123");
    assert_eq!(trace.steps[5].message, "include_trace=true explain=false");

    let zero = PlannerWorkspace::default()
        .plan(
            &PlannerRuntimeContext::default(),
            &params("invalidateSession", None, Vec::new(), 0, false),
            &scaffold_snapshot(),
        )
        .unwrap();
    assert_eq!(zero.ir.limit, 1);
}

#[test]
fn budget_overrides_replace_only_what_they_give() {
    let defaults = PlannerRuntimeContext::default().budget_policy;
    let merged = merge_budget_policy(&defaults, None);
    assert_eq!(merged, defaults);

    let hints = PlannerBudgetHints {
        total_timeout_ms: Some(99),
        max_groups: None,
        route_budgets: Vec::new(),
    };
    let merged = merge_budget_policy(&defaults, Some(&hints));
    assert_eq!(merged.total_timeout_ms, 99);
    assert_eq!(merged.max_groups, defaults.max_groups);
    assert_eq!(merged.route_budgets, defaults.route_budgets);

    let hints = PlannerBudgetHints {
        total_timeout_ms: None,
        max_groups: Some(3),
        route_budgets: vec![PlannerRouteBudget {
            route_kind: PlannerRouteKind::Symbol,
            max_candidates: 1,
            max_groups: 1,
            timeout_ms: 1,
        }],
    };
    let merged = merge_budget_policy(&defaults, Some(&hints));
    assert_eq!(merged.total_timeout_ms, defaults.total_timeout_ms);
    assert_eq!(merged.max_groups, 3);
    assert_eq!(merged.route_budgets, hints.route_budgets);
}

fn empty_plan() -> PlannerRoutePlan {
    PlannerRoutePlan {
        traces: Vec::new(),
        capabilities: Vec::new(),
        candidates: Vec::new(),
        diagnostics: Vec::new(),
        ambiguity: None,
        raw_candidate_count: 0,
        route_policy: PlannerRoutePolicyKind::SingleRoute,
        low_signal: false,
        partial_results: false,
        budget_exhausted: false,
        early_stopped: false,
    }
}

fn selected_trace(status: PlannerRouteStatus, available: bool) -> PlannerRouteTrace {
    PlannerRouteTrace {
        route_kind: PlannerRouteKind::Symbol,
        available,
        selected: true,
        status,
        skip_reason: None,
        budget: None,
        candidate_count: None,
        group_count: None,
        elapsed_ms: None,
        notes: Vec::new(),
    }
}

#[test]
fn no_answer_explains_why_nothing_came_back() {
    let context = PlannerRuntimeContext::default();
    let request = params("invalidateSession", None, Vec::new(), 5, false);

    let mut plan = empty_plan();
    plan.budget_exhausted = true;
    let answer = no_answer_for(&context, &request, &plan, 0, 0).unwrap();
    assert_eq!(answer.reason, PlannerNoAnswerReason::NoRouteAvailable);
    assert_eq!(answer.details.len(), 2);

    let mut plan = empty_plan();
    plan.traces = vec![selected_trace(PlannerRouteStatus::Deferred, true)];
    let answer = no_answer_for(&context, &request, &plan, 0, 0).unwrap();
    assert_eq!(answer.reason, PlannerNoAnswerReason::ExecutionDeferred);

    let mut plan = empty_plan();
    plan.traces = vec![selected_trace(PlannerRouteStatus::Executed, true)];
    plan.raw_candidate_count = 3;
    let answer = no_answer_for(&context, &request, &plan, 0, 0).unwrap();
    assert_eq!(answer.reason, PlannerNoAnswerReason::FiltersExcludedAllCandidates);

    plan.raw_candidate_count = 0;
    plan.low_signal = true;
    let answer = no_answer_for(&context, &request, &plan, 0, 0).unwrap();
    assert_eq!(answer.reason, PlannerNoAnswerReason::NoCandidateMatched);
    assert_eq!(answer.details.len(), 2);

    let answer = no_answer_for(&context, &request, &plan, 2, 0).unwrap();
    assert_eq!(answer.reason, PlannerNoAnswerReason::ExecutionDeferred);
    assert!(no_answer_for(&context, &request, &plan, 2, 1).is_none());

    let mut disabled = PlannerRuntimeContext::default();
    disabled.planner_enabled = false;
    let answer = no_answer_for(&disabled, &request, &plan, 0, 0).unwrap();
    assert_eq!(answer.reason, PlannerNoAnswerReason::PlannerDisabled);

    let mut explain = request.clone();
    explain.explain = true;
    assert!(no_answer_for(&disabled, &explain, &plan, 1, 0).is_none());
}

#[test]
fn exact_route_provider_is_never_available() {
    let provider = UnavailableExactRouteProvider;
    assert!(!provider.available());
    assert_eq!(
        provider.unavailable_reason(),
        "exact route remains a typed compatibility boundary in Phase 7"
    );
}

use hyperindex::planner::common::normalize_query;

#[test]
fn normalized_queries_have_single_inner_spaces_and_are_stable() {
    for raw in ["  invalidate   session\tcache \n", "", "   ", "one", "a \u{3000} b"] {
        let once = normalize_query(raw);
        assert_eq!(once, raw.split_whitespace().collect::<Vec<_>>().join(" "));
        assert!(!once.starts_with(' ') && !once.ends_with(' '));
        assert!(!once.contains("  "));
        assert_eq!(normalize_query(&once), once);
    }
}

