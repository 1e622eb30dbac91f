use hyperindex::planner::daemon_integration::PlannerRuntimeContext;
use hyperindex::planner::route_adapters::{
    full_filter_capabilities, NormalizedPlannerCandidate, PlannerRouteAdapter,
    PlannerRouteCapabilityReport, PlannerRouteConstraints, PlannerRouteExecution,
    PlannerRouteExecutionState, PlannerRouteReadiness, PlannerRouteRequest,
};
use hyperindex::planner::route_policy::PlannerRoutePolicyKind;
use hyperindex::planner::route_registry::{
    all_routes, candidate_context, route_code, seed_context_from_candidates, PlannerRouteRegistry,
    SeedResolution,
};
use hyperindex::protocol::config::{PROTOCOL_VERSION, STORAGE_VERSION};
use hyperindex::protocol::planner::{
    PlannerAnchor, PlannerContextRef, PlannerEvidenceItem, PlannerEvidenceKind,
    PlannerFilterCapabilities, PlannerImpactQueryIntent, PlannerMode, PlannerQueryFilters,
    PlannerQueryIr, PlannerQueryStyle, PlannerRouteHints, PlannerRouteKind,
    PlannerRouteSkipReason, PlannerRouteStatus, PlannerSymbolQueryIntent,
};
use hyperindex::protocol::snapshot::{
    BaseSnapshot, BaseSnapshotKind, ComposedSnapshot, WorkingTreeOverlay,
};
use hyperindex::protocol::symbols::{
    ByteRange, LanguageId, LinePosition, SourceSpan, SymbolId, SymbolKind,
};

#[derive(Debug)]
struct FakeAdapter {
    route_kind: PlannerRouteKind,
    capability: PlannerRouteCapabilityReport,
    execution: PlannerRouteExecution,
}

impl PlannerRouteAdapter for FakeAdapter {
    fn kind(&self) -> PlannerRouteKind {
        self.route_kind.clone()
    }

    fn capability(
        &self,
        _context: &PlannerRuntimeContext,
        _snapshot: &ComposedSnapshot,
    ) -> PlannerRouteCapabilityReport {
        self.capability.clone()
    }

    fn execute(&self, _request: &PlannerRouteRequest<'_>) -> PlannerRouteExecution {
        self.execution.clone()
    }
}

fn snapshot() -> ComposedSnapshot {
    ComposedSnapshot {
        version: STORAGE_VERSION,
        protocol_version: PROTOCOL_VERSION.to_string(),
        repo_id: "repo-123".to_string(),
        repo_root: "/tmp/repo".to_string(),
        snapshot_id: "snap-123".to_string(),
        base: BaseSnapshot {
            kind: BaseSnapshotKind::GitCommit,
            commit: "deadbeef".to_string(),
            digest: "base".to_string(),
            file_count: 0,
            files: Vec::new(),
        },
        working_tree: WorkingTreeOverlay {
            digest: "work".to_string(),
            entries: Vec::new(),
        },
        buffers: Vec::new(),
    }
}

fn span() -> SourceSpan {
    SourceSpan {
        start: LinePosition { line: 1, column: 0 },
        end: LinePosition {
            line: 1,
            column: 12,
        },
        bytes: ByteRange { start: 0, end: 12 },
    }
}

fn ir() -> PlannerQueryIr {
    PlannerQueryIr {
        repo_id: "repo-123".to_string(),
        snapshot_id: "snap-123".to_string(),
        surface_query: "invalidateSession".to_string(),
        normalized_query: "invalidateSession".to_string(),
        selected_mode: PlannerMode::Auto,
        primary_style: PlannerQueryStyle::SymbolLookup,
        candidate_styles: vec![
            PlannerQueryStyle::SymbolLookup,
            PlannerQueryStyle::SemanticLookup,
        ],
        planned_routes: vec![PlannerRouteKind::Symbol, PlannerRouteKind::Semantic],
        intent_signals: Vec::new(),
        limit: 10,
        selected_context: None,
        target_context: None,
        exact_query: None,
        symbol_query: None,
        semantic_query: None,
        impact_query: None,
        filters: PlannerQueryFilters::default(),
        route_hints: PlannerRouteHints::default(),
        budgets: PlannerRuntimeContext::default().budget_policy,
    }
}

fn exact_ir() -> PlannerQueryIr {
    let mut query_ir = ir();
    query_ir.selected_mode = PlannerMode::Exact;
    query_ir.primary_style = PlannerQueryStyle::ExactLookup;
    query_ir.candidate_styles = vec![PlannerQueryStyle::ExactLookup];
    query_ir.planned_routes = vec![
        PlannerRouteKind::Exact,
        PlannerRouteKind::Symbol,
        PlannerRouteKind::Semantic,
    ];
    query_ir
}

fn impact_ir() -> PlannerQueryIr {
    let mut query_ir = ir();
    query_ir.selected_mode = PlannerMode::Impact;
    query_ir.primary_style = PlannerQueryStyle::ImpactAnalysis;
    query_ir.candidate_styles = vec![PlannerQueryStyle::ImpactAnalysis];
    query_ir.planned_routes = vec![
        PlannerRouteKind::Symbol,
        PlannerRouteKind::Semantic,
        PlannerRouteKind::Impact,
    ];
    query_ir.symbol_query = Some(PlannerSymbolQueryIntent {
        normalized_symbol: "SessionStore".to_string(),
        segments: vec!["SessionStore".to_string()],
    });
    query_ir.impact_query = Some(PlannerImpactQueryIntent {
        normalized_text: "what breaks if I rename SessionStore".to_string(),
        action_terms: vec!["rename".to_string()],
        subject_terms: vec!["SessionStore".to_string()],
    });
    query_ir
}

fn candidate(route_kind: PlannerRouteKind, path: &str) -> NormalizedPlannerCandidate {
    NormalizedPlannerCandidate {
        candidate_id: format!("{route_kind:?}:{path}"),
        route_kind: route_kind.clone(),
        engine_type: route_kind.clone(),
        label: "invalidateSession".to_string(),
        anchor: PlannerAnchor::Symbol {
            symbol_id: SymbolId("sym.invalidateSession".to_string()),
            path: path.to_string(),
            span: Some(span()),
        },
        rank: Some(1),
        engine_score: Some(99),
        normalized_score: None,
        primary_path: Some(path.to_string()),
        primary_symbol_id: Some(SymbolId("sym.invalidateSession".to_string())),
        primary_span: Some(span()),
        language: Some(LanguageId::Typescript),
        extension: Some("ts".to_string()),
        symbol_kind: Some(SymbolKind::Function),
        package_name: None,
        package_root: None,
        workspace_root: Some("/tmp/repo".to_string()),
        evidence: vec![PlannerEvidenceItem {
            evidence_kind: match route_kind {
                PlannerRouteKind::Semantic => PlannerEvidenceKind::SemanticHit,
                _ => PlannerEvidenceKind::SymbolHit,
            },
            route_kind,
            label: "matched".to_string(),
            path: Some(path.to_string()),
            span: Some(span()),
            symbol_id: Some(SymbolId("sym.invalidateSession".to_string())),
            impact_entity: None,
            snippet: None,
            score: Some(99),
            notes: Vec::new(),
        }],
        engine_diagnostics: Vec::new(),
        notes: Vec::new(),
    }
}

fn ready(route_kind: PlannerRouteKind) -> PlannerRouteCapabilityReport {
    PlannerRouteCapabilityReport {
        route_kind,
        enabled: true,
        available: true,
        readiness: PlannerRouteReadiness::Ready,
        reason: None,
        supported_filters: full_filter_capabilities(),
        constraints: PlannerRouteConstraints::default(),
        diagnostics: Vec::new(),
        notes: Vec::new(),
    }
}

fn executed(candidates: Vec<NormalizedPlannerCandidate>, elapsed_ms: u64) -> PlannerRouteExecution {
    PlannerRouteExecution {
        state: PlannerRouteExecutionState::Executed,
        candidates,
        diagnostics: Vec::new(),
        notes: Vec::new(),
        elapsed_ms,
        ambiguity: None,
    }
}

fn symbol_adapter() -> Box<dyn PlannerRouteAdapter> {
    Box::new(FakeAdapter {
        route_kind: PlannerRouteKind::Symbol,
        capability: ready(PlannerRouteKind::Symbol),
        execution: executed(
            vec![candidate(
                PlannerRouteKind::Symbol,
                "packages/auth/src/session/service.ts",
            )],
            5,
        ),
    })
}

fn semantic_adapter() -> Box<dyn PlannerRouteAdapter> {
    Box::new(FakeAdapter {
        route_kind: PlannerRouteKind::Semantic,
        capability: ready(PlannerRouteKind::Semantic),
        execution: executed(vec![candidate(PlannerRouteKind::Semantic, "src/session.ts")], 7),
    })
}

#[test]
fn registry_executes_multiple_route_adapters_without_special_casing() {
    let registry = PlannerRouteRegistry::new(vec![symbol_adapter(), semantic_adapter()]);

    let plan = registry.plan(&PlannerRuntimeContext::default(), &snapshot(), &ir());

    assert_eq!(plan.candidates.len(), 2);
    assert_eq!(plan.route_policy, PlannerRoutePolicyKind::MultiRouteCandidates);
    assert_eq!(
        plan.candidates
            .iter()
            .map(|candidate| candidate.route_kind.clone())
            .collect::<Vec<_>>(),
        vec![PlannerRouteKind::Symbol, PlannerRouteKind::Semantic]
    );
    assert_eq!(
        plan.traces
            .iter()
            .filter(|trace| trace.status == PlannerRouteStatus::Executed)
            .count(),
        2
    );
}

#[test]
fn registry_reports_unsupported_filters_and_unavailable_routes_explicitly() {
    let mut capability = ready(PlannerRouteKind::Symbol);
    capability.supported_filters = PlannerFilterCapabilities {
        path_globs: true,
        package_names: false,
        package_roots: false,
        workspace_roots: true,
        languages: true,
        extensions: true,
        symbol_kinds: true,
    };
    let registry = PlannerRouteRegistry::new(vec![Box::new(FakeAdapter {
        route_kind: PlannerRouteKind::Symbol,
        capability,
        execution: executed(
            vec![candidate(
                PlannerRouteKind::Symbol,
                "packages/auth/src/session/service.ts",
            )],
            5,
        ),
    })]);
    let mut ir = ir();
    ir.filters.package_names = vec!["@hyperindex/auth".to_string()];

    let plan = registry.plan(&PlannerRuntimeContext::default(), &snapshot(), &ir);

    assert!(plan.candidates.is_empty());
    assert!(plan
        .diagnostics
        .iter()
        .any(|diagnostic| { diagnostic.code == "symbol_route_unsupported_filters" }));
    assert!(plan.traces.iter().any(|trace| {
        trace.route_kind == PlannerRouteKind::Symbol && trace.status == PlannerRouteStatus::Skipped
    }));
}

#[test]
fn registry_stops_after_symbol_success_in_staged_fallback_plan() {
    let mut query_ir = ir();
    query_ir.candidate_styles = vec![PlannerQueryStyle::SymbolLookup];
    let registry = PlannerRouteRegistry::new(vec![symbol_adapter(), semantic_adapter()]);

    let plan = registry.plan(&PlannerRuntimeContext::default(), &snapshot(), &query_ir);

    assert_eq!(plan.route_policy, PlannerRoutePolicyKind::StagedFallback);
    assert!(plan.early_stopped);
    assert_eq!(plan.candidates.len(), 1);
    assert!(plan.traces.iter().any(|trace| {
        trace.route_kind == PlannerRouteKind::Symbol && trace.status == PlannerRouteStatus::Executed
    }));
    assert!(plan.traces.iter().any(|trace| {
        trace.route_kind == PlannerRouteKind::Semantic
            && trace.status == PlannerRouteStatus::Skipped
            && trace
                .notes
                .iter()
                .any(|note| note.contains("staged fallback policy"))
    }));
}

#[test]
fn registry_falls_back_when_primary_exact_route_is_unavailable() {
    let mut exact_capability = ready(PlannerRouteKind::Exact);
    exact_capability.available = false;
    exact_capability.readiness = PlannerRouteReadiness::Unavailable;
    exact_capability.reason = Some("exact engine does not ship".to_string());
    exact_capability.notes = vec!["exact engine does not ship".to_string()];
    let registry = PlannerRouteRegistry::new(vec![
        Box::new(FakeAdapter {
            route_kind: PlannerRouteKind::Exact,
            capability: exact_capability,
            execution: executed(Vec::new(), 0),
        }),
        symbol_adapter(),
        semantic_adapter(),
    ]);

    let plan = registry.plan(&PlannerRuntimeContext::default(), &snapshot(), &exact_ir());

    assert_eq!(plan.candidates.len(), 1);
    assert!(plan.partial_results);
    assert!(plan.traces.iter().any(|trace| {
        trace.route_kind == PlannerRouteKind::Exact
            && trace.skip_reason == Some(PlannerRouteSkipReason::ExactEngineUnavailable)
    }));
    assert!(plan.traces.iter().any(|trace| {
        trace.route_kind == PlannerRouteKind::Symbol && trace.status == PlannerRouteStatus::Executed
    }));
    assert!(plan.traces.iter().any(|trace| {
        trace.route_kind == PlannerRouteKind::Semantic && trace.status == PlannerRouteStatus::Skipped
    }));
}

#[test]
fn registry_seeds_impact_from_symbol_result_before_running_impact() {
    let registry = PlannerRouteRegistry::new(vec![
        symbol_adapter(),
        semantic_adapter(),
        Box::new(FakeAdapter {
            route_kind: PlannerRouteKind::Impact,
            capability: ready(PlannerRouteKind::Impact),
            execution: executed(
                vec![NormalizedPlannerCandidate {
                    candidate_id: "impact:sym.invalidateSession".to_string(),
                    route_kind: PlannerRouteKind::Impact,
                    engine_type: PlannerRouteKind::Impact,
                    label: "invalidateSession".to_string(),
                    anchor: PlannerAnchor::File {
                        path: "packages/auth/src/session/service.ts".to_string(),
                    },
                    rank: Some(1),
                    engine_score: Some(95),
                    normalized_score: None,
                    primary_path: Some("packages/auth/src/session/service.ts".to_string()),
                    primary_symbol_id: None,
                    primary_span: None,
                    language: Some(LanguageId::Typescript),
                    extension: Some("ts".to_string()),
                    symbol_kind: None,
                    package_name: None,
                    package_root: None,
                    workspace_root: Some("/tmp/repo".to_string()),
                    evidence: Vec::new(),
                    engine_diagnostics: Vec::new(),
                    notes: Vec::new(),
                }],
                9,
            ),
        }),
    ]);

    let plan = registry.plan(&PlannerRuntimeContext::default(), &snapshot(), &impact_ir());

    assert_eq!(plan.route_policy, PlannerRoutePolicyKind::SeedThenImpact);
    assert_eq!(
        plan.candidates
            .iter()
            .map(|candidate| candidate.route_kind.clone())
            .collect::<Vec<_>>(),
        vec![PlannerRouteKind::Symbol, PlannerRouteKind::Impact]
    );
    assert!(plan.traces.iter().any(|trace| {
        trace.route_kind == PlannerRouteKind::Semantic
            && trace.status == PlannerRouteStatus::Skipped
            && trace
                .notes
                .iter()
                .any(|note| note.contains("deterministic impact seed"))
    }));
    assert!(plan.traces.iter().any(|trace| {
        trace.route_kind == PlannerRouteKind::Impact && trace.status == PlannerRouteStatus::Executed
    }));
}

#[test]
fn registry_prunes_lower_priority_routes_when_timeout_budget_is_exhausted() {
    let mut query_ir = ir();
    query_ir.budgets.total_timeout_ms = 250;

    let registry = PlannerRouteRegistry::new(vec![symbol_adapter(), semantic_adapter()]);

    let plan = registry.plan(&PlannerRuntimeContext::default(), &snapshot(), &query_ir);

    assert!(plan.budget_exhausted);
    assert_eq!(plan.candidates.len(), 1);
    assert!(plan.traces.iter().any(|trace| {
        trace.route_kind == PlannerRouteKind::Symbol && trace.status == PlannerRouteStatus::Executed
    }));
    assert!(plan.traces.iter().any(|trace| {
        trace.route_kind == PlannerRouteKind::Semantic
            && trace.status == PlannerRouteStatus::Skipped
            && trace
                .notes
                .iter()
                .any(|note| note.contains("total timeout budget"))
    }));
}

#[test]
fn default_registry_reports_every_route_and_never_runs_the_exact_route() {
    let registry = PlannerRouteRegistry::default();
    let capabilities = registry.capabilities(&PlannerRuntimeContext::default(), &snapshot());
    assert_eq!(
        capabilities.iter().map(|c| c.route_kind).collect::<Vec<_>>(),
        all_routes()
    );
    assert!(!capabilities[0].available);
    assert_eq!(capabilities[1].diagnostics[0].code, "symbol_route_capability_only");

    let plan = registry.plan(&PlannerRuntimeContext::default(), &snapshot(), &exact_ir());
    assert_eq!(plan.traces.len(), 4);
    assert_eq!(
        plan.traces[0].skip_reason,
        Some(PlannerRouteSkipReason::ExactEngineUnavailable)
    );
    assert!(plan.candidates.is_empty());
    assert!(!plan.partial_results);
}

#[test]
fn missing_adapters_are_reported_and_unselected_routes_keep_their_initial_trace() {
    let registry = PlannerRouteRegistry::new(Vec::new());
    let plan = registry.plan(&PlannerRuntimeContext::default(), &snapshot(), &ir());
    assert!(plan
        .diagnostics
        .iter()
        .any(|d| d.code == "planner_route_adapter_missing"));
    let impact = &plan.traces[3];
    assert_eq!(impact.route_kind, PlannerRouteKind::Impact);
    assert!(!impact.selected);
    assert_eq!(impact.status, PlannerRouteStatus::Skipped);
    assert_eq!(impact.skip_reason, Some(PlannerRouteSkipReason::FilteredByMode));
    assert_eq!(
        impact.notes,
        vec!["route omitted by MultiRouteCandidates planner policy".to_string()]
    );
}

#[test]
fn route_disabled_by_hint_is_never_run() {
    let mut query_ir = ir();
    query_ir.planned_routes = vec![PlannerRouteKind::Symbol];
    query_ir.route_hints.disabled_routes = vec![PlannerRouteKind::Semantic];
    let registry = PlannerRouteRegistry::new(vec![symbol_adapter(), semantic_adapter()]);
    let plan = registry.plan(&PlannerRuntimeContext::default(), &snapshot(), &query_ir);
    let semantic = &plan.traces[2];
    assert_eq!(
        semantic.skip_reason,
        Some(PlannerRouteSkipReason::FilteredByRouteHint)
    );
    assert!(!semantic.selected);
    assert_eq!(semantic.status, PlannerRouteStatus::Skipped);
    assert_eq!(plan.candidates.len(), 1);
}

#[test]
fn seed_resolution_deduplicates_contexts() {
    let one = candidate(PlannerRouteKind::Symbol, "a.ts");
    let same = candidate(PlannerRouteKind::Semantic, "a.ts");
    let other = candidate(PlannerRouteKind::Symbol, "b.ts");
    match seed_context_from_candidates(&vec![one.clone(), same]) {
        SeedResolution::Unique(PlannerContextRef::Symbol { path, display_name, .. }) => {
            assert_eq!(path, "a.ts");
            assert_eq!(display_name, Some("invalidateSession".to_string()));
        }
        _ => panic!("expected a unique symbol seed"),
    }
    match seed_context_from_candidates(&vec![one.clone(), other]) {
        SeedResolution::Ambiguous(contexts) => assert_eq!(contexts.len(), 2),
        _ => panic!("expected an ambiguous seed"),
    }
    assert!(matches!(
        seed_context_from_candidates(&Vec::new()),
        SeedResolution::Unresolved
    ));
    let mut package = one;
    package.anchor = PlannerAnchor::Package {
        package_name: "@hyperindex/auth".to_string(),
        package_root: "packages/auth".to_string(),
    };
    assert_eq!(candidate_context(&package), None);
    assert_eq!(route_code(PlannerRouteKind::Impact), "impact_route");
}

#[test]
fn capabilities_keep_an_adapter_report_about_another_route_but_plans_do_not_use_it() {
    let confused = Box::new(FakeAdapter {
        route_kind: PlannerRouteKind::Symbol,
        capability: ready(PlannerRouteKind::Semantic),
        execution: executed(vec![candidate(PlannerRouteKind::Symbol, "src/a.ts")], 1),
    });
    let registry = PlannerRouteRegistry::new(vec![confused, semantic_adapter()]);
    let capabilities = registry.capabilities(&PlannerRuntimeContext::default(), &snapshot());
    assert_eq!(capabilities[1].route_kind, PlannerRouteKind::Semantic);
    assert!(capabilities[1].available);

    let plan = registry.plan(&PlannerRuntimeContext::default(), &snapshot(), &ir());
    assert_eq!(plan.capabilities[1].route_kind, PlannerRouteKind::Symbol);
    assert!(!plan.capabilities[1].available);
    assert_eq!(
        plan.capabilities[1].reason.as_deref(),
        Some("route adapter is not registered")
    );
    assert!(plan
        .candidates
        .iter()
        .all(|c| c.route_kind != PlannerRouteKind::Symbol));
}

#[test]
fn plan_route_counts_are_ordered() {
    let registry = PlannerRouteRegistry::new(vec![symbol_adapter(), semantic_adapter()]);
    let plan = registry.plan(&PlannerRuntimeContext::default(), &snapshot(), &ir());
    assert_eq!(plan.routes_considered(), 4);
    assert_eq!(plan.routes_available(), 2);
    assert_eq!(plan.selected_routes_available(), 2);
    assert!(plan.selected_routes_available() <= plan.routes_available());
    assert!(plan.routes_available() <= plan.routes_considered());
}
