
use hyperindex::protocol::planner::{
    PlannerContextRef, PlannerImpactQueryIntent, PlannerIntentSignal, PlannerMode,
    PlannerQueryFilters, PlannerQueryIr, PlannerQueryStyle, PlannerRouteHints,
    PlannerRouteKind, PlannerSemanticQueryIntent,
};

use hyperindex::planner::route_policy::{plan_route_policy, PlannerRoutePolicyKind};

fn ir() -> PlannerQueryIr {
    PlannerQueryIr {
        repo_id: "repo-123".to_string(),
        snapshot_id: "snap-123".to_string(),
        surface_query: "where is invalidateSession used".to_string(),
        normalized_query: "where is invalidateSession used".to_string(),
        selected_mode: PlannerMode::Semantic,
        primary_style: PlannerQueryStyle::SemanticLookup,
        candidate_styles: vec![PlannerQueryStyle::SemanticLookup],
        planned_routes: vec![PlannerRouteKind::Semantic, PlannerRouteKind::Symbol],
        intent_signals: Vec::new(),
        limit: 10,
        selected_context: None,
        target_context: None,
        exact_query: None,
        symbol_query: None,
        semantic_query: Some(PlannerSemanticQueryIntent {
            normalized_text: "where is invalidateSession used".to_string(),
            tokens: vec![
                "where".to_string(),
                "is".to_string(),
                "invalidatesession".to_string(),
                "used".to_string(),
            ],
        }),
        impact_query: None,
        filters: PlannerQueryFilters::default(),
        route_hints: PlannerRouteHints::default(),
        budgets: hyperindex::planner::daemon_integration::PlannerRuntimeContext::default().budget_policy,
    }
}

#[test]
fn explicit_override_collapses_to_one_route() {
    let mut query_ir = ir();
    query_ir.selected_mode = PlannerMode::Exact;
    query_ir.primary_style = PlannerQueryStyle::ExactLookup;
    query_ir.planned_routes = vec![
        PlannerRouteKind::Exact,
        PlannerRouteKind::Symbol,
        PlannerRouteKind::Semantic,
    ];
    query_ir
        .intent_signals
        .push(PlannerIntentSignal::ExplicitModeOverride);

    let policy = plan_route_policy(&query_ir);

    assert_eq!(policy.kind, PlannerRoutePolicyKind::SingleRoute);
    assert_eq!(policy.selected_routes, vec![PlannerRouteKind::Exact]);
}

#[test]
fn mixed_queries_keep_multi_route_candidates_live() {
    let mut query_ir = ir();
    query_ir.candidate_styles = vec![
        PlannerQueryStyle::SymbolLookup,
        PlannerQueryStyle::SemanticLookup,
    ];
    query_ir.primary_style = PlannerQueryStyle::SymbolLookup;
    query_ir.planned_routes = vec![PlannerRouteKind::Symbol, PlannerRouteKind::Semantic];

    let policy = plan_route_policy(&query_ir);

    assert_eq!(policy.kind, PlannerRoutePolicyKind::MultiRouteCandidates);
    assert_eq!(
        policy.selected_routes,
        vec![PlannerRouteKind::Symbol, PlannerRouteKind::Semantic]
    );
}

#[test]
fn impact_queries_with_symbol_seed_stage_into_impact() {
    let mut query_ir = ir();
    query_ir.selected_mode = PlannerMode::Impact;
    query_ir.primary_style = PlannerQueryStyle::ImpactAnalysis;
    query_ir.candidate_styles = vec![PlannerQueryStyle::ImpactAnalysis];
    query_ir.planned_routes = vec![
        PlannerRouteKind::Symbol,
        PlannerRouteKind::Semantic,
        PlannerRouteKind::Impact,
    ];
    query_ir.symbol_query = Some(hyperindex::protocol::planner::PlannerSymbolQueryIntent {
        normalized_symbol: "SessionStore".to_string(),
        segments: vec!["SessionStore".to_string()],
    });
    query_ir.impact_query = Some(PlannerImpactQueryIntent {
        normalized_text: "what breaks if I rename SessionStore".to_string(),
        action_terms: vec!["rename".to_string()],
        subject_terms: vec!["SessionStore".to_string()],
    });

    let policy = plan_route_policy(&query_ir);

    assert_eq!(policy.kind, PlannerRoutePolicyKind::SeedThenImpact);
    assert_eq!(
        policy.selected_routes,
        vec![
            PlannerRouteKind::Symbol,
            PlannerRouteKind::Semantic,
            PlannerRouteKind::Impact
        ]
    );
}

#[test]
fn selected_file_context_goes_directly_to_impact() {
    let mut query_ir = ir();
    query_ir.selected_mode = PlannerMode::Impact;
    query_ir.primary_style = PlannerQueryStyle::ImpactAnalysis;
    query_ir.planned_routes = vec![
        PlannerRouteKind::Symbol,
        PlannerRouteKind::Semantic,
        PlannerRouteKind::Impact,
    ];
    query_ir.selected_context = Some(PlannerContextRef::File {
        path: "packages/auth/src/session/service.ts".to_string(),
    });

    let policy = plan_route_policy(&query_ir);

    assert_eq!(policy.kind, PlannerRoutePolicyKind::SingleRoute);
    assert_eq!(policy.selected_routes, vec![PlannerRouteKind::Impact]);
    assert!(!policy.low_signal);
}

#[test]
fn low_signal_impact_queries_stay_off_impact_without_seed() {
    let mut query_ir = ir();
    query_ir.selected_mode = PlannerMode::Impact;
    query_ir.primary_style = PlannerQueryStyle::ImpactAnalysis;
    query_ir.candidate_styles = vec![
        PlannerQueryStyle::ImpactAnalysis,
        PlannerQueryStyle::SemanticLookup,
    ];
    query_ir.planned_routes = vec![
        PlannerRouteKind::Symbol,
        PlannerRouteKind::Semantic,
        PlannerRouteKind::Impact,
    ];
    query_ir.impact_query = Some(PlannerImpactQueryIntent {
        normalized_text: "where do we invalidate sessions".to_string(),
        action_terms: vec!["invalidate".to_string()],
        subject_terms: vec!["sessions".to_string()],
    });

    let policy = plan_route_policy(&query_ir);

    assert_eq!(policy.kind, PlannerRoutePolicyKind::SingleRoute);
    assert_eq!(policy.selected_routes, vec![PlannerRouteKind::Semantic]);
    assert!(policy.low_signal);
}
