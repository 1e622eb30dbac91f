
use hyperindex::protocol::planner::{
    PlannerAnchor, PlannerEvidenceItem, PlannerEvidenceKind, PlannerExplanationPayload,
    PlannerResultGroup, PlannerRouteKind, PlannerTrustPayload, PlannerTrustTier,
};
use hyperindex::protocol::symbols::SymbolId;

use hyperindex::planner::route_policy::PlannerRoutePolicyKind;
use hyperindex::planner::route_registry::PlannerRoutePlan;

use hyperindex::planner::trust_payloads::{
    all_groups_low_confidence, trust_tier_summary, TrustDecoratorContext, TrustPayloadFactory,
};
use hyperindex::protocol::planner::{PlannerAmbiguityReason, PlannerQueryIr};

// -- helpers --

fn stub_route_plan(low_signal: bool, partial_results: bool, budget_exhausted: bool) -> PlannerRoutePlan {
    PlannerRoutePlan {
        traces: Vec::new(),
        capabilities: Vec::new(),
        candidates: Vec::new(),
        diagnostics: Vec::new(),
        ambiguity: None,
        raw_candidate_count: 0,
        route_policy: PlannerRoutePolicyKind::MultiRouteCandidates,
        low_signal,
        partial_results,
        budget_exhausted,
        early_stopped: false,
    }
}

fn stub_ir() -> PlannerQueryIr {
    PlannerQueryIr {
        repo_id: "repo".to_string(),
        snapshot_id: "snap".to_string(),
        surface_query: "test".to_string(),
        normalized_query: "test".to_string(),
        selected_mode: hyperindex::protocol::planner::PlannerMode::Auto,
        primary_style: hyperindex::protocol::planner::PlannerQueryStyle::SymbolLookup,
        candidate_styles: vec![hyperindex::protocol::planner::PlannerQueryStyle::SymbolLookup],
        planned_routes: vec![PlannerRouteKind::Symbol],
        intent_signals: Vec::new(),
        limit: 10,
        selected_context: None,
        target_context: None,
        exact_query: None,
        symbol_query: None,
        semantic_query: None,
        impact_query: None,
        filters: hyperindex::protocol::planner::PlannerQueryFilters::default(),
        route_hints: hyperindex::protocol::planner::PlannerRouteHints::default(),
        budgets: hyperindex::planner::daemon_integration::PlannerRuntimeContext::default().budget_policy,
    }
}

fn evidence(kind: PlannerEvidenceKind, route: PlannerRouteKind) -> PlannerEvidenceItem {
    PlannerEvidenceItem {
        evidence_kind: kind,
        route_kind: route,
        label: "test evidence".to_string(),
        path: Some("src/main.rs".to_string()),
        span: None,
        symbol_id: None,
        impact_entity: None,
        snippet: None,
        score: Some(90),
        notes: Vec::new(),
    }
}

fn group_with(
    id: &str,
    score: u32,
    routes: Vec<PlannerRouteKind>,
    evidence_items: Vec<PlannerEvidenceItem>,
    anchor: Option<PlannerAnchor>,
) -> PlannerResultGroup {
    PlannerResultGroup {
        group_id: id.to_string(),
        label: id.to_string(),
        anchor,
        routes,
        trust: PlannerTrustPayload {
            tier: PlannerTrustTier::NeedsReview,
            deterministic: false,
            evidence_count: evidence_items.len() as u32,
            route_agreement_count: 0,
            template_id: "planner.trust.structural_default".to_string(),
            reasons: vec!["pending decoration".to_string()],
            warnings: Vec::new(),
        },
        explanation: PlannerExplanationPayload {
            template_id: "planner.group.fused".to_string(),
            summary: "test group".to_string(),
            details: Vec::new(),
        },
        evidence: evidence_items,
        score: Some(score),
    }
}

// -- trust tier tests --

#[test]
fn high_trust_exact_and_symbol_corroboration() {
    let plan = stub_route_plan(false, false, false);
    let ir = stub_ir();
    let ctx = TrustDecoratorContext {
        route_plan: &plan,
        ir: &ir,
    };
    let groups = vec![group_with(
        "g1",
        100,
        vec![PlannerRouteKind::Exact, PlannerRouteKind::Symbol],
        vec![
            evidence(PlannerEvidenceKind::ExactMatch, PlannerRouteKind::Exact),
            evidence(PlannerEvidenceKind::SymbolHit, PlannerRouteKind::Symbol),
        ],
        None,
    )];

    let output = TrustPayloadFactory.decorate(groups, &ctx);
    let g = &output.groups[0];
    assert_eq!(g.trust.tier, PlannerTrustTier::High);
    assert!(g.trust.deterministic);
    assert_eq!(g.trust.template_id, "planner.trust.corroborated");
    assert!(g.trust.reasons[0].contains("exact and symbol"));
}

#[test]
fn high_trust_three_route_agreement() {
    let plan = stub_route_plan(false, false, false);
    let ir = stub_ir();
    let ctx = TrustDecoratorContext {
        route_plan: &plan,
        ir: &ir,
    };
    let groups = vec![group_with(
        "g1",
        104,
        vec![
            PlannerRouteKind::Symbol,
            PlannerRouteKind::Semantic,
            PlannerRouteKind::Impact,
        ],
        vec![
            evidence(PlannerEvidenceKind::SymbolHit, PlannerRouteKind::Symbol),
            evidence(PlannerEvidenceKind::SemanticHit, PlannerRouteKind::Semantic),
            evidence(PlannerEvidenceKind::ImpactHit, PlannerRouteKind::Impact),
        ],
        None,
    )];

    let output = TrustPayloadFactory.decorate(groups, &ctx);
    let g = &output.groups[0];
    assert_eq!(g.trust.tier, PlannerTrustTier::High);
    // Not deterministic because no exact/context_seed in evidence
    assert!(!g.trust.deterministic);
    assert_eq!(g.trust.template_id, "planner.trust.corroborated");
    assert!(g.trust.reasons[0].contains("3 independent routes"));
}

#[test]
fn high_trust_exact_match_alone() {
    let plan = stub_route_plan(false, false, false);
    let ir = stub_ir();
    let ctx = TrustDecoratorContext {
        route_plan: &plan,
        ir: &ir,
    };
    let groups = vec![group_with(
        "g1",
        100,
        vec![PlannerRouteKind::Exact],
        vec![evidence(
            PlannerEvidenceKind::ExactMatch,
            PlannerRouteKind::Exact,
        )],
        None,
    )];

    let output = TrustPayloadFactory.decorate(groups, &ctx);
    let g = &output.groups[0];
    assert_eq!(g.trust.tier, PlannerTrustTier::High);
    assert!(g.trust.deterministic);
    assert_eq!(g.trust.template_id, "planner.trust.direct");
}

#[test]
fn high_trust_context_seed() {
    let plan = stub_route_plan(false, false, false);
    let ir = stub_ir();
    let ctx = TrustDecoratorContext {
        route_plan: &plan,
        ir: &ir,
    };
    let groups = vec![group_with(
        "g1",
        95,
        vec![PlannerRouteKind::Symbol],
        vec![evidence(
            PlannerEvidenceKind::ContextSeed,
            PlannerRouteKind::Symbol,
        )],
        None,
    )];

    let output = TrustPayloadFactory.decorate(groups, &ctx);
    let g = &output.groups[0];
    assert_eq!(g.trust.tier, PlannerTrustTier::High);
    assert!(g.trust.deterministic);
    assert_eq!(g.trust.template_id, "planner.trust.direct");
}

#[test]
fn medium_trust_two_route_agreement() {
    let plan = stub_route_plan(false, false, false);
    let ir = stub_ir();
    let ctx = TrustDecoratorContext {
        route_plan: &plan,
        ir: &ir,
    };
    let groups = vec![group_with(
        "g1",
        95,
        vec![PlannerRouteKind::Symbol, PlannerRouteKind::Semantic],
        vec![
            evidence(PlannerEvidenceKind::SymbolHit, PlannerRouteKind::Symbol),
            evidence(PlannerEvidenceKind::SemanticHit, PlannerRouteKind::Semantic),
        ],
        None,
    )];

    let output = TrustPayloadFactory.decorate(groups, &ctx);
    let g = &output.groups[0];
    assert_eq!(g.trust.tier, PlannerTrustTier::Medium);
    assert!(!g.trust.deterministic);
    assert_eq!(g.trust.template_id, "planner.trust.corroborated");
}

#[test]
fn medium_trust_single_symbol_good_signal() {
    let plan = stub_route_plan(false, false, false);
    let ir = stub_ir();
    let ctx = TrustDecoratorContext {
        route_plan: &plan,
        ir: &ir,
    };
    let groups = vec![group_with(
        "g1",
        90,
        vec![PlannerRouteKind::Symbol],
        vec![evidence(
            PlannerEvidenceKind::SymbolHit,
            PlannerRouteKind::Symbol,
        )],
        None,
    )];

    let output = TrustPayloadFactory.decorate(groups, &ctx);
    let g = &output.groups[0];
    assert_eq!(g.trust.tier, PlannerTrustTier::Medium);
    assert!(!g.trust.deterministic);
    assert_eq!(g.trust.template_id, "planner.trust.direct");
}

#[test]
fn low_trust_symbol_with_low_signal() {
    let plan = stub_route_plan(true, false, false);
    let ir = stub_ir();
    let ctx = TrustDecoratorContext {
        route_plan: &plan,
        ir: &ir,
    };
    let groups = vec![group_with(
        "g1",
        90,
        vec![PlannerRouteKind::Symbol],
        vec![evidence(
            PlannerEvidenceKind::SymbolHit,
            PlannerRouteKind::Symbol,
        )],
        None,
    )];

    let output = TrustPayloadFactory.decorate(groups, &ctx);
    let g = &output.groups[0];
    assert_eq!(g.trust.tier, PlannerTrustTier::Low);
    assert_eq!(g.trust.template_id, "planner.trust.low_signal");
}

#[test]
fn low_trust_semantic_only() {
    let plan = stub_route_plan(false, false, false);
    let ir = stub_ir();
    let ctx = TrustDecoratorContext {
        route_plan: &plan,
        ir: &ir,
    };
    let groups = vec![group_with(
        "g1",
        70,
        vec![PlannerRouteKind::Semantic],
        vec![evidence(
            PlannerEvidenceKind::SemanticHit,
            PlannerRouteKind::Semantic,
        )],
        None,
    )];

    let output = TrustPayloadFactory.decorate(groups, &ctx);
    let g = &output.groups[0];
    assert_eq!(g.trust.tier, PlannerTrustTier::Low);
    assert!(!g.trust.deterministic);
    assert_eq!(g.trust.template_id, "planner.trust.fallback_derived");
    assert!(g.trust.reasons[0].contains("semantic similarity"));
}

#[test]
fn low_trust_impact_only() {
    let plan = stub_route_plan(false, false, false);
    let ir = stub_ir();
    let ctx = TrustDecoratorContext {
        route_plan: &plan,
        ir: &ir,
    };
    let groups = vec![group_with(
        "g1",
        60,
        vec![PlannerRouteKind::Impact],
        vec![evidence(
            PlannerEvidenceKind::ImpactHit,
            PlannerRouteKind::Impact,
        )],
        None,
    )];

    let output = TrustPayloadFactory.decorate(groups, &ctx);
    let g = &output.groups[0];
    assert_eq!(g.trust.tier, PlannerTrustTier::Low);
    assert_eq!(g.trust.template_id, "planner.trust.fallback_derived");
}

#[test]
fn needs_review_no_evidence() {
    let plan = stub_route_plan(false, false, false);
    let ir = stub_ir();
    let ctx = TrustDecoratorContext {
        route_plan: &plan,
        ir: &ir,
    };
    let groups = vec![group_with(
        "g1",
        50,
        vec![PlannerRouteKind::Symbol],
        vec![evidence(
            PlannerEvidenceKind::FilterMatch,
            PlannerRouteKind::Symbol,
        )],
        None,
    )];

    let output = TrustPayloadFactory.decorate(groups, &ctx);
    let g = &output.groups[0];
    assert_eq!(g.trust.tier, PlannerTrustTier::NeedsReview);
    assert_eq!(g.trust.template_id, "planner.trust.low_signal");
}

// -- warning tests --

#[test]
fn warning_close_score_gap() {
    let plan = stub_route_plan(false, false, false);
    let ir = stub_ir();
    let ctx = TrustDecoratorContext {
        route_plan: &plan,
        ir: &ir,
    };
    let groups = vec![
        group_with(
            "g1",
            100,
            vec![PlannerRouteKind::Symbol],
            vec![evidence(
                PlannerEvidenceKind::SymbolHit,
                PlannerRouteKind::Symbol,
            )],
            Some(PlannerAnchor::Symbol {
                symbol_id: SymbolId("sym.A".to_string()),
                path: "a.rs".to_string(),
                span: None,
            }),
        ),
        group_with(
            "g2",
            98,
            vec![PlannerRouteKind::Symbol],
            vec![evidence(
                PlannerEvidenceKind::SymbolHit,
                PlannerRouteKind::Symbol,
            )],
            Some(PlannerAnchor::Symbol {
                symbol_id: SymbolId("sym.B".to_string()),
                path: "b.rs".to_string(),
                span: None,
            }),
        ),
    ];

    let output = TrustPayloadFactory.decorate(groups, &ctx);
    assert!(output.groups[0]
        .trust
        .warnings
        .iter()
        .any(|w| w.contains("score gap")));
}

#[test]
fn warning_low_signal_query() {
    let plan = stub_route_plan(true, false, false);
    let ir = stub_ir();
    let ctx = TrustDecoratorContext {
        route_plan: &plan,
        ir: &ir,
    };
    let groups = vec![group_with(
        "g1",
        90,
        vec![PlannerRouteKind::Symbol],
        vec![evidence(
            PlannerEvidenceKind::SymbolHit,
            PlannerRouteKind::Symbol,
        )],
        None,
    )];

    let output = TrustPayloadFactory.decorate(groups, &ctx);
    assert!(output.groups[0]
        .trust
        .warnings
        .iter()
        .any(|w| w.contains("low-signal")));
}

#[test]
fn warning_partial_results() {
    let plan = stub_route_plan(false, true, false);
    let ir = stub_ir();
    let ctx = TrustDecoratorContext {
        route_plan: &plan,
        ir: &ir,
    };
    let groups = vec![group_with(
        "g1",
        90,
        vec![PlannerRouteKind::Symbol],
        vec![evidence(
            PlannerEvidenceKind::SymbolHit,
            PlannerRouteKind::Symbol,
        )],
        None,
    )];

    let output = TrustPayloadFactory.decorate(groups, &ctx);
    assert!(output.groups[0]
        .trust
        .warnings
        .iter()
        .any(|w| w.contains("not consulted")));
}

#[test]
fn warning_budget_exhausted() {
    let plan = stub_route_plan(false, false, true);
    let ir = stub_ir();
    let ctx = TrustDecoratorContext {
        route_plan: &plan,
        ir: &ir,
    };
    let groups = vec![group_with(
        "g1",
        90,
        vec![PlannerRouteKind::Symbol],
        vec![evidence(
            PlannerEvidenceKind::SymbolHit,
            PlannerRouteKind::Symbol,
        )],
        None,
    )];

    let output = TrustPayloadFactory.decorate(groups, &ctx);
    assert!(output.groups[0]
        .trust
        .warnings
        .iter()
        .any(|w| w.contains("budget")));
}

// -- explanation detail tests --

#[test]
fn explanation_details_are_evidence_backed() {
    let plan = stub_route_plan(false, false, false);
    let ir = stub_ir();
    let ctx = TrustDecoratorContext {
        route_plan: &plan,
        ir: &ir,
    };
    let groups = vec![group_with(
        "g1",
        95,
        vec![PlannerRouteKind::Symbol, PlannerRouteKind::Semantic],
        vec![
            evidence(PlannerEvidenceKind::SymbolHit, PlannerRouteKind::Symbol),
            evidence(PlannerEvidenceKind::SemanticHit, PlannerRouteKind::Semantic),
        ],
        None,
    )];

    let output = TrustPayloadFactory.decorate(groups, &ctx);
    let details = &output.groups[0].explanation.details;
    assert!(details.iter().any(|d| d.contains("Symbol") && d.contains("Semantic")));
    assert!(details.iter().any(|d| d.contains("SymbolHit")));
    assert!(details.iter().any(|d| d.contains("fused score: 95")));
    assert!(details.iter().any(|d| d.contains("route policy")));
}

#[test]
fn explanation_template_id_reflects_tier_and_route_count() {
    let plan = stub_route_plan(false, false, false);
    let ir = stub_ir();
    let ctx = TrustDecoratorContext {
        route_plan: &plan,
        ir: &ir,
    };

    // High + multi-route
    let groups = vec![group_with(
        "g1",
        104,
        vec![
            PlannerRouteKind::Exact,
            PlannerRouteKind::Symbol,
            PlannerRouteKind::Semantic,
        ],
        vec![
            evidence(PlannerEvidenceKind::ExactMatch, PlannerRouteKind::Exact),
            evidence(PlannerEvidenceKind::SymbolHit, PlannerRouteKind::Symbol),
            evidence(PlannerEvidenceKind::SemanticHit, PlannerRouteKind::Semantic),
        ],
        None,
    )];
    let output = TrustPayloadFactory.decorate(groups, &ctx);
    assert_eq!(
        output.groups[0].explanation.template_id,
        "planner.explain.multi_route_agreement"
    );

    // Medium + single route
    let groups = vec![group_with(
        "g2",
        90,
        vec![PlannerRouteKind::Symbol],
        vec![evidence(
            PlannerEvidenceKind::SymbolHit,
            PlannerRouteKind::Symbol,
        )],
        None,
    )];
    let output = TrustPayloadFactory.decorate(groups, &ctx);
    assert_eq!(
        output.groups[0].explanation.template_id,
        "planner.explain.single_route_structural"
    );

    // Low
    let groups = vec![group_with(
        "g3",
        70,
        vec![PlannerRouteKind::Semantic],
        vec![evidence(
            PlannerEvidenceKind::SemanticHit,
            PlannerRouteKind::Semantic,
        )],
        None,
    )];
    let output = TrustPayloadFactory.decorate(groups, &ctx);
    assert_eq!(
        output.groups[0].explanation.template_id,
        "planner.explain.fallback_derived"
    );
}

// -- score-gap ambiguity tests --

#[test]
fn ambiguity_detected_when_top_groups_have_close_scores() {
    let plan = stub_route_plan(false, false, false);
    let ir = stub_ir();
    let ctx = TrustDecoratorContext {
        route_plan: &plan,
        ir: &ir,
    };
    let groups = vec![
        group_with(
            "g1",
            100,
            vec![PlannerRouteKind::Symbol],
            vec![evidence(
                PlannerEvidenceKind::SymbolHit,
                PlannerRouteKind::Symbol,
            )],
            Some(PlannerAnchor::Symbol {
                symbol_id: SymbolId("sym.A".to_string()),
                path: "a.rs".to_string(),
                span: None,
            }),
        ),
        group_with(
            "g2",
            99,
            vec![PlannerRouteKind::Symbol],
            vec![evidence(
                PlannerEvidenceKind::SymbolHit,
                PlannerRouteKind::Symbol,
            )],
            Some(PlannerAnchor::Symbol {
                symbol_id: SymbolId("sym.B".to_string()),
                path: "b.rs".to_string(),
                span: None,
            }),
        ),
    ];

    let output = TrustPayloadFactory.decorate(groups, &ctx);
    assert!(output.ambiguity.is_some());
    let amb = output.ambiguity.unwrap();
    assert_eq!(amb.reason, PlannerAmbiguityReason::MultipleAnchorsRemain);
    assert!(!amb.candidate_contexts.is_empty());
}

#[test]
fn no_ambiguity_when_score_gap_is_large() {
    let plan = stub_route_plan(false, false, false);
    let ir = stub_ir();
    let ctx = TrustDecoratorContext {
        route_plan: &plan,
        ir: &ir,
    };
    let groups = vec![
        group_with(
            "g1",
            100,
            vec![PlannerRouteKind::Symbol],
            vec![evidence(
                PlannerEvidenceKind::SymbolHit,
                PlannerRouteKind::Symbol,
            )],
            Some(PlannerAnchor::Symbol {
                symbol_id: SymbolId("sym.A".to_string()),
                path: "a.rs".to_string(),
                span: None,
            }),
        ),
        group_with(
            "g2",
            80,
            vec![PlannerRouteKind::Semantic],
            vec![evidence(
                PlannerEvidenceKind::SemanticHit,
                PlannerRouteKind::Semantic,
            )],
            Some(PlannerAnchor::File {
                path: "b.rs".to_string(),
            }),
        ),
    ];

    let output = TrustPayloadFactory.decorate(groups, &ctx);
    assert!(output.ambiguity.is_none());
}

#[test]
fn no_ambiguity_when_single_group() {
    let plan = stub_route_plan(false, false, false);
    let ir = stub_ir();
    let ctx = TrustDecoratorContext {
        route_plan: &plan,
        ir: &ir,
    };
    let groups = vec![group_with(
        "g1",
        100,
        vec![PlannerRouteKind::Symbol],
        vec![evidence(
            PlannerEvidenceKind::SymbolHit,
            PlannerRouteKind::Symbol,
        )],
        None,
    )];

    let output = TrustPayloadFactory.decorate(groups, &ctx);
    assert!(output.ambiguity.is_none());
}

// -- determinism test --

#[test]
fn decoration_is_deterministic() {
    let plan = stub_route_plan(false, false, false);
    let ir = stub_ir();
    let ctx = TrustDecoratorContext {
        route_plan: &plan,
        ir: &ir,
    };
    let make_groups = || {
        vec![
            group_with(
                "g1",
                100,
                vec![PlannerRouteKind::Symbol, PlannerRouteKind::Semantic],
                vec![
                    evidence(PlannerEvidenceKind::SymbolHit, PlannerRouteKind::Symbol),
                    evidence(
                        PlannerEvidenceKind::SemanticHit,
                        PlannerRouteKind::Semantic,
                    ),
                ],
                Some(PlannerAnchor::Symbol {
                    symbol_id: SymbolId("sym.A".to_string()),
                    path: "a.rs".to_string(),
                    span: None,
                }),
            ),
            group_with(
                "g2",
                80,
                vec![PlannerRouteKind::Semantic],
                vec![evidence(
                    PlannerEvidenceKind::SemanticHit,
                    PlannerRouteKind::Semantic,
                )],
                Some(PlannerAnchor::File {
                    path: "b.rs".to_string(),
                }),
            ),
        ]
    };

    let first = TrustPayloadFactory.decorate(make_groups(), &ctx);
    for _ in 0..10 {
        let result = TrustPayloadFactory.decorate(make_groups(), &ctx);
        assert_eq!(first.groups.len(), result.groups.len());
        for (a, b) in first.groups.iter().zip(result.groups.iter()) {
            assert_eq!(a.trust.tier, b.trust.tier);
            assert_eq!(a.trust.deterministic, b.trust.deterministic);
            assert_eq!(a.trust.template_id, b.trust.template_id);
            assert_eq!(a.trust.reasons, b.trust.reasons);
            assert_eq!(a.trust.warnings, b.trust.warnings);
            assert_eq!(a.explanation.template_id, b.explanation.template_id);
            assert_eq!(a.explanation.details, b.explanation.details);
        }
    }
}

// -- all_groups_low_confidence helper --

#[test]
fn all_groups_low_confidence_detects_weak_results() {
    let plan = stub_route_plan(false, false, false);
    let ir = stub_ir();
    let ctx = TrustDecoratorContext {
        route_plan: &plan,
        ir: &ir,
    };
    let groups = vec![
        group_with(
            "g1",
            70,
            vec![PlannerRouteKind::Semantic],
            vec![evidence(
                PlannerEvidenceKind::SemanticHit,
                PlannerRouteKind::Semantic,
            )],
            None,
        ),
        group_with(
            "g2",
            60,
            vec![PlannerRouteKind::Impact],
            vec![evidence(
                PlannerEvidenceKind::ImpactHit,
                PlannerRouteKind::Impact,
            )],
            None,
        ),
    ];

    let output = TrustPayloadFactory.decorate(groups, &ctx);
    assert!(all_groups_low_confidence(&output.groups));
}

#[test]
fn all_groups_low_confidence_false_when_high_present() {
    let plan = stub_route_plan(false, false, false);
    let ir = stub_ir();
    let ctx = TrustDecoratorContext {
        route_plan: &plan,
        ir: &ir,
    };
    let groups = vec![
        group_with(
            "g1",
            100,
            vec![PlannerRouteKind::Exact],
            vec![evidence(
                PlannerEvidenceKind::ExactMatch,
                PlannerRouteKind::Exact,
            )],
            None,
        ),
        group_with(
            "g2",
            60,
            vec![PlannerRouteKind::Semantic],
            vec![evidence(
                PlannerEvidenceKind::SemanticHit,
                PlannerRouteKind::Semantic,
            )],
            None,
        ),
    ];

    let output = TrustPayloadFactory.decorate(groups, &ctx);
    assert!(!all_groups_low_confidence(&output.groups));
}

// -- empty input --

#[test]
fn empty_groups_produce_empty_output() {
    let plan = stub_route_plan(false, false, false);
    let ir = stub_ir();
    let ctx = TrustDecoratorContext {
        route_plan: &plan,
        ir: &ir,
    };
    let output = TrustPayloadFactory.decorate(Vec::new(), &ctx);
    assert!(output.groups.is_empty());
    assert!(output.ambiguity.is_none());
}

// -- trust_tier_summary --

#[test]
fn trust_tier_summary_counts_correctly() {
    let plan = stub_route_plan(false, false, false);
    let ir = stub_ir();
    let ctx = TrustDecoratorContext {
        route_plan: &plan,
        ir: &ir,
    };
    let groups = vec![
        group_with(
            "g1",
            100,
            vec![PlannerRouteKind::Exact],
            vec![evidence(
                PlannerEvidenceKind::ExactMatch,
                PlannerRouteKind::Exact,
            )],
            None,
        ),
        group_with(
            "g2",
            90,
            vec![PlannerRouteKind::Symbol, PlannerRouteKind::Semantic],
            vec![
                evidence(PlannerEvidenceKind::SymbolHit, PlannerRouteKind::Symbol),
                evidence(PlannerEvidenceKind::SemanticHit, PlannerRouteKind::Semantic),
            ],
            None,
        ),
        group_with(
            "g3",
            60,
            vec![PlannerRouteKind::Semantic],
            vec![evidence(
                PlannerEvidenceKind::SemanticHit,
                PlannerRouteKind::Semantic,
            )],
            None,
        ),
    ];

    let output = TrustPayloadFactory.decorate(groups, &ctx);
    let summary = trust_tier_summary(&output.groups);
    assert!(summary.contains("High=1"));
    assert!(summary.contains("Medium=1"));
    assert!(summary.contains("Low=1"));
}
