use vstd::prelude::*;

use crate::protocol::planner::{
    PlannerContextRef, PlannerExactMatchStyle, PlannerIntentSignal, PlannerQueryIr,
    PlannerQueryStyle, PlannerRouteKind,
};
use crate::text::str_chars;

verus! {

/// How the planner combines its routes for one query.
#[derive(Debug, Clone, Copy, PartialEq, Eq, Structural)]
pub enum PlannerRoutePolicyKind {
    SingleRoute,
    StagedFallback,
    MultiRouteCandidates,
    SeedThenImpact,
}

/// The routes chosen for a query and how they combine.
#[derive(Debug, Clone, PartialEq, Eq)]
pub struct PlannerRoutePolicy {
    pub kind: PlannerRoutePolicyKind,
    pub selected_routes: Vec<PlannerRouteKind>,
    pub low_signal: bool,
    pub notes: Vec<String>,
}

/// The policy decided for a query: its kind, routes, low-signal flag and its one note.
pub struct PolicyModel {
    pub kind: PlannerRoutePolicyKind,
    pub routes: Seq<PlannerRouteKind>,
    pub low_signal: bool,
    pub note: Seq<char>,
}

/// A context that pins a query to a concrete location.
pub open spec fn is_direct_seed(context: Option<PlannerContextRef>) -> bool {
    match context {
        Some(PlannerContextRef::Symbol { .. }) => true,
        Some(PlannerContextRef::Span { .. }) => true,
        Some(PlannerContextRef::File { .. }) => true,
        Some(PlannerContextRef::Impact { .. }) => true,
        _ => false,
    }
}

/// A character that marks text as a path: a slash, a backslash or a dot.
pub open spec fn is_path_char(c: char) -> bool {
    c == '/' || c == '\\' || c == '.'
}

/// Whether the space-joined terms look like a path: some term holds a path character.
pub open spec fn terms_look_like_path(terms: Seq<String>) -> bool {
    exists|i: int, j: int| 0 <= i < terms.len() && 0 <= j < terms[i]@.len() && is_path_char(#[trigger] terms[i]@[j])
}

/// Whether an impact query can go straight to the impact route.
pub open spec fn has_impact_seed(ir: PlannerQueryIr) -> bool {
    ||| is_direct_seed(ir.selected_context)
    ||| is_direct_seed(ir.target_context)
    ||| (ir.exact_query matches Some(q) && q.match_style == PlannerExactMatchStyle::Path)
    ||| (ir.impact_query matches Some(q) && terms_look_like_path(q.subject_terms@))
}

/// A semantic lookup with no seed of any kind and at most three tokens.
pub open spec fn low_signal_query(ir: PlannerQueryIr) -> bool {
    &&& ir.primary_style == PlannerQueryStyle::SemanticLookup
    &&& ir.selected_context is None
    &&& ir.target_context is None
    &&& ir.exact_query is None
    &&& ir.symbol_query is None
    &&& ir.impact_query is None
    &&& (ir.semantic_query matches Some(q) ==> q.tokens@.len() <= 3)
}

/// `routes` with `route_kind` appended when it is planned and not yet there.
pub open spec fn push_planned(planned: Seq<PlannerRouteKind>, routes: Seq<PlannerRouteKind>, route_kind: PlannerRouteKind) -> Seq<PlannerRouteKind> {
    if planned.contains(route_kind) && !routes.contains(route_kind) {
        routes.push(route_kind)
    } else {
        routes
    }
}

/// The policy kind for `routes`: single-route when at most one route remains.
pub open spec fn kind_for(preferred: PlannerRoutePolicyKind, routes: Seq<PlannerRouteKind>) -> PlannerRoutePolicyKind {
    if routes.len() <= 1 { PlannerRoutePolicyKind::SingleRoute } else { preferred }
}

/// The routes of an impact query without a direct seed but with a symbol seed.
pub open spec fn seeded_impact_routes(planned: Seq<PlannerRouteKind>) -> Seq<PlannerRouteKind> {
    push_planned(planned, push_planned(planned, push_planned(planned, seq![], PlannerRouteKind::Symbol),
        PlannerRouteKind::Semantic), PlannerRouteKind::Impact)
}

/// The routes of an impact query with no seed at all.
pub open spec fn unseeded_impact_routes(planned: Seq<PlannerRouteKind>) -> Seq<PlannerRouteKind> {
    let semantic = push_planned(planned, seq![], PlannerRouteKind::Semantic);
    if semantic.len() == 0 { push_planned(planned, semantic, PlannerRouteKind::Impact) } else { semantic }
}

/// The policy the planner picks for `ir`.
pub open spec fn policy_for(ir: PlannerQueryIr) -> PolicyModel {
    let planned = ir.planned_routes@;
    if ir.intent_signals@.contains(PlannerIntentSignal::ExplicitModeOverride) {
        let routes = if planned.len() > 0 { seq![planned[0]] } else { seq![] };
        PolicyModel {
            kind: PlannerRoutePolicyKind::SingleRoute,
            routes,
            low_signal: false,
            note: "explicit mode override bypassed auto routing"@,
        }
    } else if ir.primary_style == PlannerQueryStyle::ImpactAnalysis {
        if has_impact_seed(ir) {
            PolicyModel {
                kind: PlannerRoutePolicyKind::SingleRoute,
                routes: push_planned(planned, seq![], PlannerRouteKind::Impact),
                low_signal: false,
                note: "impact analysis can run directly from selected symbol/file context or a concrete file seed"@,
            }
        } else if ir.symbol_query is Some {
            let routes = seeded_impact_routes(planned);
            PolicyModel {
                kind: kind_for(PlannerRoutePolicyKind::SeedThenImpact, routes),
                routes,
                low_signal: false,
                note: "impact analysis needs deterministic seed resolution before the impact engine is consulted"@,
            }
        } else {
            let routes = unseeded_impact_routes(planned);
            PolicyModel {
                kind: kind_for(PlannerRoutePolicyKind::MultiRouteCandidates, routes),
                routes,
                low_signal: true,
                note: "impact-like wording lacked a deterministic symbol or file seed, so the planner stayed on candidate-retrieval routes"@,
            }
        }
    } else if ir.candidate_styles@.len() > 1 {
        PolicyModel {
            kind: kind_for(PlannerRoutePolicyKind::MultiRouteCandidates, planned),
            routes: planned,
            low_signal: low_signal_query(ir),
            note: "mixed route signals kept multiple route candidates live"@,
        }
    } else {
        PolicyModel {
            kind: kind_for(PlannerRoutePolicyKind::StagedFallback, planned),
            routes: planned,
            low_signal: low_signal_query(ir),
            note: "one dominant route stayed primary while lower-priority fallbacks remained available"@,
        }
    }
}

/// Whether `p` is the policy described by `m`.
pub open spec fn realizes(p: PlannerRoutePolicy, m: PolicyModel) -> bool {
    &&& p.kind == m.kind
    &&& p.selected_routes@ == m.routes
    &&& p.low_signal == m.low_signal
    &&& p.notes@.len() == 1
    &&& p.notes@[0]@ == m.note
}

proof fn lemma_push_planned(planned: Seq<PlannerRouteKind>, routes: Seq<PlannerRouteKind>, route_kind: PlannerRouteKind)
    requires
        forall|i: int| 0 <= i < routes.len() ==> planned.contains(#[trigger] routes[i]),
    ensures
        forall|i: int| 0 <= i < push_planned(planned, routes, route_kind).len() ==>
            planned.contains(#[trigger] push_planned(planned, routes, route_kind)[i]),
{
}

/// The policy never selects a route that the query did not plan, and it never selects
/// more than one route for an explicit mode override.
pub proof fn law_policy_selects_planned_routes(ir: PlannerQueryIr)
    ensures
        forall|i: int| 0 <= i < policy_for(ir).routes.len() ==> ir.planned_routes@.contains(#[trigger] policy_for(ir).routes[i]),
        ir.intent_signals@.contains(PlannerIntentSignal::ExplicitModeOverride) ==> policy_for(ir).routes.len() <= 1,
        policy_for(ir).routes.len() <= 1 ==> policy_for(ir).kind == PlannerRoutePolicyKind::SingleRoute,
{
    let planned = ir.planned_routes@;
    let empty = Seq::<PlannerRouteKind>::empty();
    lemma_push_planned(planned, empty, PlannerRouteKind::Impact);
    lemma_push_planned(planned, empty, PlannerRouteKind::Symbol);
    lemma_push_planned(planned, empty, PlannerRouteKind::Semantic);
    let a = push_planned(planned, empty, PlannerRouteKind::Symbol);
    lemma_push_planned(planned, a, PlannerRouteKind::Semantic);
    let b = push_planned(planned, a, PlannerRouteKind::Semantic);
    lemma_push_planned(planned, b, PlannerRouteKind::Impact);
    let c = push_planned(planned, empty, PlannerRouteKind::Semantic);
    lemma_push_planned(planned, c, PlannerRouteKind::Impact);
    if planned.len() > 0 {
        assert(planned.contains(planned[0]));
    }
    assert forall|i: int| 0 <= i < planned.len() implies planned.contains(#[trigger] planned[i]) by {}
}

/// Whether `ir` is a semantic lookup with nothing to seed it: no explicit mode, no
/// selected or target context, and no exact, symbol or impact lookup.
pub open spec fn seedless_semantic(ir: PlannerQueryIr) -> bool {
    &&& !ir.intent_signals@.contains(PlannerIntentSignal::ExplicitModeOverride)
    &&& ir.primary_style == PlannerQueryStyle::SemanticLookup
    &&& ir.selected_context is None
    &&& ir.target_context is None
    &&& ir.exact_query is None
    &&& ir.symbol_query is None
    &&& ir.impact_query is None
}

/// A seedless semantic lookup is low-signal exactly when its semantic query has at most
/// three tokens (or it has no semantic query at all); so a longer query is never flagged
/// where a shorter one with the same seeds is not.
pub proof fn law_low_signal_is_short_seedless_semantic(ir: PlannerQueryIr, longer: PlannerQueryIr)
    requires
        seedless_semantic(ir),
    ensures
        policy_for(ir).low_signal == match ir.semantic_query {
            Some(q) => q.tokens@.len() <= 3,
            None => true,
        },
        seedless_semantic(longer) && ir.semantic_query is Some && longer.semantic_query is Some
            && ir.semantic_query->0.tokens@.len() <= longer.semantic_query->0.tokens@.len()
            && policy_for(longer).low_signal ==> policy_for(ir).low_signal,
{
}

/// Chooses how the planner combines its routes for `ir`.
pub fn plan_route_policy(ir: &PlannerQueryIr) -> (p: PlannerRoutePolicy)
    ensures
        realizes(p, policy_for(*ir)),
{
    let planned = &ir.planned_routes;
    if contains_signal(&ir.intent_signals, PlannerIntentSignal::ExplicitModeOverride) {
        let mut routes: Vec<PlannerRouteKind> = Vec::new();
        if planned.len() > 0 {
            routes.push(planned[0]);
        }
        assert(routes@ =~= (if planned@.len() > 0 { seq![planned@[0]] } else { seq![] }));
        return with_kind(PlannerRoutePolicyKind::SingleRoute, routes, false,
            "explicit mode override bypassed auto routing");
    }
    if ir.primary_style == PlannerQueryStyle::ImpactAnalysis {
        if impact_has_direct_seed(ir) {
            let mut routes: Vec<PlannerRouteKind> = Vec::new();
            push_if_present(planned, &mut routes, PlannerRouteKind::Impact);
            return with_kind(PlannerRoutePolicyKind::SingleRoute, routes, false,
                "impact analysis can run directly from selected symbol/file context or a concrete file seed");
        }
        if ir.symbol_query.is_some() {
            let mut routes: Vec<PlannerRouteKind> = Vec::new();
            push_if_present(planned, &mut routes, PlannerRouteKind::Symbol);
            push_if_present(planned, &mut routes, PlannerRouteKind::Semantic);
            push_if_present(planned, &mut routes, PlannerRouteKind::Impact);
            return with_kind(PlannerRoutePolicyKind::SeedThenImpact, routes, false,
                "impact analysis needs deterministic seed resolution before the impact engine is consulted");
        }
        let mut routes: Vec<PlannerRouteKind> = Vec::new();
        push_if_present(planned, &mut routes, PlannerRouteKind::Semantic);
        if routes.len() == 0 {
            push_if_present(planned, &mut routes, PlannerRouteKind::Impact);
        }
        return with_kind(PlannerRoutePolicyKind::MultiRouteCandidates, routes, true,
            "impact-like wording lacked a deterministic symbol or file seed, so the planner stayed on candidate-retrieval routes");
    }
    if ir.candidate_styles.len() > 1 {
        return with_kind(PlannerRoutePolicyKind::MultiRouteCandidates, copy_routes(planned),
            is_low_signal_query(ir), "mixed route signals kept multiple route candidates live");
    }
    with_kind(PlannerRoutePolicyKind::StagedFallback, copy_routes(planned), is_low_signal_query(ir),
        "one dominant route stayed primary while lower-priority fallbacks remained available")
}

fn with_kind(preferred_kind: PlannerRoutePolicyKind, routes: Vec<PlannerRouteKind>, low_signal: bool, note: &str) -> (p: PlannerRoutePolicy)
    ensures
        p.kind == kind_for(preferred_kind, routes@),
        p.selected_routes@ == routes@,
        p.low_signal == low_signal,
        p.notes@.len() == 1,
        p.notes@[0]@ == note@,
{
    let kind = if routes.len() <= 1 { PlannerRoutePolicyKind::SingleRoute } else { preferred_kind };
    PlannerRoutePolicy { kind, selected_routes: routes, low_signal, notes: vec![note.to_owned()] }
}

/// A copy of a list of route kinds.
pub fn copy_routes(routes: &Vec<PlannerRouteKind>) -> (r: Vec<PlannerRouteKind>)
    ensures
        r@ == routes@,
{
    let mut r: Vec<PlannerRouteKind> = Vec::new();
    let mut i: usize = 0;
    while i < routes.len()
        invariant
            0 <= i <= routes@.len(),
            r@ == routes@.subrange(0, i as int),
        decreases routes@.len() - i,
    {
        r.push(routes[i]);
        assert(routes@.subrange(0, i + 1) =~= routes@.subrange(0, i as int).push(routes@[i as int]));
        i = i + 1;
    }
    assert(routes@.subrange(0, routes@.len() as int) =~= routes@);
    r
}

/// Whether `routes` holds `route_kind`.
pub fn contains_route(routes: &Vec<PlannerRouteKind>, route_kind: PlannerRouteKind) -> (r: bool)
    ensures
        r == routes@.contains(route_kind),
{
    let mut i: usize = 0;
    while i < routes.len()
        invariant
            0 <= i <= routes@.len(),
            forall|k: int| 0 <= k < i ==> routes@[k] != route_kind,
        decreases routes@.len() - i,
    {
        if routes[i] == route_kind {
            assert(routes@[i as int] == route_kind);
            return true;
        }
        i = i + 1;
    }
    false
}

fn contains_signal(signals: &Vec<PlannerIntentSignal>, signal: PlannerIntentSignal) -> (r: bool)
    ensures
        r == signals@.contains(signal),
{
    let mut i: usize = 0;
    while i < signals.len()
        invariant
            0 <= i <= signals@.len(),
            forall|k: int| 0 <= k < i ==> signals@[k] != signal,
        decreases signals@.len() - i,
    {
        if signals[i] == signal {
            assert(signals@[i as int] == signal);
            return true;
        }
        i = i + 1;
    }
    false
}

fn push_if_present(planned: &Vec<PlannerRouteKind>, routes: &mut Vec<PlannerRouteKind>, route_kind: PlannerRouteKind)
    ensures
        final(routes)@ == push_planned(planned@, old(routes)@, route_kind),
{
    if contains_route(planned, route_kind) && !contains_route(routes, route_kind) {
        routes.push(route_kind);
    }
}

fn direct_seed(context: &Option<PlannerContextRef>) -> (r: bool)
    ensures
        r == is_direct_seed(*context),
{
    match context {
        Some(PlannerContextRef::Symbol { .. }) => true,
        Some(PlannerContextRef::Span { .. }) => true,
        Some(PlannerContextRef::File { .. }) => true,
        Some(PlannerContextRef::Impact { .. }) => true,
        _ => false,
    }
}

fn term_has_path_char(term: &String) -> (r: bool)
    ensures
        r == exists|j: int| 0 <= j < term@.len() && is_path_char(#[trigger] term@[j]),
{
    let chars = str_chars(term.as_str());
    let mut j: usize = 0;
    while j < chars.len()
        invariant
            0 <= j <= chars@.len(),
            chars@ == term@,
            forall|k: int| 0 <= k < j ==> !is_path_char(#[trigger] term@[k]),
        decreases chars@.len() - j,
    {
        let c = chars[j];
        if c == '/' || c == '\\' || c == '.' {
            assert(is_path_char(term@[j as int]));
            return true;
        }
        j = j + 1;
    }
    false
}

fn any_term_looks_like_path(terms: &Vec<String>) -> (r: bool)
    ensures
        r == terms_look_like_path(terms@),
{
    let mut i: usize = 0;
    while i < terms.len()
        invariant
            0 <= i <= terms@.len(),
            forall|k: int, j: int| 0 <= k < i && 0 <= j < terms@[k]@.len() ==> !is_path_char(#[trigger] terms@[k]@[j]),
        decreases terms@.len() - i,
    {
        if term_has_path_char(&terms[i]) {
            return true;
        }
        i = i + 1;
    }
    false
}

fn impact_has_direct_seed(ir: &PlannerQueryIr) -> (r: bool)
    ensures
        r == has_impact_seed(*ir),
{
    if direct_seed(&ir.selected_context) || direct_seed(&ir.target_context) {
        return true;
    }
    let exact_path = match &ir.exact_query {
        Some(q) => q.match_style == PlannerExactMatchStyle::Path,
        None => false,
    };
    if exact_path {
        return true;
    }
    match &ir.impact_query {
        Some(q) => any_term_looks_like_path(&q.subject_terms),
        None => false,
    }
}

fn is_low_signal_query(ir: &PlannerQueryIr) -> (r: bool)
    ensures
        r == low_signal_query(*ir),
{
    let few_tokens = match &ir.semantic_query {
        Some(q) => q.tokens.len() <= 3,
        None => true,
    };
    ir.primary_style == PlannerQueryStyle::SemanticLookup && ir.selected_context.is_none()
        && ir.target_context.is_none() && ir.exact_query.is_none() && ir.symbol_query.is_none()
        && ir.impact_query.is_none() && few_tokens
}

} // verus!
