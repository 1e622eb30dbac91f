use vstd::prelude::*;

use crate::planner::copy::DeepCopy;
use crate::planner::route_adapters::str_views;
use crate::planner::route_policy::PlannerRoutePolicyKind;
use crate::planner::route_registry::PlannerRoutePlan;
use crate::protocol::planner::{
    PlannerAmbiguity, PlannerAmbiguityReason, PlannerAnchor, PlannerContextRef,
    PlannerEvidenceItem, PlannerEvidenceKind, PlannerExplanationPayload, PlannerQueryIr,
    PlannerResultGroup, PlannerRouteKind, PlannerTrustPayload, PlannerTrustTier,
};
use crate::text::{decimal, push_decimal, push_str};

verus! {

/// What trust decoration reads besides the groups.
pub struct TrustDecoratorContext<'a> {
    pub route_plan: &'a PlannerRoutePlan,
    pub ir: &'a PlannerQueryIr,
}

/// Assigns trust tiers, warnings and explanations to result groups.
#[derive(Debug, Default, Clone, Copy)]
pub struct TrustPayloadFactory;

/// The decorated groups, and the ambiguity between the top two, if any.
pub struct DecorateOutput {
    pub groups: Vec<PlannerResultGroup>,
    pub ambiguity: Option<PlannerAmbiguity>,
}

/// Which kinds of evidence a group holds.
#[derive(Debug, Clone, Copy, PartialEq, Eq, Structural)]
pub struct EvidenceProfile {
    pub has_exact: bool,
    pub has_symbol: bool,
    pub has_semantic: bool,
    pub has_impact: bool,
    pub has_context_seed: bool,
}

/// The evidence profile of a list of evidence items.
pub open spec fn profile_of(evidence: Seq<PlannerEvidenceItem>) -> EvidenceProfile
    decreases evidence.len(),
{
    if evidence.len() == 0 {
        EvidenceProfile { has_exact: false, has_symbol: false, has_semantic: false, has_impact: false, has_context_seed: false }
    } else {
        let p = profile_of(evidence.drop_last());
        match evidence.last().evidence_kind {
            PlannerEvidenceKind::ExactMatch => EvidenceProfile { has_exact: true, ..p },
            PlannerEvidenceKind::SymbolHit => EvidenceProfile { has_symbol: true, ..p },
            PlannerEvidenceKind::SemanticHit => EvidenceProfile { has_semantic: true, ..p },
            PlannerEvidenceKind::ImpactHit => EvidenceProfile { has_impact: true, ..p },
            PlannerEvidenceKind::ContextSeed => EvidenceProfile { has_context_seed: true, ..p },
            PlannerEvidenceKind::FilterMatch => p,
        }
    }
}

/// A trust decision: tier, determinism, template and reasons.
pub struct TierModel {
    pub tier: PlannerTrustTier,
    pub deterministic: bool,
    pub template_id: Seq<char>,
    pub reasons: Seq<Seq<char>>,
}

/// The reason given when `n` routes agree.
pub open spec fn routes_agree_reason(n: nat) -> Seq<char> {
    decimal(n) + " independent routes matched this result"@
}

/// The trust tier for a profile, the number of routes and whether the query was low-signal.
pub open spec fn tier_for(p: EvidenceProfile, route_count: nat, low_signal: bool) -> TierModel {
    if p.has_exact && p.has_symbol {
        TierModel { tier: PlannerTrustTier::High, deterministic: true, template_id: "planner.trust.corroborated"@,
            reasons: seq!["exact and symbol routes both matched this result"@] }
    } else if route_count >= 3 {
        TierModel { tier: PlannerTrustTier::High, deterministic: p.has_exact || p.has_context_seed,
            template_id: "planner.trust.corroborated"@, reasons: seq![routes_agree_reason(route_count)] }
    } else if p.has_exact {
        TierModel { tier: PlannerTrustTier::High, deterministic: true, template_id: "planner.trust.direct"@,
            reasons: seq!["exact match provides deterministic evidence"@] }
    } else if p.has_context_seed {
        TierModel { tier: PlannerTrustTier::High, deterministic: true, template_id: "planner.trust.direct"@,
            reasons: seq!["context seed provides deterministic evidence"@] }
    } else if route_count >= 2 {
        TierModel { tier: PlannerTrustTier::Medium, deterministic: false, template_id: "planner.trust.corroborated"@,
            reasons: seq![routes_agree_reason(route_count)] }
    } else if p.has_symbol && !low_signal {
        TierModel { tier: PlannerTrustTier::Medium, deterministic: false, template_id: "planner.trust.direct"@,
            reasons: seq!["symbol route matched structurally"@] }
    } else if p.has_symbol && low_signal {
        TierModel { tier: PlannerTrustTier::Low, deterministic: false, template_id: "planner.trust.low_signal"@,
            reasons: seq!["symbol route matched but query was low-signal"@] }
    } else if p.has_semantic && !p.has_symbol && !p.has_exact {
        TierModel { tier: PlannerTrustTier::Low, deterministic: false, template_id: "planner.trust.fallback_derived"@,
            reasons: if p.has_impact {
                seq!["only semantic similarity matched; no structural confirmation"@,
                    "impact evidence present but lacks structural anchor"@]
            } else {
                seq!["only semantic similarity matched; no structural confirmation"@]
            } }
    } else if p.has_impact && !p.has_symbol && !p.has_exact && !p.has_semantic {
        TierModel { tier: PlannerTrustTier::Low, deterministic: false, template_id: "planner.trust.fallback_derived"@,
            reasons: seq!["only impact analysis matched; no structural or semantic confirmation"@] }
    } else {
        TierModel { tier: PlannerTrustTier::NeedsReview, deterministic: false, template_id: "planner.trust.low_signal"@,
            reasons: seq!["insufficient evidence to confidently assess this result"@] }
    }
}

/// Only high-trust results can be deterministic; exact and symbol evidence together always
/// give a high, deterministic result; and more routes never lower a result below medium
/// once two agree.
pub proof fn law_trust_tiers(p: EvidenceProfile, route_count: nat, low_signal: bool)
    ensures
        tier_for(p, route_count, low_signal).deterministic ==> tier_for(p, route_count, low_signal).tier == PlannerTrustTier::High,
        p.has_exact && p.has_symbol ==> tier_for(p, route_count, low_signal).tier == PlannerTrustTier::High
            && tier_for(p, route_count, low_signal).deterministic,
        route_count >= 2 ==> (tier_for(p, route_count, low_signal).tier == PlannerTrustTier::High
            || tier_for(p, route_count, low_signal).tier == PlannerTrustTier::Medium),
        tier_for(p, route_count, low_signal).reasons.len() >= 1,
{
}

/// The explanation template for a tier and a number of routes.
pub open spec fn explanation_template(tier: PlannerTrustTier, route_count: nat) -> Seq<char> {
    match tier {
        PlannerTrustTier::High => if route_count >= 2 { "planner.explain.multi_route_agreement"@ } else { "planner.explain.single_route_direct"@ },
        PlannerTrustTier::Medium => if route_count >= 2 { "planner.explain.multi_route_agreement"@ } else { "planner.explain.single_route_structural"@ },
        PlannerTrustTier::Low => "planner.explain.fallback_derived"@,
        PlannerTrustTier::NeedsReview => "planner.explain.low_signal"@,
    }
}

/// `a - b`, or 0 when `b > a`.
pub open spec fn sat_sub(a: u32, b: u32) -> u32 {
    if a > b { (a - b) as u32 } else { 0 }
}

/// The warnings of a group with score `score`, the next score `next`, under `plan`.
pub open spec fn warnings_for(score: Option<u32>, next: Option<u32>, plan: PlannerRoutePlan) -> Seq<Seq<char>> {
    let gap_warning: Seq<Seq<char>> = match (score, next) {
        (Some(mine), Some(n)) => if mine > 0 && n > 0 && sat_sub(mine, n) <= 3 {
            seq!["score gap to next group is "@ + decimal(sat_sub(mine, n) as nat) + "; results may be ambiguous"@]
        } else {
            seq![]
        },
        _ => seq![],
    };
    gap_warning
        + (if plan.low_signal { seq!["query was low-signal; add a quoted literal, symbol, or file context to improve confidence"@] } else { seq![] })
        + (if plan.partial_results { seq!["some selected routes were not consulted; results may be incomplete"@] } else { seq![] })
        + (if plan.budget_exhausted { seq!["route budget was exhausted before all routes could be consulted"@] } else { seq![] })
}

/// The name of a route kind.
pub open spec fn route_name(k: PlannerRouteKind) -> Seq<char> {
    match k {
        PlannerRouteKind::Exact => "Exact"@,
        PlannerRouteKind::Symbol => "Symbol"@,
        PlannerRouteKind::Semantic => "Semantic"@,
        PlannerRouteKind::Impact => "Impact"@,
    }
}

/// The names of route kinds.
pub open spec fn route_names(routes: Seq<PlannerRouteKind>) -> Seq<Seq<char>> {
    routes.map_values(|k: PlannerRouteKind| route_name(k))
}

/// The name of a route policy kind.
pub open spec fn policy_name(k: PlannerRoutePolicyKind) -> Seq<char> {
    match k {
        PlannerRoutePolicyKind::SingleRoute => "SingleRoute"@,
        PlannerRoutePolicyKind::StagedFallback => "StagedFallback"@,
        PlannerRoutePolicyKind::MultiRouteCandidates => "MultiRouteCandidates"@,
        PlannerRoutePolicyKind::SeedThenImpact => "SeedThenImpact"@,
    }
}

/// The parts joined by `sep`.
pub open spec fn join(parts: Seq<Seq<char>>, sep: Seq<char>) -> Seq<char>
    decreases parts.len(),
{
    if parts.len() == 0 {
        Seq::empty()
    } else if parts.len() == 1 {
        parts[0]
    } else {
        join(parts.drop_last(), sep) + sep + parts.last()
    }
}

/// The names of the evidence kinds a profile holds, in a fixed order.
pub open spec fn kind_names(p: EvidenceProfile) -> Seq<Seq<char>> {
    (if p.has_exact { seq!["ExactMatch"@] } else { seq![] })
    + (if p.has_symbol { seq!["SymbolHit"@] } else { seq![] })
    + (if p.has_semantic { seq!["SemanticHit"@] } else { seq![] })
    + (if p.has_impact { seq!["ImpactHit"@] } else { seq![] })
    + (if p.has_context_seed { seq!["ContextSeed"@] } else { seq![] })
}

/// The explanation details of a group: its routes, its evidence kinds, its score and the
/// route policy.
pub open spec fn details_for(routes: Seq<PlannerRouteKind>, p: EvidenceProfile, score: Option<u32>, policy: PlannerRoutePolicyKind) -> Seq<Seq<char>> {
    seq!["matched by route(s): "@ + join(route_names(routes), ", "@)]
    + (if kind_names(p).len() > 0 { seq!["evidence kinds: "@ + join(kind_names(p), ", "@)] } else { seq![] })
    + (match score { Some(s) => seq!["fused score: "@ + decimal(s as nat)], None => seq![] })
    + seq!["route policy: "@ + policy_name(policy)]
}

/// The views of a sequence of strings.
pub open spec fn views(v: Seq<String>) -> Seq<Seq<char>> {
    v.map_values(|s: String| s@)
}

/// Whether `new` is `old` decorated under `plan`, with `next` the score that follows it.
pub open spec fn decorated(new: PlannerResultGroup, old: PlannerResultGroup, plan: PlannerRoutePlan, next: Option<u32>) -> bool {
    let p = profile_of(old.evidence@);
    let route_count = old.routes@.len();
    let t = tier_for(p, route_count, plan.low_signal);
    &&& new.group_id == old.group_id
    &&& new.label == old.label
    &&& new.anchor == old.anchor
    &&& new.routes == old.routes
    &&& new.evidence == old.evidence
    &&& new.score == old.score
    &&& new.trust.tier == t.tier
    &&& new.trust.deterministic == t.deterministic
    &&& new.trust.evidence_count == old.evidence@.len() as u32
    &&& new.trust.route_agreement_count == route_count as u32
    &&& new.trust.template_id@ == t.template_id
    &&& views(new.trust.reasons@) == t.reasons
    &&& views(new.trust.warnings@) == warnings_for(old.score, next, plan)
    &&& new.explanation.summary == old.explanation.summary
    &&& new.explanation.template_id@ == explanation_template(t.tier, route_count)
    &&& views(new.explanation.details@) == details_for(old.routes@, p, old.score, plan.route_policy)
}

/// The scores of the groups that have one, in order.
pub open spec fn present_scores(groups: Seq<PlannerResultGroup>) -> Seq<u32>
    decreases groups.len(),
{
    if groups.len() == 0 {
        Seq::empty()
    } else {
        let rest = present_scores(groups.drop_last());
        match groups.last().score {
            Some(s) => rest.push(s),
            None => rest,
        }
    }
}

/// The score that decoration compares group `i` with: entry `i + 1` of the present scores.
pub open spec fn next_score(groups: Seq<PlannerResultGroup>, i: int) -> Option<u32> {
    let scores = present_scores(groups);
    if i + 1 < scores.len() { Some(scores[i + 1]) } else { None }
}

/// Whether two anchors name the same symbol or the same file.
pub open spec fn same_anchor(a: PlannerAnchor, b: PlannerAnchor) -> bool {
    match (a, b) {
        (PlannerAnchor::Symbol { symbol_id: x, .. }, PlannerAnchor::Symbol { symbol_id: y, .. }) => x.0@ == y.0@,
        (PlannerAnchor::File { path: x }, PlannerAnchor::File { path: y }) => x@ == y@,
        _ => false,
    }
}

/// Whether two groups have different anchors (a missing anchor counts as different).
pub open spec fn different_anchors(a: Option<PlannerAnchor>, b: Option<PlannerAnchor>) -> bool {
    match (a, b) {
        (Some(x), Some(y)) => !same_anchor(x, y),
        _ => true,
    }
}

/// The context an anchor points the user to, if any.
pub open spec fn context_of(anchor: PlannerAnchor) -> Option<PlannerContextRef> {
    match anchor {
        PlannerAnchor::Symbol { symbol_id, path, span } =>
            Some(PlannerContextRef::Symbol { symbol_id, path, span, display_name: None }),
        PlannerAnchor::File { path } => Some(PlannerContextRef::File { path }),
        PlannerAnchor::Span { path, span } => Some(PlannerContextRef::Span { path, span }),
        PlannerAnchor::Impact { entity } => Some(PlannerContextRef::Impact { entity }),
        _ => None,
    }
}

/// The context of an optional anchor, as a sequence of zero or one contexts.
pub open spec fn anchor_contexts(anchor: Option<PlannerAnchor>) -> Seq<PlannerContextRef> {
    match anchor {
        Some(a) => match context_of(a) {
            Some(c) => seq![c],
            None => seq![],
        },
        None => seq![],
    }
}

/// Whether the top two groups are too close to rank: both scored above 0, at most 3
/// apart, with different anchors. Then the gap is reported.
pub open spec fn ambiguous_gap(groups: Seq<PlannerResultGroup>) -> Option<u32> {
    if groups.len() < 2 {
        None
    } else {
        match (groups[0].score, groups[1].score) {
            (Some(a), Some(b)) => if a == 0 || b == 0 || sat_sub(a, b) > 3 || !different_anchors(groups[0].anchor, groups[1].anchor) {
                None
            } else {
                Some(sat_sub(a, b))
            },
            _ => None,
        }
    }
}

/// Whether `amb` is the ambiguity that decoration reports for `groups`.
pub open spec fn ambiguity_for(amb: Option<PlannerAmbiguity>, groups: Seq<PlannerResultGroup>) -> bool {
    match ambiguous_gap(groups) {
        None => amb is None,
        Some(gap) => amb matches Some(a) && a.reason == PlannerAmbiguityReason::MultipleAnchorsRemain
            && views(a.details@) == seq!["top 2 result groups have a score gap of "@ + decimal(gap as nat)
                + "; consider refining the query to disambiguate"@]
            && a.candidate_contexts@ == anchor_contexts(groups[0].anchor) + anchor_contexts(groups[1].anchor),
    }
}

impl TrustPayloadFactory {
    /// Decorates every group with its trust tier, warnings and explanation, and reports
    /// ambiguity between the top two groups.
    pub fn decorate(&self, groups: Vec<PlannerResultGroup>, ctx: &TrustDecoratorContext<'_>) -> (out: DecorateOutput)
        ensures
            out.groups@.len() == groups@.len(),
            forall|i: int| 0 <= i < groups@.len() ==> decorated(#[trigger] out.groups@[i], groups@[i], *ctx.route_plan, next_score(groups@, i)),
            ambiguity_for(out.ambiguity, groups@),
    {
        let ghost gs = groups@;
        let all_scores = collect_scores(&groups);
        let n = groups.len();
        let mut rest = groups;
        let mut out: Vec<PlannerResultGroup> = Vec::new();
        let mut i: usize = 0;
        while rest.len() > 0
            invariant
                0 <= i <= n,
                n == gs.len(),
                rest@ == gs.subrange(i as int, n as int),
                all_scores@ == present_scores(gs),
                out@.len() == i,
                forall|k: int| 0 <= k < i ==> decorated(#[trigger] out@[k], gs[k], *ctx.route_plan, next_score(gs, k)),
            decreases rest@.len(),
        {
            let g = rest.remove(0);
            assert(g == gs[i as int]);
            let next: Option<u32> = if i + 1 < all_scores.len() { Some(all_scores[i + 1]) } else { None };
            let d = decorate_group(g, ctx.route_plan, next);
            out.push(d);
            assert(rest@ =~= gs.subrange(i + 1, n as int));
            i = i + 1;
        }
        let ambiguity = score_gap_ambiguity(&out);
        proof {
            assert(ambiguous_gap(out@) == ambiguous_gap(gs));
        }
        DecorateOutput { groups: out, ambiguity }
    }
}

fn collect_scores(groups: &Vec<PlannerResultGroup>) -> (r: Vec<u32>)
    ensures
        r@ == present_scores(groups@),
{
    let mut r: Vec<u32> = Vec::new();
    let mut i: usize = 0;
    while i < groups.len()
        invariant
            0 <= i <= groups@.len(),
            r@ == present_scores(groups@.subrange(0, i as int)),
        decreases groups@.len() - i,
    {
        assert(groups@.subrange(0, i + 1).drop_last() =~= groups@.subrange(0, i as int));
        if let Some(s) = groups[i].score {
            r.push(s);
        }
        i = i + 1;
    }
    assert(groups@.subrange(0, groups@.len() as int) =~= groups@);
    r
}

/// The evidence profile of a group's evidence.
pub fn evidence_profile(evidence: &Vec<PlannerEvidenceItem>) -> (p: EvidenceProfile)
    ensures
        p == profile_of(evidence@),
{
    let mut p = EvidenceProfile { has_exact: false, has_symbol: false, has_semantic: false, has_impact: false, has_context_seed: false };
    let mut i: usize = 0;
    while i < evidence.len()
        invariant
            0 <= i <= evidence@.len(),
            p == profile_of(evidence@.subrange(0, i as int)),
        decreases evidence@.len() - i,
    {
        assert(evidence@.subrange(0, i + 1).drop_last() =~= evidence@.subrange(0, i as int));
        match evidence[i].evidence_kind {
            PlannerEvidenceKind::ExactMatch => p.has_exact = true,
            PlannerEvidenceKind::SymbolHit => p.has_symbol = true,
            PlannerEvidenceKind::SemanticHit => p.has_semantic = true,
            PlannerEvidenceKind::ImpactHit => p.has_impact = true,
            PlannerEvidenceKind::ContextSeed => p.has_context_seed = true,
            PlannerEvidenceKind::FilterMatch => {},
        }
        i = i + 1;
    }
    assert(evidence@.subrange(0, evidence@.len() as int) =~= evidence@);
    p
}

fn string_of(s: &str) -> (r: String)
    ensures
        r@ == s@,
{
    s.to_owned()
}

fn one_reason(s: &str) -> (r: Vec<String>)
    ensures
        views(r@) == seq![s@],
{
    let r = vec![s.to_owned()];
    assert(views(r@) =~= seq![s@]);
    r
}

fn agree_reason(n: usize) -> (r: Vec<String>)
    ensures
        views(r@) == seq![routes_agree_reason(n as nat)],
{
    let mut s = String::new();
    push_decimal(&mut s, n as u64);
    push_str(&mut s, " independent routes matched this result");
    let r = vec![s];
    assert(views(r@) =~= seq![routes_agree_reason(n as nat)]);
    r
}

/// The trust decision for a profile, a number of routes and the query's signal.
pub fn compute_tier(p: &EvidenceProfile, route_count: usize, low_signal: bool) -> (r: (PlannerTrustTier, bool, String, Vec<String>))
    ensures
        ({
            let t = tier_for(*p, route_count as nat, low_signal);
            r.0 == t.tier && r.1 == t.deterministic && r.2@ == t.template_id && views(r.3@) == t.reasons
        }),
{
    if p.has_exact && p.has_symbol {
        return (PlannerTrustTier::High, true, string_of("planner.trust.corroborated"),
            one_reason("exact and symbol routes both matched this result"));
    }
    if route_count >= 3 {
        return (PlannerTrustTier::High, p.has_exact || p.has_context_seed, string_of("planner.trust.corroborated"),
            agree_reason(route_count));
    }
    if p.has_exact {
        return (PlannerTrustTier::High, true, string_of("planner.trust.direct"),
            one_reason("exact match provides deterministic evidence"));
    }
    if p.has_context_seed {
        return (PlannerTrustTier::High, true, string_of("planner.trust.direct"),
            one_reason("context seed provides deterministic evidence"));
    }
    if route_count >= 2 {
        return (PlannerTrustTier::Medium, false, string_of("planner.trust.corroborated"), agree_reason(route_count));
    }
    if p.has_symbol && !low_signal {
        return (PlannerTrustTier::Medium, false, string_of("planner.trust.direct"),
            one_reason("symbol route matched structurally"));
    }
    if p.has_symbol && low_signal {
        return (PlannerTrustTier::Low, false, string_of("planner.trust.low_signal"),
            one_reason("symbol route matched but query was low-signal"));
    }
    if p.has_semantic && !p.has_symbol && !p.has_exact {
        let mut reasons = one_reason("only semantic similarity matched; no structural confirmation");
        if p.has_impact {
            push_line(&mut reasons, string_of("impact evidence present but lacks structural anchor"));
            assert(views(reasons@) =~= seq!["only semantic similarity matched; no structural confirmation"@,
                "impact evidence present but lacks structural anchor"@]);
        }
        return (PlannerTrustTier::Low, false, string_of("planner.trust.fallback_derived"), reasons);
    }
    if p.has_impact && !p.has_symbol && !p.has_exact && !p.has_semantic {
        return (PlannerTrustTier::Low, false, string_of("planner.trust.fallback_derived"),
            one_reason("only impact analysis matched; no structural or semantic confirmation"));
    }
    (PlannerTrustTier::NeedsReview, false, string_of("planner.trust.low_signal"),
        one_reason("insufficient evidence to confidently assess this result"))
}

fn push_line(out: &mut Vec<String>, line: String)
    ensures
        views(final(out)@) == views(old(out)@).push(line@),
{
    out.push(line);
    assert(views(out@) =~= views(old(out)@).push(line@));
}

fn warnings(score: Option<u32>, next: Option<u32>, plan: &PlannerRoutePlan) -> (r: Vec<String>)
    ensures
        views(r@) == warnings_for(score, next, *plan),
{
    let mut out: Vec<String> = Vec::new();
    if let (Some(mine), Some(n)) = (score, next) {
        if mine > 0 && n > 0 {
            let gap: u32 = if mine > n { mine - n } else { 0 };
            if gap <= 3 {
                let mut line = String::new();
                push_str(&mut line, "score gap to next group is ");
                push_decimal(&mut line, gap as u64);
                push_str(&mut line, "; results may be ambiguous");
                push_line(&mut out, line);
            }
        }
    }
    let ghost first = views(out@);
    if plan.low_signal {
        push_line(&mut out, string_of("query was low-signal; add a quoted literal, symbol, or file context to improve confidence"));
    }
    let ghost second = views(out@);
    if plan.partial_results {
        push_line(&mut out, string_of("some selected routes were not consulted; results may be incomplete"));
    }
    let ghost third = views(out@);
    if plan.budget_exhausted {
        push_line(&mut out, string_of("route budget was exhausted before all routes could be consulted"));
    }
    assert(views(out@) =~= warnings_for(score, next, *plan));
    out
}

/// The name of a route kind.
pub fn route_kind_name(k: PlannerRouteKind) -> (r: &'static str)
    ensures
        r@ == route_name(k),
{
    match k {
        PlannerRouteKind::Exact => "Exact",
        PlannerRouteKind::Symbol => "Symbol",
        PlannerRouteKind::Semantic => "Semantic",
        PlannerRouteKind::Impact => "Impact",
    }
}

/// The name of a route policy kind.
pub fn policy_kind_name(k: PlannerRoutePolicyKind) -> (r: &'static str)
    ensures
        r@ == policy_name(k),
{
    match k {
        PlannerRoutePolicyKind::SingleRoute => "SingleRoute",
        PlannerRoutePolicyKind::StagedFallback => "StagedFallback",
        PlannerRoutePolicyKind::MultiRouteCandidates => "MultiRouteCandidates",
        PlannerRoutePolicyKind::SeedThenImpact => "SeedThenImpact",
    }
}

/// Appends `parts` joined by `sep` to `out`.
pub fn push_joined(out: &mut String, parts: &Vec<&'static str>, sep: &str)
    ensures
        final(out)@ == old(out)@ + join(str_views(parts@), sep@),
{
    let ghost start = out@;
    let ghost pv = str_views(parts@);
    let mut i: usize = 0;
    while i < parts.len()
        invariant
            0 <= i <= parts@.len(),
            pv == str_views(parts@),
            out@ == start + join(pv.subrange(0, i as int), sep@),
        decreases parts@.len() - i,
    {
        let ghost sub = pv.subrange(0, i + 1);
        assert(sub.drop_last() =~= pv.subrange(0, i as int));
        assert(sub.last() == parts@[i as int]@);
        if i > 0 {
            push_str(out, sep);
        } else {
            assert(pv.subrange(0, 0) =~= Seq::<Seq<char>>::empty());
            assert(sub.len() == 1);
        }
        push_str(out, parts[i]);
        assert(out@ =~= start + join(sub, sep@));
        i = i + 1;
    }
    assert(pv.subrange(0, parts@.len() as int) =~= pv);
}

fn details(routes: &Vec<PlannerRouteKind>, p: &EvidenceProfile, score: Option<u32>, policy: PlannerRoutePolicyKind) -> (r: Vec<String>)
    ensures
        views(r@) == details_for(routes@, *p, score, policy),
{
    let mut out: Vec<String> = Vec::new();
    let mut names: Vec<&'static str> = Vec::new();
    let mut i: usize = 0;
    while i < routes.len()
        invariant
            0 <= i <= routes@.len(),
            str_views(names@) == route_names(routes@.subrange(0, i as int)),
        decreases routes@.len() - i,
    {
        let ghost before = names@;
        let name = route_kind_name(routes[i]);
        names.push(name);
        assert(str_views(names@) =~= str_views(before).push(name@));
        assert(routes@.subrange(0, i + 1) =~= routes@.subrange(0, i as int).push(routes@[i as int]));
        assert(route_names(routes@.subrange(0, i + 1)) =~= route_names(routes@.subrange(0, i as int)).push(route_name(routes@[i as int])));
        assert(str_views(names@) =~= route_names(routes@.subrange(0, i + 1)));
        i = i + 1;
    }
    assert(routes@.subrange(0, routes@.len() as int) =~= routes@);
    let mut line = string_of("matched by route(s): ");
    push_joined(&mut line, &names, ", ");
    push_line(&mut out, line);
    let ghost first = views(out@);

    let mut kinds: Vec<&'static str> = Vec::new();
    if p.has_exact {
        kinds.push("ExactMatch");
    }
    if p.has_symbol {
        kinds.push("SymbolHit");
    }
    if p.has_semantic {
        kinds.push("SemanticHit");
    }
    if p.has_impact {
        kinds.push("ImpactHit");
    }
    if p.has_context_seed {
        kinds.push("ContextSeed");
    }
    assert(str_views(kinds@) =~= kind_names(*p));
    if kinds.len() > 0 {
        let mut line = string_of("evidence kinds: ");
        push_joined(&mut line, &kinds, ", ");
        push_line(&mut out, line);
    }
    let ghost second = views(out@);
    if let Some(s) = score {
        let mut line = string_of("fused score: ");
        push_decimal(&mut line, s as u64);
        push_line(&mut out, line);
    }
    let mut line = string_of("route policy: ");
    push_str(&mut line, policy_kind_name(policy));
    push_line(&mut out, line);
    assert(views(out@) =~= details_for(routes@, *p, score, policy));
    out
}

/// The explanation template for a tier and a number of routes.
pub fn explanation_template_id(tier: PlannerTrustTier, route_count: usize) -> (r: String)
    ensures
        r@ == explanation_template(tier, route_count as nat),
{
    match tier {
        PlannerTrustTier::High => if route_count >= 2 {
            string_of("planner.explain.multi_route_agreement")
        } else {
            string_of("planner.explain.single_route_direct")
        },
        PlannerTrustTier::Medium => if route_count >= 2 {
            string_of("planner.explain.multi_route_agreement")
        } else {
            string_of("planner.explain.single_route_structural")
        },
        PlannerTrustTier::Low => string_of("planner.explain.fallback_derived"),
        PlannerTrustTier::NeedsReview => string_of("planner.explain.low_signal"),
    }
}

fn decorate_group(group: PlannerResultGroup, plan: &PlannerRoutePlan, next: Option<u32>) -> (d: PlannerResultGroup)
    ensures
        decorated(d, group, *plan, next),
{
    let profile = evidence_profile(&group.evidence);
    let route_count = group.routes.len();
    let evidence_count = group.evidence.len() as u32;
    let (tier, deterministic, template_id, reasons) = compute_tier(&profile, route_count, plan.low_signal);
    let warns = warnings(group.score, next, plan);
    let detail_lines = details(&group.routes, &profile, group.score, plan.route_policy);
    let explain_template = explanation_template_id(tier, route_count);
    PlannerResultGroup {
        group_id: group.group_id,
        label: group.label,
        anchor: group.anchor,
        routes: group.routes,
        trust: PlannerTrustPayload {
            tier,
            deterministic,
            evidence_count,
            route_agreement_count: route_count as u32,
            template_id,
            reasons,
            warnings: warns,
        },
        explanation: PlannerExplanationPayload {
            template_id: explain_template,
            summary: group.explanation.summary,
            details: detail_lines,
        },
        evidence: group.evidence,
        score: group.score,
    }
}

fn anchors_eq(a: &PlannerAnchor, b: &PlannerAnchor) -> (r: bool)
    ensures
        r == same_anchor(*a, *b),
{
    match (a, b) {
        (PlannerAnchor::Symbol { symbol_id: x, .. }, PlannerAnchor::Symbol { symbol_id: y, .. }) => x.0 == y.0,
        (PlannerAnchor::File { path: x }, PlannerAnchor::File { path: y }) => *x == *y,
        _ => false,
    }
}

/// The context an anchor points the user to, if any.
pub fn anchor_to_context(anchor: &PlannerAnchor) -> (r: Option<PlannerContextRef>)
    ensures
        r == context_of(*anchor),
{
    match anchor {
        PlannerAnchor::Symbol { symbol_id, path, span } => Some(PlannerContextRef::Symbol {
            symbol_id: symbol_id.deep_copy(),
            path: path.clone(),
            span: *span,
            display_name: None,
        }),
        PlannerAnchor::File { path } => Some(PlannerContextRef::File { path: path.clone() }),
        PlannerAnchor::Span { path, span } => Some(PlannerContextRef::Span { path: path.clone(), span: *span }),
        PlannerAnchor::Impact { entity } => Some(PlannerContextRef::Impact { entity: entity.deep_copy() }),
        _ => None,
    }
}

fn push_context(out: &mut Vec<PlannerContextRef>, anchor: &Option<PlannerAnchor>)
    ensures
        final(out)@ == old(out)@ + anchor_contexts(*anchor),
{
    if let Some(a) = anchor {
        if let Some(c) = anchor_to_context(a) {
            out.push(c);
            assert(out@ =~= old(out)@ + seq![c]);
            return;
        }
    }
    assert(out@ =~= old(out)@ + anchor_contexts(*anchor));
}

fn score_gap_ambiguity(groups: &Vec<PlannerResultGroup>) -> (r: Option<PlannerAmbiguity>)
    ensures
        ambiguity_for(r, groups@),
{
    if groups.len() < 2 {
        return None;
    }
    let (first, second) = match (groups[0].score, groups[1].score) {
        (Some(a), Some(b)) => (a, b),
        _ => return None,
    };
    if first == 0 || second == 0 {
        return None;
    }
    let gap: u32 = if first > second { first - second } else { 0 };
    if gap > 3 {
        return None;
    }
    let different = match (&groups[0].anchor, &groups[1].anchor) {
        (Some(a), Some(b)) => !anchors_eq(a, b),
        _ => true,
    };
    if !different {
        return None;
    }
    let mut contexts: Vec<PlannerContextRef> = Vec::new();
    push_context(&mut contexts, &groups[0].anchor);
    push_context(&mut contexts, &groups[1].anchor);
    assert(contexts@ =~= anchor_contexts(groups@[0].anchor) + anchor_contexts(groups@[1].anchor));
    let mut line = string_of("top 2 result groups have a score gap of ");
    push_decimal(&mut line, gap as u64);
    push_str(&mut line, "; consider refining the query to disambiguate");
    let details = vec![line];
    assert(views(details@) =~= seq!["top 2 result groups have a score gap of "@ + decimal(gap as nat)
        + "; consider refining the query to disambiguate"@]);
    Some(PlannerAmbiguity {
        reason: PlannerAmbiguityReason::MultipleAnchorsRemain,
        details,
        candidate_contexts: contexts,
    })
}

/// Whether a tier is low or needs review.
pub open spec fn is_low_confidence(t: PlannerTrustTier) -> bool {
    t == PlannerTrustTier::Low || t == PlannerTrustTier::NeedsReview
}

/// Whether a non-empty result set has only low-confidence groups.
pub fn all_groups_low_confidence(groups: &Vec<PlannerResultGroup>) -> (r: bool)
    ensures
        r == (groups@.len() > 0 && forall|i: int| 0 <= i < groups@.len() ==> is_low_confidence(#[trigger] groups@[i].trust.tier)),
{
    if groups.len() == 0 {
        return false;
    }
    let mut i: usize = 0;
    while i < groups.len()
        invariant
            0 <= i <= groups@.len(),
            forall|k: int| 0 <= k < i ==> is_low_confidence(#[trigger] groups@[k].trust.tier),
        decreases groups@.len() - i,
    {
        let t = groups[i].trust.tier;
        if !(t == PlannerTrustTier::Low || t == PlannerTrustTier::NeedsReview) {
            assert(!is_low_confidence(groups@[i as int].trust.tier));
            return false;
        }
        i = i + 1;
    }
    true
}

/// The number of groups with trust tier `t`.
pub open spec fn count_tier(groups: Seq<PlannerResultGroup>, t: PlannerTrustTier) -> nat
    decreases groups.len(),
{
    if groups.len() == 0 {
        0
    } else {
        count_tier(groups.drop_last(), t) + if groups.last().trust.tier == t { 1nat } else { 0 }
    }
}

proof fn lemma_count_tiers(groups: Seq<PlannerResultGroup>)
    ensures
        count_tier(groups, PlannerTrustTier::High) + count_tier(groups, PlannerTrustTier::Medium)
            + count_tier(groups, PlannerTrustTier::Low) + count_tier(groups, PlannerTrustTier::NeedsReview) == groups.len(),
    decreases groups.len(),
{
    if groups.len() > 0 {
        lemma_count_tiers(groups.drop_last());
    }
}

/// `High=h Medium=m Low=l NeedsReview=n`, the number of groups in each tier.
pub fn trust_tier_summary(groups: &Vec<PlannerResultGroup>) -> (s: String)
    requires
        groups@.len() <= u32::MAX,
    ensures
        s@ == "High="@ + decimal(count_tier(groups@, PlannerTrustTier::High)) + " Medium="@
            + decimal(count_tier(groups@, PlannerTrustTier::Medium)) + " Low="@
            + decimal(count_tier(groups@, PlannerTrustTier::Low)) + " NeedsReview="@
            + decimal(count_tier(groups@, PlannerTrustTier::NeedsReview)),
{
    let mut high: u32 = 0;
    let mut medium: u32 = 0;
    let mut low: u32 = 0;
    let mut needs_review: u32 = 0;
    let mut i: usize = 0;
    while i < groups.len()
        invariant
            0 <= i <= groups@.len(),
            groups@.len() <= u32::MAX,
            high == count_tier(groups@.subrange(0, i as int), PlannerTrustTier::High),
            medium == count_tier(groups@.subrange(0, i as int), PlannerTrustTier::Medium),
            low == count_tier(groups@.subrange(0, i as int), PlannerTrustTier::Low),
            needs_review == count_tier(groups@.subrange(0, i as int), PlannerTrustTier::NeedsReview),
        decreases groups@.len() - i,
    {
        assert(groups@.subrange(0, i + 1).drop_last() =~= groups@.subrange(0, i as int));
        proof {
            lemma_count_tiers(groups@.subrange(0, i as int));
        }
        match groups[i].trust.tier {
            PlannerTrustTier::High => high = high + 1,
            PlannerTrustTier::Medium => medium = medium + 1,
            PlannerTrustTier::Low => low = low + 1,
            PlannerTrustTier::NeedsReview => needs_review = needs_review + 1,
        }
        i = i + 1;
    }
    assert(groups@.subrange(0, groups@.len() as int) =~= groups@);
    let mut s = string_of("High=");
    push_decimal(&mut s, high as u64);
    push_str(&mut s, " Medium=");
    push_decimal(&mut s, medium as u64);
    push_str(&mut s, " Low=");
    push_decimal(&mut s, low as u64);
    push_str(&mut s, " NeedsReview=");
    push_decimal(&mut s, needs_review as u64);
    s
}

} // verus!
