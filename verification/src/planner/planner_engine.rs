use vstd::prelude::*;

use crate::planner::common::{planner_version, scaffold_info, scaffold_warning, PLANNER_LAYOUT_VERSION};
use crate::planner::daemon_integration::{runtime_diagnostics, PlannerRuntimeContext};
use crate::planner::copy::DeepCopy;
use crate::planner::planner_model::{PlannerError, PlannerWorkspace};
use crate::planner::result_grouping::{grouping_of, ResultGrouping};
use crate::planner::route_adapters::NormalizedPlannerCandidate;
use crate::planner::route_registry::{count_available, count_selected_available, PlannerRoutePlan};
use crate::planner::score_fusion::{fusion_of, FusedCandidate, ScoreFusion};
use crate::planner::trust_payloads::{
    decorated, join, next_score, policy_kind_name, policy_name, push_joined, route_kind_name,
    route_names, TrustDecoratorContext, TrustPayloadFactory,
};
use crate::protocol::planner::{
    PlannerAmbiguity, PlannerCandidate, PlannerDiagnostic, PlannerDiagnosticSeverity,
    PlannerExplainResponse, PlannerMode, PlannerModeDecision, PlannerNoAnswer,
    PlannerNoAnswerReason, PlannerQueryIr, PlannerQueryParams, PlannerQueryResponse,
    PlannerQueryStats, PlannerQueryStyle, PlannerResultGroup, PlannerRouteStatus,
    PlannerRouteTrace, PlannerTrace, PlannerTraceStep,
};
use crate::planner::route_adapters::str_views;
use crate::protocol::snapshot::ComposedSnapshot;
use crate::text::{decimal, decimal_string, owned, push_str, views};

verus! {

/// Runs the stages after route execution: fusion, grouping, trust, diagnostics, trace.
#[derive(Debug, Default, Clone, Copy)]
pub struct PlannerEngine;

/// Everything a query or explain response is assembled from.
pub struct PlannerScaffoldOutput {
    pub mode: PlannerModeDecision,
    pub ir: PlannerQueryIr,
    pub candidates: Vec<PlannerCandidate>,
    pub groups: Vec<PlannerResultGroup>,
    pub diagnostics: Vec<PlannerDiagnostic>,
    pub trace: PlannerTrace,
    pub no_answer: Option<PlannerNoAnswer>,
    pub ambiguity: Option<PlannerAmbiguity>,
    pub stats: PlannerQueryStats,
}

/// The name of a planner mode.
pub open spec fn mode_name(m: PlannerMode) -> Seq<char> {
    match m {
        PlannerMode::Auto => "Auto"@,
        PlannerMode::Exact => "Exact"@,
        PlannerMode::Symbol => "Symbol"@,
        PlannerMode::Semantic => "Semantic"@,
        PlannerMode::Impact => "Impact"@,
    }
}

pub fn mode_kind_name(m: PlannerMode) -> (r: &'static str)
    ensures
        r@ == mode_name(m),
{
    match m {
        PlannerMode::Auto => "Auto",
        PlannerMode::Exact => "Exact",
        PlannerMode::Symbol => "Symbol",
        PlannerMode::Semantic => "Semantic",
        PlannerMode::Impact => "Impact",
    }
}

/// The name of a query style.
pub open spec fn style_name(s: PlannerQueryStyle) -> Seq<char> {
    match s {
        PlannerQueryStyle::ExactLookup => "ExactLookup"@,
        PlannerQueryStyle::SymbolLookup => "SymbolLookup"@,
        PlannerQueryStyle::SemanticLookup => "SemanticLookup"@,
        PlannerQueryStyle::ImpactAnalysis => "ImpactAnalysis"@,
    }
}

pub fn style_kind_name(s: PlannerQueryStyle) -> (r: &'static str)
    ensures
        r@ == style_name(s),
{
    match s {
        PlannerQueryStyle::ExactLookup => "ExactLookup",
        PlannerQueryStyle::SymbolLookup => "SymbolLookup",
        PlannerQueryStyle::SemanticLookup => "SemanticLookup",
        PlannerQueryStyle::ImpactAnalysis => "ImpactAnalysis",
    }
}

/// The names of query styles.
pub open spec fn style_names(styles: Seq<PlannerQueryStyle>) -> Seq<Seq<char>> {
    styles.map_values(|s: PlannerQueryStyle| style_name(s))
}

/// `true` or `false`.
pub open spec fn bool_text(b: bool) -> Seq<char> {
    if b { "true"@ } else { "false"@ }
}

fn bool_str(b: bool) -> (r: &'static str)
    ensures
        r@ == bool_text(b),
{
    if b { "true" } else { "false" }
}

/// A list of names in brackets, separated by commas.
pub open spec fn bracketed(names: Seq<Seq<char>>) -> Seq<char> {
    "["@ + join(names, ", "@) + "]"@
}

fn push_bracketed(out: &mut String, names: &Vec<&'static str>)
    ensures
        final(out)@ == old(out)@ + bracketed(str_views(names@)),
{
    push_str(out, "[");
    push_joined(out, names, ", ");
    push_str(out, "]");
}

/// The code and message of a trace step.
pub open spec fn step_view(s: PlannerTraceStep) -> (Seq<char>, Seq<char>) {
    (s.code@, s.message@)
}

/// The codes and messages of trace steps.
pub open spec fn step_views(steps: Seq<PlannerTraceStep>) -> Seq<(Seq<char>, Seq<char>)> {
    steps.map_values(|s: PlannerTraceStep| step_view(s))
}

/// The severity, code and message of a diagnostic.
pub open spec fn diag_view(d: PlannerDiagnostic) -> (PlannerDiagnosticSeverity, Seq<char>, Seq<char>) {
    (d.severity, d.code@, d.message@)
}

/// The severities, codes and messages of diagnostics.
pub open spec fn diag_views(ds: Seq<PlannerDiagnostic>) -> Seq<(PlannerDiagnosticSeverity, Seq<char>, Seq<char>)> {
    ds.map_values(|d: PlannerDiagnostic| diag_view(d))
}

/// The diagnostics the runtime itself reports.
pub open spec fn runtime_diagnostic_views(context: PlannerRuntimeContext) -> Seq<(PlannerDiagnosticSeverity, Seq<char>, Seq<char>)> {
    seq![(PlannerDiagnosticSeverity::Info, "planner_runtime_scaffold"@,
        "planner runtime glue is scaffolded and remains snapshot-scoped"@)]
    + (if !context.exact_available {
        seq![(PlannerDiagnosticSeverity::Warning, "exact_route_unavailable"@,
            "exact route remains unavailable in the current repository"@)]
    } else { seq![] })
    + (if !context.planner_enabled {
        seq![(PlannerDiagnosticSeverity::Warning, "planner_disabled"@,
            "planner configuration is disabled; query and explain responses will remain empty"@)]
    } else { seq![] })
}

/// How many routes ran to completion.
pub open spec fn count_executed(traces: Seq<PlannerRouteTrace>) -> nat
    decreases traces.len(),
{
    if traces.len() == 0 {
        0
    } else {
        count_executed(traces.drop_last()) + if traces.last().status == PlannerRouteStatus::Executed { 1nat } else { 0 }
    }
}

/// The note on materialized candidates.
pub open spec fn materialized_message(candidates: nat, executed: nat, groups: nat) -> Seq<char> {
    "planner explain materialized "@ + decimal(candidates) + " normalized candidate(s) across "@
        + decimal(executed) + " route(s), fused into "@ + decimal(groups) + " group(s)"@
}

/// The diagnostics of a scaffold: the runtime's, the plan's, a deferral warning when
/// nothing came back, a readiness note, and a note on materialized candidates.
pub open spec fn scaffold_diagnostic_views(
    context: PlannerRuntimeContext,
    plan: PlannerRoutePlan,
    candidates: nat,
    groups: nat,
) -> Seq<(PlannerDiagnosticSeverity, Seq<char>, Seq<char>)> {
    runtime_diagnostic_views(context) + diag_views(plan.diagnostics@)
    + (if candidates == 0 && groups == 0 {
        seq![(PlannerDiagnosticSeverity::Warning, "planner_execution_deferred"@,
            "planner route execution, score fusion, and grouping remain deferred in this contract slice"@)]
    } else { seq![] })
    + seq![(PlannerDiagnosticSeverity::Info, "planner_contract_ready"@,
        "planner protocol, config, daemon, and CLI surfaces are wired for Phase 7 implementation work"@)]
    + (if candidates > 0 {
        seq![(PlannerDiagnosticSeverity::Info, "planner_candidates_materialized"@,
            materialized_message(candidates, count_executed(plan.traces@), groups))]
    } else { seq![] })
}

/// The steps of a scaffold's trace.
pub open spec fn scaffold_steps(
    mode: PlannerModeDecision,
    ir: PlannerQueryIr,
    plan: PlannerRoutePlan,
    snapshot: ComposedSnapshot,
    params: PlannerQueryParams,
    candidates: nat,
) -> Seq<(Seq<char>, Seq<char>)> {
    seq![
        ("mode_selected"@, "selected_mode="@ + mode_name(mode.selected_mode)),
        ("query_styles"@, "primary_style="@ + style_name(ir.primary_style) + " candidate_styles="@
            + bracketed(style_names(ir.candidate_styles@))),
        ("planned_routes"@, "planned_routes="@ + bracketed(route_names(ir.planned_routes@))),
        ("route_policy"@, "policy="@ + policy_name(plan.route_policy) + " low_signal="@ + bool_text(plan.low_signal)
            + " budget_exhausted="@ + bool_text(plan.budget_exhausted) + " early_stopped="@
            + bool_text(plan.early_stopped) + " partial_results="@ + bool_text(plan.partial_results)),
        ("snapshot_bound"@, "snapshot="@ + snapshot.snapshot_id@),
        ("trace_request"@, "include_trace="@ + bool_text(params.include_trace) + " explain="@ + bool_text(params.explain)),
        ("candidate_summary"@, "raw_candidates="@ + decimal(plan.raw_candidate_count as nat)
            + " normalized_candidates="@ + decimal(candidates)),
    ]
}

/// The no-answer reason and details, if any, for a plan that returned `candidates`
/// candidates and `groups` groups.
pub open spec fn no_answer_model(
    context: PlannerRuntimeContext,
    params: PlannerQueryParams,
    plan: PlannerRoutePlan,
    candidates: nat,
    groups: u32,
) -> Option<(PlannerNoAnswerReason, Seq<Seq<char>>)> {
    if plan.ambiguity is Some {
        None
    } else if params.explain && candidates > 0 {
        None
    } else if !context.planner_enabled {
        Some((PlannerNoAnswerReason::PlannerDisabled, seq!["planner configuration is disabled for this runtime"@]))
    } else if groups > 0 {
        None
    } else if candidates > 0 {
        Some((PlannerNoAnswerReason::ExecutionDeferred, seq![
            "normalized candidates are available, but score fusion and grouping remain deferred"@,
            "use planner_explain to inspect route-level candidates during bring-up"@]))
    } else if count_selected_available(plan.traces@) as u32 == 0 {
        Some((PlannerNoAnswerReason::NoRouteAvailable,
            seq!["no selected planner route is currently available"@]
            + (if plan.budget_exhausted {
                seq!["the configured route budget exhausted lower-priority routes before execution"@]
            } else { seq![] })))
    } else if exists|i: int| 0 <= i < plan.traces@.len() && #[trigger] plan.traces@[i].status == PlannerRouteStatus::Deferred
        && plan.traces@[i].selected {
        Some((PlannerNoAnswerReason::ExecutionDeferred,
            seq!["selected route execution remains deferred in this planner workspace"@]))
    } else if plan.raw_candidate_count > 0 {
        Some((PlannerNoAnswerReason::FiltersExcludedAllCandidates,
            seq!["route execution produced candidates, but planner filters removed them all"@]))
    } else {
        Some((PlannerNoAnswerReason::NoCandidateMatched,
            seq!["no selected route produced a normalized candidate"@]
            + (if plan.low_signal {
                seq!["add a quoted literal, exact symbol, file path, or selected context to ground the planner deterministically"@]
            } else { seq![] })
            + (if plan.budget_exhausted {
                seq!["the planner route budget exhausted lower-priority routes before they were attempted"@]
            } else { seq![] })))
    }
}

/// Whether `n` is the no-answer described by `m`.
pub open spec fn is_no_answer(n: Option<PlannerNoAnswer>, m: Option<(PlannerNoAnswerReason, Seq<Seq<char>>)>) -> bool {
    match (n, m) {
        (None, None) => true,
        (Some(a), Some((reason, details))) => a.reason == reason && views(a.details@) == details,
        _ => false,
    }
}

fn lines(items: Vec<&'static str>) -> (r: Vec<String>)
    ensures
        views(r@) == str_views(items@),
{
    let mut r: Vec<String> = Vec::new();
    let mut i: usize = 0;
    while i < items.len()
        invariant
            0 <= i <= items@.len(),
            views(r@) == str_views(items@.subrange(0, i as int)),
        decreases items@.len() - i,
    {
        let ghost before = r@;
        r.push(items[i].to_owned());
        assert(views(r@) =~= views(before).push(items@[i as int]@));
        assert(str_views(items@.subrange(0, i + 1)) =~= str_views(items@.subrange(0, i as int)).push(items@[i as int]@));
        i = i + 1;
    }
    assert(items@.subrange(0, items@.len() as int) =~= items@);
    r
}

fn no_answer(reason: PlannerNoAnswerReason, details: Vec<&'static str>) -> (r: Option<PlannerNoAnswer>)
    ensures
        r matches Some(a) && a.reason == reason && views(a.details@) == str_views(details@),
{
    Some(PlannerNoAnswer { reason, details: lines(details) })
}

/// Why a plan gives no answer, if it gives none: never when it is ambiguous or an explain
/// request found candidates; otherwise a disabled planner, candidates that did not
/// become groups, no available selected route, a deferred route, filters that removed
/// every candidate, or no candidate at all, in that order.
pub fn no_answer_for(
    context: &PlannerRuntimeContext,
    params: &PlannerQueryParams,
    route_plan: &PlannerRoutePlan,
    candidate_count: usize,
    groups_returned: u32,
) -> (r: Option<PlannerNoAnswer>)
    ensures
        is_no_answer(r, no_answer_model(*context, *params, *route_plan, candidate_count as nat, groups_returned)),
{
    if route_plan.ambiguity.is_some() {
        return None;
    }
    if params.explain && candidate_count > 0 {
        return None;
    }
    if !context.planner_enabled {
        let items = vec!["planner configuration is disabled for this runtime"];
        assert(str_views(items@) =~= seq!["planner configuration is disabled for this runtime"@]);
        return no_answer(PlannerNoAnswerReason::PlannerDisabled, items);
    }
    if groups_returned > 0 {
        return None;
    }
    if candidate_count > 0 {
        let items = vec![
            "normalized candidates are available, but score fusion and grouping remain deferred",
            "use planner_explain to inspect route-level candidates during bring-up",
        ];
        assert(str_views(items@) =~= seq![
            "normalized candidates are available, but score fusion and grouping remain deferred"@,
            "use planner_explain to inspect route-level candidates during bring-up"@]);
        return no_answer(PlannerNoAnswerReason::ExecutionDeferred, items);
    }
    if route_plan.selected_routes_available() == 0 {
        let mut items = vec!["no selected planner route is currently available"];
        if route_plan.budget_exhausted {
            items.push("the configured route budget exhausted lower-priority routes before execution");
        }
        assert(str_views(items@) =~= seq!["no selected planner route is currently available"@]
            + (if route_plan.budget_exhausted {
                seq!["the configured route budget exhausted lower-priority routes before execution"@]
            } else { seq![] }));
        return no_answer(PlannerNoAnswerReason::NoRouteAvailable, items);
    }
    if route_plan.has_deferred_routes() {
        let items = vec!["selected route execution remains deferred in this planner workspace"];
        assert(str_views(items@) =~= seq!["selected route execution remains deferred in this planner workspace"@]);
        return no_answer(PlannerNoAnswerReason::ExecutionDeferred, items);
    }
    if route_plan.raw_candidate_count > 0 {
        let items = vec!["route execution produced candidates, but planner filters removed them all"];
        assert(str_views(items@) =~= seq!["route execution produced candidates, but planner filters removed them all"@]);
        return no_answer(PlannerNoAnswerReason::FiltersExcludedAllCandidates, items);
    }
    let mut items = vec!["no selected route produced a normalized candidate"];
    if route_plan.low_signal {
        items.push("add a quoted literal, exact symbol, file path, or selected context to ground the planner deterministically");
    }
    if route_plan.budget_exhausted {
        items.push("the planner route budget exhausted lower-priority routes before they were attempted");
    }
    assert(str_views(items@) =~= seq!["no selected route produced a normalized candidate"@]
        + (if route_plan.low_signal {
            seq!["add a quoted literal, exact symbol, file path, or selected context to ground the planner deterministically"@]
        } else { seq![] })
        + (if route_plan.budget_exhausted {
            seq!["the planner route budget exhausted lower-priority routes before they were attempted"@]
        } else { seq![] }));
    no_answer(PlannerNoAnswerReason::NoCandidateMatched, items)
}


/// Whether `c` is the public form of candidate `n`.
pub open spec fn is_public_of(c: PlannerCandidate, n: NormalizedPlannerCandidate) -> bool {
    &&& c.candidate_id == n.candidate_id
    &&& c.route_kind == n.route_kind
    &&& c.label == n.label
    &&& c.anchor == n.anchor
    &&& c.rank == n.rank
    &&& c.route_score == n.engine_score
    &&& c.normalized_score == n.normalized_score
    &&& c.evidence.deep_view() == n.evidence.deep_view()
    &&& c.notes@.len() == n.notes@.len() + n.engine_diagnostics@.len()
    &&& forall|i: int| 0 <= i < n.notes@.len() ==> c.notes@[i] == n.notes@[i]
    &&& forall|i: int| 0 <= i < n.engine_diagnostics@.len() ==>
        #[trigger] c.notes@[n.notes@.len() + i]@ == "engine diagnostic: "@ + n.engine_diagnostics@[i]@
}

/// Whether `groups` are the plan's candidates fused, grouped under `limit` and decorated.
pub open spec fn scaffold_groups(groups: Seq<PlannerResultGroup>, plan: PlannerRoutePlan, limit: u32) -> bool {
    exists|fused: Seq<FusedCandidate>, grouped: Seq<PlannerResultGroup>|
        #![trigger fusion_of(fused, plan.candidates@), grouping_of(grouped, fused, limit)]
        fusion_of(fused, plan.candidates@) && grouping_of(grouped, fused, limit)
            && groups.len() == grouped.len()
            && forall|i: int| 0 <= i < grouped.len() ==> decorated(#[trigger] groups[i], grouped[i], plan, next_score(grouped, i))
}

/// Whether `out` is the scaffold built from a plan for a request.
pub open spec fn scaffold_of(
    out: PlannerScaffoldOutput,
    context: PlannerRuntimeContext,
    snapshot: ComposedSnapshot,
    params: PlannerQueryParams,
    mode: PlannerModeDecision,
    ir: PlannerQueryIr,
    plan: PlannerRoutePlan,
) -> bool {
    let n = plan.candidates@.len();
    &&& out.mode == mode
    &&& out.ir == ir
    &&& out.candidates@.len() == n
    &&& forall|i: int| 0 <= i < n ==> is_public_of(#[trigger] out.candidates@[i], plan.candidates@[i])
    &&& scaffold_groups(out.groups@, plan, params.limit)
    &&& diag_views(out.diagnostics@) == scaffold_diagnostic_views(context, plan, n, out.groups@.len())
    &&& out.trace.planner_version@ == PLANNER_LAYOUT_VERSION@
    &&& out.trace.selected_mode == mode.selected_mode
    &&& step_views(out.trace.steps@) == scaffold_steps(mode, ir, plan, snapshot, params, n)
    &&& out.trace.routes@ == plan.traces@
    &&& is_no_answer(out.no_answer, no_answer_model(context, params, plan, n, out.groups@.len() as u32))
    &&& out.ambiguity == plan.ambiguity
    &&& out.stats == (PlannerQueryStats {
        limit_requested: params.limit,
        routes_considered: plan.traces@.len() as u32,
        routes_available: count_available(plan.traces@) as u32,
        candidates_considered: n as u32,
        groups_returned: out.groups@.len() as u32,
        elapsed_ms: 0,
    })
}

fn public_candidates(candidates: &Vec<NormalizedPlannerCandidate>) -> (r: Vec<PlannerCandidate>)
    ensures
        r@.len() == candidates@.len(),
        forall|i: int| 0 <= i < candidates@.len() ==> is_public_of(#[trigger] r@[i], candidates@[i]),
{
    let mut r: Vec<PlannerCandidate> = Vec::new();
    let mut i: usize = 0;
    while i < candidates.len()
        invariant
            0 <= i <= candidates@.len(),
            r@.len() == i,
            forall|k: int| 0 <= k < i ==> is_public_of(#[trigger] r@[k], candidates@[k]),
        decreases candidates@.len() - i,
    {
        r.push(candidates[i].to_public_candidate());
        i = i + 1;
    }
    r
}

fn executed_count(traces: &Vec<PlannerRouteTrace>) -> (n: usize)
    ensures
        n == count_executed(traces@),
{
    let mut count: usize = 0;
    let mut i: usize = 0;
    while i < traces.len()
        invariant
            0 <= i <= traces@.len(),
            count == count_executed(traces@.subrange(0, i as int)),
            count <= i,
        decreases traces@.len() - i,
    {
        assert(traces@.subrange(0, i + 1).drop_last() =~= traces@.subrange(0, i as int));
        if traces[i].status == PlannerRouteStatus::Executed {
            count = count + 1;
        }
        i = i + 1;
    }
    assert(traces@.subrange(0, traces@.len() as int) =~= traces@);
    count
}

fn push_diagnostic(out: &mut Vec<PlannerDiagnostic>, d: PlannerDiagnostic)
    ensures
        diag_views(final(out)@) == diag_views(old(out)@).push(diag_view(d)),
{
    out.push(d);
    assert(diag_views(out@) =~= diag_views(old(out)@).push(diag_view(d)));
}

fn step(code: &str, message: String) -> (s: PlannerTraceStep)
    ensures
        step_view(s) == (code@, message@),
{
    PlannerTraceStep { code: code.to_owned(), message }
}

fn style_name_list(styles: &Vec<PlannerQueryStyle>) -> (r: Vec<&'static str>)
    ensures
        str_views(r@) == style_names(styles@),
{
    let mut r: Vec<&'static str> = Vec::new();
    let mut i: usize = 0;
    while i < styles.len()
        invariant
            0 <= i <= styles@.len(),
            str_views(r@) == style_names(styles@.subrange(0, i as int)),
        decreases styles@.len() - i,
    {
        let ghost before = r@;
        r.push(style_kind_name(styles[i]));
        assert(str_views(r@) =~= str_views(before).push(style_name(styles@[i as int])));
        assert(style_names(styles@.subrange(0, i + 1)) =~= style_names(styles@.subrange(0, i as int)).push(style_name(styles@[i as int])));
        i = i + 1;
    }
    assert(styles@.subrange(0, styles@.len() as int) =~= styles@);
    r
}

fn route_name_list(routes: &Vec<crate::protocol::planner::PlannerRouteKind>) -> (r: Vec<&'static str>)
    ensures
        str_views(r@) == route_names(routes@),
{
    let mut r: Vec<&'static str> = Vec::new();
    let mut i: usize = 0;
    while i < routes.len()
        invariant
            0 <= i <= routes@.len(),
            str_views(r@) == route_names(routes@.subrange(0, i as int)),
        decreases routes@.len() - i,
    {
        let ghost before = r@;
        r.push(route_kind_name(routes[i]));
        assert(str_views(r@) =~= str_views(before).push(crate::planner::trust_payloads::route_name(routes@[i as int])));
        assert(route_names(routes@.subrange(0, i + 1)) =~= route_names(routes@.subrange(0, i as int)).push(crate::planner::trust_payloads::route_name(routes@[i as int])));
        i = i + 1;
    }
    assert(routes@.subrange(0, routes@.len() as int) =~= routes@);
    r
}

fn scaffold_trace_steps(
    mode: &PlannerModeDecision,
    ir: &PlannerQueryIr,
    plan: &PlannerRoutePlan,
    snapshot: &ComposedSnapshot,
    params: &PlannerQueryParams,
    candidates: usize,
) -> (r: Vec<PlannerTraceStep>)
    ensures
        step_views(r@) == scaffold_steps(*mode, *ir, *plan, *snapshot, *params, candidates as nat),
{
    let mut m1 = owned("selected_mode=");
    push_str(&mut m1, mode_kind_name(mode.selected_mode));

    let mut m2 = owned("primary_style=");
    push_str(&mut m2, style_kind_name(ir.primary_style));
    push_str(&mut m2, " candidate_styles=");
    push_bracketed(&mut m2, &style_name_list(&ir.candidate_styles));

    let mut m3 = owned("planned_routes=");
    push_bracketed(&mut m3, &route_name_list(&ir.planned_routes));

    let mut m4 = owned("policy=");
    push_str(&mut m4, policy_kind_name(plan.route_policy));
    push_str(&mut m4, " low_signal=");
    push_str(&mut m4, bool_str(plan.low_signal));
    push_str(&mut m4, " budget_exhausted=");
    push_str(&mut m4, bool_str(plan.budget_exhausted));
    push_str(&mut m4, " early_stopped=");
    push_str(&mut m4, bool_str(plan.early_stopped));
    push_str(&mut m4, " partial_results=");
    push_str(&mut m4, bool_str(plan.partial_results));

    let mut m5 = owned("snapshot=");
    push_str(&mut m5, snapshot.snapshot_id.as_str());

    let mut m6 = owned("include_trace=");
    push_str(&mut m6, bool_str(params.include_trace));
    push_str(&mut m6, " explain=");
    push_str(&mut m6, bool_str(params.explain));

    let mut m7 = owned("raw_candidates=");
    push_str(&mut m7, decimal_string(plan.raw_candidate_count as u64).as_str());
    push_str(&mut m7, " normalized_candidates=");
    push_str(&mut m7, decimal_string(candidates as u64).as_str());

    let r = vec![
        step("mode_selected", m1),
        step("query_styles", m2),
        step("planned_routes", m3),
        step("route_policy", m4),
        step("snapshot_bound", m5),
        step("trace_request", m6),
        step("candidate_summary", m7),
    ];
    assert(step_views(r@) =~= scaffold_steps(*mode, *ir, *plan, *snapshot, *params, candidates as nat));
    r
}

fn scaffold_diagnostics(
    context: &PlannerRuntimeContext,
    plan: &PlannerRoutePlan,
    candidates: usize,
    groups: usize,
) -> (r: Vec<PlannerDiagnostic>)
    ensures
        diag_views(r@) == scaffold_diagnostic_views(*context, *plan, candidates as nat, groups as nat),
{
    let mut out = runtime_diagnostics(context);
    assert(diag_views(out@) =~= runtime_diagnostic_views(*context));
    let mut i: usize = 0;
    let ghost start = diag_views(out@);
    while i < plan.diagnostics.len()
        invariant
            0 <= i <= plan.diagnostics@.len(),
            diag_views(out@) == start + diag_views(plan.diagnostics@.subrange(0, i as int)),
        decreases plan.diagnostics@.len() - i,
    {
        push_diagnostic(&mut out, plan.diagnostics[i].deep_copy());
        assert(diag_views(plan.diagnostics@.subrange(0, i + 1)) =~= diag_views(plan.diagnostics@.subrange(0, i as int)).push(diag_view(plan.diagnostics@[i as int])));
        i = i + 1;
    }
    assert(plan.diagnostics@.subrange(0, plan.diagnostics@.len() as int) =~= plan.diagnostics@);
    let ghost second = diag_views(out@);
    if candidates == 0 && groups == 0 {
        push_diagnostic(&mut out, scaffold_warning("planner_execution_deferred",
            "planner route execution, score fusion, and grouping remain deferred in this contract slice"));
    }
    let ghost third = diag_views(out@);
    push_diagnostic(&mut out, scaffold_info("planner_contract_ready",
        "planner protocol, config, daemon, and CLI surfaces are wired for Phase 7 implementation work"));
    let ghost fourth = diag_views(out@);
    if candidates > 0 {
        let executed = executed_count(&plan.traces);
        let mut message = owned("planner explain materialized ");
        push_str(&mut message, decimal_string(candidates as u64).as_str());
        push_str(&mut message, " normalized candidate(s) across ");
        push_str(&mut message, decimal_string(executed as u64).as_str());
        push_str(&mut message, " route(s), fused into ");
        push_str(&mut message, decimal_string(groups as u64).as_str());
        push_str(&mut message, " group(s)");
        push_diagnostic(&mut out, scaffold_info("planner_candidates_materialized", message.as_str()));
    }
    assert(diag_views(out@) =~= scaffold_diagnostic_views(*context, *plan, candidates as nat, groups as nat));
    out
}

/// Whether `resp` is the query response assembled from scaffold `out`.
pub open spec fn query_response_of(resp: PlannerQueryResponse, out: PlannerScaffoldOutput, snapshot: ComposedSnapshot, params: PlannerQueryParams) -> bool {
    &&& resp.repo_id@ == snapshot.repo_id@
    &&& resp.snapshot_id@ == snapshot.snapshot_id@
    &&& resp.mode == out.mode
    &&& resp.ir == out.ir
    &&& resp.groups == out.groups
    &&& resp.diagnostics == out.diagnostics
    &&& resp.trace == (if params.include_trace || params.explain { Some(out.trace) } else { None })
    &&& resp.no_answer == out.no_answer
    &&& resp.ambiguity == out.ambiguity
    &&& resp.stats == out.stats
}

impl PlannerEngine {
    /// Assembles a query response from a plan; the trace is included when the request
    /// asks for a trace or an explanation.
    pub fn query_scaffold(
        &self,
        workspace: &PlannerWorkspace,
        context: &PlannerRuntimeContext,
        snapshot: &ComposedSnapshot,
        params: &PlannerQueryParams,
        mode: PlannerModeDecision,
        ir: PlannerQueryIr,
        route_plan: PlannerRoutePlan,
        fusion: &ScoreFusion,
        grouping: &ResultGrouping,
        trust_payloads: &TrustPayloadFactory,
    ) -> (r: Result<PlannerQueryResponse, PlannerError>)
        ensures
            r matches Ok(resp) && exists|out: PlannerScaffoldOutput|
                #[trigger] scaffold_of(out, *context, *snapshot, *params, mode, ir, route_plan)
                    && query_response_of(resp, out, *snapshot, *params),
    {
        let ghost (m, i, p) = (mode, ir, route_plan);
        let scaffold = match self.build_scaffold(workspace, context, snapshot, params, mode, ir, route_plan, fusion, grouping, trust_payloads) {
            Ok(s) => s,
            Err(e) => return Err(e),
        };
        let ghost out = scaffold;
        let PlannerScaffoldOutput { mode, ir, candidates, groups, diagnostics, trace, no_answer, ambiguity, stats } = scaffold;
        let resp = PlannerQueryResponse {
            repo_id: snapshot.repo_id.clone(),
            snapshot_id: snapshot.snapshot_id.clone(),
            mode,
            ir,
            groups,
            diagnostics,
            trace: if params.include_trace || params.explain { Some(trace) } else { None },
            no_answer,
            ambiguity,
            stats,
        };
        assert(scaffold_of(out, *context, *snapshot, *params, m, i, p));
        Ok(resp)
    }

    /// Assembles an explain response from a plan: the query response's content plus the
    /// route-level candidates, always with the trace.
    pub fn explain_scaffold(
        &self,
        workspace: &PlannerWorkspace,
        context: &PlannerRuntimeContext,
        snapshot: &ComposedSnapshot,
        params: &PlannerQueryParams,
        mode: PlannerModeDecision,
        ir: PlannerQueryIr,
        route_plan: PlannerRoutePlan,
        fusion: &ScoreFusion,
        grouping: &ResultGrouping,
        trust_payloads: &TrustPayloadFactory,
    ) -> (r: Result<PlannerExplainResponse, PlannerError>)
        ensures
            r matches Ok(resp) && exists|out: PlannerScaffoldOutput|
                #[trigger] scaffold_of(out, *context, *snapshot, *params, mode, ir, route_plan) && {
                &&& resp.repo_id@ == snapshot.repo_id@
                &&& resp.snapshot_id@ == snapshot.snapshot_id@
                &&& resp.mode == out.mode
                &&& resp.ir == out.ir
                &&& resp.candidates == out.candidates
                &&& resp.groups == out.groups
                &&& resp.diagnostics == out.diagnostics
                &&& resp.trace == Some(out.trace)
                &&& resp.no_answer == out.no_answer
                &&& resp.ambiguity == out.ambiguity
                &&& resp.stats == out.stats
            },
    {
        let ghost (m, i, p) = (mode, ir, route_plan);
        let scaffold = match self.build_scaffold(workspace, context, snapshot, params, mode, ir, route_plan, fusion, grouping, trust_payloads) {
            Ok(s) => s,
            Err(e) => return Err(e),
        };
        let ghost out = scaffold;
        let PlannerScaffoldOutput { mode, ir, candidates, groups, diagnostics, trace, no_answer, ambiguity, stats } = scaffold;
        let resp = PlannerExplainResponse {
            repo_id: snapshot.repo_id.clone(),
            snapshot_id: snapshot.snapshot_id.clone(),
            mode,
            ir,
            candidates,
            groups,
            diagnostics,
            trace: Some(trace),
            no_answer,
            ambiguity,
            stats,
        };
        assert(scaffold_of(out, *context, *snapshot, *params, m, i, p));
        Ok(resp)
    }

    /// Fuses, groups and decorates the plan's candidates and gathers the diagnostics,
    /// trace, no-answer and statistics of the response.
    #[verifier::rlimit(40)]
    fn build_scaffold(
        &self,
        workspace: &PlannerWorkspace,
        context: &PlannerRuntimeContext,
        snapshot: &ComposedSnapshot,
        params: &PlannerQueryParams,
        mode: PlannerModeDecision,
        ir: PlannerQueryIr,
        route_plan: PlannerRoutePlan,
        fusion: &ScoreFusion,
        grouping: &ResultGrouping,
        trust_payloads: &TrustPayloadFactory,
    ) -> (r: Result<PlannerScaffoldOutput, PlannerError>)
        ensures
            r matches Ok(out) && scaffold_of(out, *context, *snapshot, *params, mode, ir, route_plan),
    {
        let ghost plan = route_plan;
        let candidates = public_candidates(&route_plan.candidates);
        let candidate_count = route_plan.candidates.len();
        let mut route_plan = route_plan;
        let mut owned_candidates: Vec<NormalizedPlannerCandidate> = Vec::new();
        std::mem::swap(&mut owned_candidates, &mut route_plan.candidates);
        let ghost fused_input = owned_candidates@;
        assert(fused_input == plan.candidates@);
        let fused = fusion.fuse(owned_candidates, &route_plan.traces, route_plan.route_policy);
        let ghost fused_model = fused@;
        let grouped = grouping.group(fused, params.limit);
        let ghost grouped_model = grouped@;
        let decorated_output = trust_payloads.decorate(grouped, &TrustDecoratorContext { route_plan: &route_plan, ir: &ir });
        let groups = decorated_output.groups;
        assert forall|k: int| 0 <= k < grouped_model.len() implies decorated(#[trigger] groups@[k], grouped_model[k], plan, next_score(grouped_model, k)) by {
            assert(decorated(groups@[k], grouped_model[k], route_plan, next_score(grouped_model, k)));
        }
        assert(scaffold_groups(groups@, plan, params.limit));
        let diagnostics = scaffold_diagnostics(context, &route_plan, candidate_count, groups.len());
        let routes_considered = route_plan.routes_considered();
        let routes_available = route_plan.routes_available();
        let groups_returned = groups.len() as u32;
        let no_answer = no_answer_for(context, params, &route_plan, candidate_count, groups_returned);
        let steps = scaffold_trace_steps(&mode, &ir, &route_plan, snapshot, params, candidate_count);
        let PlannerRoutePlan { traces, ambiguity, .. } = route_plan;
        let trace = PlannerTrace {
            planner_version: planner_version(),
            selected_mode: mode.selected_mode,
            steps,
            routes: traces,
        };
        Ok(PlannerScaffoldOutput {
            mode,
            ir,
            candidates,
            groups,
            diagnostics,
            trace,
            no_answer,
            ambiguity,
            stats: PlannerQueryStats {
                limit_requested: params.limit,
                routes_considered,
                routes_available,
                candidates_considered: candidate_count as u32,
                groups_returned,
                elapsed_ms: 0,
            },
        })
    }
}

} // verus!
