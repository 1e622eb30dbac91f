use vstd::prelude::*;

use crate::planner::common::{budget_for_route, policy_budget, scaffold_info, scaffold_warning};
use crate::planner::daemon_integration::{is_diagnostic, PlannerRuntimeContext};
use crate::planner::exact_route::UnavailableExactRouteProvider;
use crate::planner::route_adapters::{
    full_filter_capabilities, full_filter_set, NormalizedPlannerCandidate, PlannerRouteAdapter,
    PlannerRouteCapabilityReport, PlannerRouteConstraints, PlannerRouteExecution,
    PlannerRouteExecutionState, PlannerRouteReadiness, PlannerRouteRequest,
};
use crate::planner::route_policy::{contains_route, law_policy_selects_planned_routes, plan_route_policy, policy_for, PlannerRoutePolicy, PlannerRoutePolicyKind};
use crate::protocol::planner::{
    PlannerAmbiguity, PlannerDiagnostic, PlannerDiagnosticSeverity, PlannerQueryIr, PlannerRouteBudget,
    PlannerRouteKind, PlannerRouteStatus, PlannerRouteTrace,
};
use crate::planner::copy::{copy_vec, DeepCopy};
use crate::planner::route_adapters::{str_views, unsupported_filter_names, PlannerRouteCapabilityReport as CapabilityReport};
use crate::planner::trust_payloads::{join, policy_kind_name, policy_name, push_joined, route_kind_name, route_name};
use crate::protocol::impact::ImpactEntityRef;
use crate::protocol::planner::{
    PlannerAmbiguityReason, PlannerAnchor, PlannerContextRef, PlannerQueryFilters, PlannerRouteSkipReason,
};
use crate::protocol::snapshot::ComposedSnapshot;
use crate::protocol::symbols::{SourceSpan, SymbolId};
use crate::text::{concat2, contains_str, decimal, decimal_string, has_sub, opt_view, owned, push_str, views};

verus! {

/// What the planner decided and gathered for one query, route by route.
#[derive(Debug, Clone, PartialEq, Eq)]
pub struct PlannerRoutePlan {
    pub traces: Vec<PlannerRouteTrace>,
    pub capabilities: Vec<PlannerRouteCapabilityReport>,
    pub candidates: Vec<NormalizedPlannerCandidate>,
    pub diagnostics: Vec<PlannerDiagnostic>,
    pub ambiguity: Option<PlannerAmbiguity>,
    pub raw_candidate_count: u32,
    pub route_policy: PlannerRoutePolicyKind,
    pub low_signal: bool,
    pub partial_results: bool,
    pub budget_exhausted: bool,
    pub early_stopped: bool,
}

/// The number of traces whose route is available.
pub open spec fn count_available(traces: Seq<PlannerRouteTrace>) -> nat
    decreases traces.len(),
{
    if traces.len() == 0 {
        0
    } else {
        count_available(traces.drop_last()) + if traces.last().available { 1nat } else { 0 }
    }
}

/// The number of traces whose route is both selected and available.
pub open spec fn count_selected_available(traces: Seq<PlannerRouteTrace>) -> nat
    decreases traces.len(),
{
    if traces.len() == 0 {
        0
    } else {
        count_selected_available(traces.drop_last()) + if traces.last().available && traces.last().selected { 1nat } else { 0 }
    }
}

proof fn lemma_counts_bounded(traces: Seq<PlannerRouteTrace>)
    ensures
        count_selected_available(traces) <= count_available(traces) <= traces.len(),
    decreases traces.len(),
{
    if traces.len() > 0 {
        lemma_counts_bounded(traces.drop_last());
    }
}

/// A plan's selected and available routes are no more than its available routes, which
/// are no more than the routes it considered, one per trace.
pub proof fn law_route_counts_ordered(plan: PlannerRoutePlan)
    requires
        plan.traces@.len() <= u32::MAX,
    ensures
        count_selected_available(plan.traces@) as u32 <= count_available(plan.traces@) as u32,
        count_available(plan.traces@) as u32 <= plan.traces@.len() as u32,
{
    lemma_counts_bounded(plan.traces@);
}

impl PlannerRoutePlan {
    /// How many routes the plan considered.
    pub fn routes_considered(&self) -> (n: u32)
        ensures
            n == self.traces@.len() as u32,
    {
        self.traces.len() as u32
    }

    /// How many considered routes are available.
    pub fn routes_available(&self) -> (n: u32)
        ensures
            n == count_available(self.traces@) as u32,
    {
        let mut count: usize = 0;
        let mut i: usize = 0;
        while i < self.traces.len()
            invariant
                0 <= i <= self.traces@.len(),
                count == count_available(self.traces@.subrange(0, i as int)),
            decreases self.traces@.len() - i,
        {
            assert(self.traces@.subrange(0, i + 1).drop_last() =~= self.traces@.subrange(0, i as int));
            proof {
                lemma_counts_bounded(self.traces@.subrange(0, i as int));
            }
            if self.traces[i].available {
                count = count + 1;
            }
            i = i + 1;
        }
        assert(self.traces@.subrange(0, self.traces@.len() as int) =~= self.traces@);
        count as u32
    }

    /// How many selected routes are available.
    pub fn selected_routes_available(&self) -> (n: u32)
        ensures
            n == count_selected_available(self.traces@) as u32,
    {
        let mut count: usize = 0;
        let mut i: usize = 0;
        while i < self.traces.len()
            invariant
                0 <= i <= self.traces@.len(),
                count == count_selected_available(self.traces@.subrange(0, i as int)),
            decreases self.traces@.len() - i,
        {
            assert(self.traces@.subrange(0, i + 1).drop_last() =~= self.traces@.subrange(0, i as int));
            proof {
                lemma_counts_bounded(self.traces@.subrange(0, i as int));
            }
            if self.traces[i].available && self.traces[i].selected {
                count = count + 1;
            }
            i = i + 1;
        }
        assert(self.traces@.subrange(0, self.traces@.len() as int) =~= self.traces@);
        count as u32
    }

    /// Whether some selected route was deferred.
    pub fn has_deferred_routes(&self) -> (r: bool)
        ensures
            r == exists|i: int| 0 <= i < self.traces@.len() && #[trigger] self.traces@[i].status == PlannerRouteStatus::Deferred
                && self.traces@[i].selected,
    {
        let mut i: usize = 0;
        while i < self.traces.len()
            invariant
                0 <= i <= self.traces@.len(),
                forall|k: int| 0 <= k < i ==> !(#[trigger] self.traces@[k].status == PlannerRouteStatus::Deferred && self.traces@[k].selected),
            decreases self.traces@.len() - i,
        {
            if self.traces[i].status == PlannerRouteStatus::Deferred && self.traces[i].selected {
                assert(self.traces@[i as int].status == PlannerRouteStatus::Deferred);
                return true;
            }
            i = i + 1;
        }
        false
    }
}

/// Which selected routes fit the query's budget.
#[derive(Debug, Clone, PartialEq, Eq, Default)]
pub struct BudgetSelection {
    pub executable_routes: Vec<PlannerRouteKind>,
    pub zero_budget_routes: Vec<PlannerRouteKind>,
    pub exhausted_routes: Vec<PlannerRouteKind>,
    pub budget_exhausted: bool,
}

/// The state of budget selection: routes to run, routes with no budget, routes past the
/// total budget, whether the budget ran out, the time reserved, and the first route that
/// alone exceeds the total.
pub struct SelectionModel {
    pub executable: Seq<PlannerRouteKind>,
    pub zero_budget: Seq<PlannerRouteKind>,
    pub exhausted: Seq<PlannerRouteKind>,
    pub budget_exhausted: bool,
    pub reserved_ms: u64,
    pub deferred_first: Option<PlannerRouteKind>,
}

/// `a + b`, saturating at `u64::MAX`.
pub open spec fn sat_add(a: u64, b: u64) -> u64 {
    if a + b > u64::MAX { u64::MAX } else { (a + b) as u64 }
}

/// Budget selection after considering each route of `routes` in turn: a route with a zero
/// timeout or candidate budget is skipped; once some route runs, a route that would push
/// the reserved time past the total is skipped; a first route that alone exceeds the total
/// is put aside; otherwise the route runs and its time is reserved.
pub open spec fn select_routes(budgets: Seq<crate::protocol::planner::PlannerRouteBudget>, total_ms: u64, routes: Seq<PlannerRouteKind>) -> SelectionModel
    decreases routes.len(),
{
    if routes.len() == 0 {
        SelectionModel {
            executable: Seq::empty(),
            zero_budget: Seq::empty(),
            exhausted: Seq::empty(),
            budget_exhausted: false,
            reserved_ms: 0,
            deferred_first: None,
        }
    } else {
        let s = select_routes(budgets, total_ms, routes.drop_last());
        let route_kind = routes.last();
        let budget = policy_budget(budgets, route_kind);
        if budget.timeout_ms == 0 || budget.max_candidates == 0 {
            SelectionModel { zero_budget: s.zero_budget.push(route_kind), budget_exhausted: true, ..s }
        } else if s.executable.len() > 0 && sat_add(s.reserved_ms, budget.timeout_ms) > total_ms {
            SelectionModel { exhausted: s.exhausted.push(route_kind), budget_exhausted: true, ..s }
        } else if s.executable.len() == 0 && budget.timeout_ms > total_ms {
            SelectionModel { deferred_first: Some(route_kind), budget_exhausted: true, ..s }
        } else {
            SelectionModel {
                reserved_ms: sat_add(s.reserved_ms, budget.timeout_ms),
                executable: s.executable.push(route_kind),
                ..s
            }
        }
    }
}

/// Chooses which of the selected routes fit the query's budget; when none fits but a
/// first route alone exceeded the total, that route runs anyway.
pub fn select_budgeted_routes(ir: &PlannerQueryIr, selected_routes: &Vec<PlannerRouteKind>) -> (sel: BudgetSelection)
    ensures
        ({
            let m = select_routes(ir.budgets.route_budgets@, ir.budgets.total_timeout_ms, selected_routes@);
            &&& sel.zero_budget_routes@ == m.zero_budget
            &&& sel.exhausted_routes@ == m.exhausted
            &&& sel.budget_exhausted == m.budget_exhausted
            &&& sel.executable_routes@ == (if m.executable.len() == 0 && m.deferred_first is Some {
                seq![m.deferred_first->0]
            } else {
                m.executable
            })
        }),
{
    let ghost budgets = ir.budgets.route_budgets@;
    let total = ir.budgets.total_timeout_ms;
    let mut executable: Vec<PlannerRouteKind> = Vec::new();
    let mut zero_budget: Vec<PlannerRouteKind> = Vec::new();
    let mut exhausted: Vec<PlannerRouteKind> = Vec::new();
    let mut budget_exhausted = false;
    let mut reserved: u64 = 0;
    let mut deferred_first: Option<PlannerRouteKind> = None;
    let mut i: usize = 0;
    while i < selected_routes.len()
        invariant
            0 <= i <= selected_routes@.len(),
            budgets == ir.budgets.route_budgets@,
            total == ir.budgets.total_timeout_ms,
            ({
                let m = select_routes(budgets, total, selected_routes@.subrange(0, i as int));
                &&& executable@ == m.executable
                &&& zero_budget@ == m.zero_budget
                &&& exhausted@ == m.exhausted
                &&& budget_exhausted == m.budget_exhausted
                &&& reserved == m.reserved_ms
                &&& deferred_first == m.deferred_first
            }),
        decreases selected_routes@.len() - i,
    {
        assert(selected_routes@.subrange(0, i + 1).drop_last() =~= selected_routes@.subrange(0, i as int));
        let route_kind = selected_routes[i];
        let budget = budget_for_route(&ir.budgets, route_kind);
        let sum: u64 = if reserved > u64::MAX - budget.timeout_ms { u64::MAX } else { reserved + budget.timeout_ms };
        if budget.timeout_ms == 0 || budget.max_candidates == 0 {
            zero_budget.push(route_kind);
            budget_exhausted = true;
        } else if executable.len() > 0 && sum > total {
            exhausted.push(route_kind);
            budget_exhausted = true;
        } else if executable.len() == 0 && budget.timeout_ms > total {
            deferred_first = Some(route_kind);
            budget_exhausted = true;
        } else {
            reserved = sum;
            executable.push(route_kind);
        }
        i = i + 1;
    }
    assert(selected_routes@.subrange(0, selected_routes@.len() as int) =~= selected_routes@);
    if executable.len() == 0 {
        if let Some(route_kind) = deferred_first {
            executable.push(route_kind);
            assert(executable@ =~= seq![route_kind]);
        }
    }
    BudgetSelection {
        executable_routes: executable,
        zero_budget_routes: zero_budget,
        exhausted_routes: exhausted,
        budget_exhausted,
    }
}


/// The public routes, in the planner's fixed order.
pub open spec fn route_order() -> Seq<PlannerRouteKind> {
    seq![PlannerRouteKind::Exact, PlannerRouteKind::Symbol, PlannerRouteKind::Semantic, PlannerRouteKind::Impact]
}

/// The position of a route in [`route_order`].
pub open spec fn slot(route_kind: PlannerRouteKind) -> int {
    match route_kind {
        PlannerRouteKind::Exact => 0,
        PlannerRouteKind::Symbol => 1,
        PlannerRouteKind::Semantic => 2,
        PlannerRouteKind::Impact => 3,
    }
}

/// Every public route, in the planner's fixed order.
pub fn all_routes() -> (r: Vec<PlannerRouteKind>)
    ensures
        r@ == route_order(),
{
    let r = vec![PlannerRouteKind::Exact, PlannerRouteKind::Symbol, PlannerRouteKind::Semantic, PlannerRouteKind::Impact];
    assert(r@ =~= route_order());
    r
}

fn route_slot(route_kind: PlannerRouteKind) -> (i: usize)
    ensures
        i == slot(route_kind),
        i < 4,
        route_order()[i as int] == route_kind,
{
    match route_kind {
        PlannerRouteKind::Exact => 0,
        PlannerRouteKind::Symbol => 1,
        PlannerRouteKind::Semantic => 2,
        PlannerRouteKind::Impact => 3,
    }
}

/// The prefix of a route's diagnostic codes.
pub open spec fn route_code_spec(route_kind: PlannerRouteKind) -> Seq<char> {
    match route_kind {
        PlannerRouteKind::Exact => "exact_route"@,
        PlannerRouteKind::Symbol => "symbol_route"@,
        PlannerRouteKind::Semantic => "semantic_route"@,
        PlannerRouteKind::Impact => "impact_route"@,
    }
}

/// The prefix of a route's diagnostic codes.
pub fn route_code(route_kind: PlannerRouteKind) -> (r: &'static str)
    ensures
        r@ == route_code_spec(route_kind),
{
    match route_kind {
        PlannerRouteKind::Exact => "exact_route",
        PlannerRouteKind::Symbol => "symbol_route",
        PlannerRouteKind::Semantic => "semantic_route",
        PlannerRouteKind::Impact => "impact_route",
    }
}

/// The capability of a route that has no registered adapter.
pub open spec fn is_missing_capability(c: PlannerRouteCapabilityReport, context: PlannerRuntimeContext, route_kind: PlannerRouteKind) -> bool {
    &&& c.route_kind == route_kind
    &&& c.enabled == context.enabled_for(route_kind)
    &&& !c.available
    &&& c.readiness == (if c.enabled { PlannerRouteReadiness::Unavailable } else { PlannerRouteReadiness::Disabled })
    &&& c.reason matches Some(r) && r@ == "route adapter is not registered"@
    &&& c.supported_filters.path_globs && c.supported_filters.package_names && c.supported_filters.package_roots
    &&& c.supported_filters.workspace_roots && c.supported_filters.languages && c.supported_filters.extensions
    &&& c.supported_filters.symbol_kinds
    &&& c.diagnostics@.len() == 1
    &&& is_diagnostic(c.diagnostics@[0], PlannerDiagnosticSeverity::Warning, "planner_route_adapter_missing"@,
        "route adapter is not registered in the planner registry"@)
    &&& c.notes@.len() == 1 && c.notes@[0]@ == "route adapter is not registered"@
}

/// The capability reported for a route that has no registered adapter.
pub fn missing_route_capability(context: &PlannerRuntimeContext, route_kind: PlannerRouteKind) -> (c: PlannerRouteCapabilityReport)
    ensures
        is_missing_capability(c, *context, route_kind),
{
    let enabled = context.route_enabled(route_kind);
    PlannerRouteCapabilityReport {
        route_kind,
        enabled,
        available: false,
        readiness: if enabled { PlannerRouteReadiness::Unavailable } else { PlannerRouteReadiness::Disabled },
        reason: Some("route adapter is not registered".to_owned()),
        supported_filters: full_filter_capabilities(),
        constraints: PlannerRouteConstraints::default(),
        diagnostics: vec![scaffold_warning("planner_route_adapter_missing",
            "route adapter is not registered in the planner registry")],
        notes: vec!["route adapter is not registered".to_owned()],
    }
}

/// The execution reported for a route that has no registered adapter.
pub fn missing_route_execution(route_kind: PlannerRouteKind) -> (e: PlannerRouteExecution)
    ensures
        e.state == PlannerRouteExecutionState::Executed,
        e.candidates@.len() == 0,
        e.diagnostics@.len() == 1,
        is_diagnostic(e.diagnostics@[0], PlannerDiagnosticSeverity::Warning,
            route_code_spec(route_kind) + "_adapter_missing"@,
            "route execution skipped because no adapter is registered"@),
        e.notes@.len() == 1,
        e.notes@[0]@ == "route adapter is not registered"@,
        e.elapsed_ms == 0,
        e.ambiguity is None,
{
    let code = concat2(route_code(route_kind), "_adapter_missing");
    PlannerRouteExecution {
        state: PlannerRouteExecutionState::Executed,
        candidates: Vec::new(),
        diagnostics: vec![scaffold_warning(code.as_str(), "route execution skipped because no adapter is registered")],
        notes: vec!["route adapter is not registered".to_owned()],
        elapsed_ms: 0,
        ambiguity: None,
    }
}

/// A route that reports its capability from the runtime context but has no live executor.
#[derive(Debug, Clone, Copy)]
pub struct CapabilityOnlyRouteAdapter {
    pub route_kind: PlannerRouteKind,
}

impl CapabilityOnlyRouteAdapter {
    /// An adapter for `route_kind`.
    pub fn new(route_kind: PlannerRouteKind) -> (a: Self)
        ensures
            a.route_kind == route_kind,
    {
        CapabilityOnlyRouteAdapter { route_kind }
    }
}

impl PlannerRouteAdapter for CapabilityOnlyRouteAdapter {
    open spec fn reports(&self, context: PlannerRuntimeContext, snapshot: ComposedSnapshot, r: PlannerRouteCapabilityReport) -> bool {
        &&& r.route_kind == self.route_kind
        &&& r.enabled == context.enabled_for(self.route_kind)
        &&& r.available == context.available_for(self.route_kind)
        &&& r.readiness == (if !r.enabled { PlannerRouteReadiness::Disabled } else if r.available { PlannerRouteReadiness::Ready } else { PlannerRouteReadiness::Unavailable })
        &&& r.available ==> r.reason is None
        &&& !r.available ==> opt_view(r.reason) == Some("route disabled by runtime context"@)
        &&& r.supported_filters == full_filter_set()
        &&& r.constraints == (PlannerRouteConstraints { requires_unique_target: false, emits_engine_local_scores: true, returns_file_provenance: true, returns_symbol_provenance: true, returns_span_provenance: true, planner_applies_filters_post_retrieval: true, })
        &&& r.diagnostics@.len() == 1
        &&& r.diagnostics@[0].severity == PlannerDiagnosticSeverity::Info
        &&& r.diagnostics@[0].code@ == route_code_spec(self.route_kind) + "_capability_only"@
        &&& r.diagnostics@[0].message@ == "route capability is present but no live executor is configured in this workspace"@
        &&& views(r.notes@) == seq!["live route execution remains deferred"@]
    }

    open spec fn executes(
        &self,
        runtime: PlannerRuntimeContext,
        snapshot: ComposedSnapshot,
        ir: PlannerQueryIr,
        budget: PlannerRouteBudget,
        e: PlannerRouteExecution,
    ) -> bool {
        &&& e.state == PlannerRouteExecutionState::Deferred
        &&& e.candidates@.len() == 0
        &&& e.diagnostics@.len() == 1
        &&& e.diagnostics@[0].severity == PlannerDiagnosticSeverity::Info
        &&& e.diagnostics@[0].code@ == route_code_spec(self.route_kind) + "_execution_deferred"@
        &&& e.diagnostics@[0].message@ == "route execution remains deferred in this planner workspace"@
        &&& views(e.notes@) == seq!["route execution remains deferred"@]
        &&& e.elapsed_ms == 0
        &&& e.ambiguity is None
    }
    fn kind(&self) -> PlannerRouteKind {
        self.route_kind
    }

    /// The route's capability from the runtime context: enabled and available as the
    /// context says, every filter supported, engine-local scores with file, symbol and
    /// span provenance filtered after retrieval, one info diagnostic that no live executor
    /// is configured, and a note that execution stays deferred.
    fn capability(&self, context: &PlannerRuntimeContext, snapshot: &ComposedSnapshot) -> (r: PlannerRouteCapabilityReport)
        ensures
            r.route_kind == self.route_kind,
            r.enabled == context.enabled_for(self.route_kind),
            r.available == context.available_for(self.route_kind),
            r.readiness == (if !r.enabled {
                PlannerRouteReadiness::Disabled
            } else if r.available {
                PlannerRouteReadiness::Ready
            } else {
                PlannerRouteReadiness::Unavailable
            }),
            r.available ==> r.reason is None,
            !r.available ==> opt_view(r.reason) == Some("route disabled by runtime context"@),
            r.supported_filters == full_filter_set(),
            r.constraints == (PlannerRouteConstraints {
                requires_unique_target: false,
                emits_engine_local_scores: true,
                returns_file_provenance: true,
                returns_symbol_provenance: true,
                returns_span_provenance: true,
                planner_applies_filters_post_retrieval: true,
            }),
            r.diagnostics@.len() == 1,
            r.diagnostics@[0].severity == PlannerDiagnosticSeverity::Info,
            r.diagnostics@[0].code@ == route_code_spec(self.route_kind) + "_capability_only"@,
            r.diagnostics@[0].message@ == "route capability is present but no live executor is configured in this workspace"@,
            views(r.notes@) == seq!["live route execution remains deferred"@],
    {
        let enabled = context.route_enabled(self.route_kind);
        let available = context.route_available(self.route_kind);
        let code = concat2(route_code(self.route_kind), "_capability_only");
        let r = PlannerRouteCapabilityReport {
            route_kind: self.route_kind,
            enabled,
            available,
            readiness: if !enabled {
                PlannerRouteReadiness::Disabled
            } else if available {
                PlannerRouteReadiness::Ready
            } else {
                PlannerRouteReadiness::Unavailable
            },
            reason: if available { None } else { Some("route disabled by runtime context".to_owned()) },
            supported_filters: full_filter_capabilities(),
            constraints: PlannerRouteConstraints {
                requires_unique_target: false,
                emits_engine_local_scores: true,
                returns_file_provenance: true,
                returns_symbol_provenance: true,
                returns_span_provenance: true,
                planner_applies_filters_post_retrieval: true,
            },
            diagnostics: vec![scaffold_info(code.as_str(),
                "route capability is present but no live executor is configured in this workspace")],
            notes: vec!["live route execution remains deferred".to_owned()],
        };
        proof {
            assert(views(r.notes@) =~= seq!["live route execution remains deferred"@]);
        }
        r
    }

    /// Execution is deferred: no candidates, one info diagnostic and one note saying so,
    /// no time spent and no ambiguity.
    fn execute(&self, request: &PlannerRouteRequest<'_>) -> (r: PlannerRouteExecution)
        ensures
            r.state == PlannerRouteExecutionState::Deferred,
            r.candidates@.len() == 0,
            r.diagnostics@.len() == 1,
            r.diagnostics@[0].severity == PlannerDiagnosticSeverity::Info,
            r.diagnostics@[0].code@ == route_code_spec(self.route_kind) + "_execution_deferred"@,
            r.diagnostics@[0].message@ == "route execution remains deferred in this planner workspace"@,
            views(r.notes@) == seq!["route execution remains deferred"@],
            r.elapsed_ms == 0,
            r.ambiguity is None,
    {
        let code = concat2(route_code(self.route_kind), "_execution_deferred");
        let r = PlannerRouteExecution {
            state: PlannerRouteExecutionState::Deferred,
            candidates: Vec::new(),
            diagnostics: vec![scaffold_info(code.as_str(), "route execution remains deferred in this planner workspace")],
            notes: vec!["route execution remains deferred".to_owned()],
            elapsed_ms: 0,
            ambiguity: None,
        };
        proof {
            assert(views(r.notes@) =~= seq!["route execution remains deferred"@]);
        }
        r
    }
}

/// The routes the planner can consult, each behind its adapter.
pub struct PlannerRouteRegistry {
    adapters: Vec<Box<dyn PlannerRouteAdapter>>,
    kinds: Vec<PlannerRouteKind>,
}

impl Default for PlannerRouteRegistry {
    /// The exact route's unavailable stand-in and capability-only symbol, semantic and
    /// impact routes.
    fn default() -> (r: Self)
        ensures
            r.adapter_count() == 4,
    {
        let exact: Box<dyn PlannerRouteAdapter> = Box::new(UnavailableExactRouteProvider);
        let symbol: Box<dyn PlannerRouteAdapter> = Box::new(CapabilityOnlyRouteAdapter::new(PlannerRouteKind::Symbol));
        let semantic: Box<dyn PlannerRouteAdapter> = Box::new(CapabilityOnlyRouteAdapter::new(PlannerRouteKind::Semantic));
        let impact: Box<dyn PlannerRouteAdapter> = Box::new(CapabilityOnlyRouteAdapter::new(PlannerRouteKind::Impact));
        Self::new(vec![exact, symbol, semantic, impact])
    }
}

/// The position of the first `k` in `kinds`, if any.
pub open spec fn first_of(kinds: Seq<PlannerRouteKind>, k: PlannerRouteKind) -> Option<int>
    decreases kinds.len(),
{
    if kinds.len() == 0 {
        None
    } else if kinds[0] == k {
        Some(0)
    } else {
        match first_of(kinds.drop_first(), k) {
            Some(i) => Some(i + 1),
            None => None,
        }
    }
}

proof fn lemma_first_of(kinds: Seq<PlannerRouteKind>, k: PlannerRouteKind)
    ensures
        match first_of(kinds, k) {
            Some(i) => 0 <= i < kinds.len() && kinds[i] == k && forall|j: int| 0 <= j < i ==> kinds[j] != k,
            None => forall|j: int| 0 <= j < kinds.len() ==> kinds[j] != k,
        },
    decreases kinds.len(),
{
    if kinds.len() > 0 && kinds[0] != k {
        lemma_first_of(kinds.drop_first(), k);
        match first_of(kinds.drop_first(), k) {
            Some(i) => {
                assert forall|j: int| 0 <= j < i + 1 implies kinds[j] != k by {
                    if j > 0 {
                        assert(kinds[j] == kinds.drop_first()[j - 1]);
                    }
                }
            },
            None => {
                assert forall|j: int| 0 <= j < kinds.len() implies kinds[j] != k by {
                    if j > 0 {
                        assert(kinds[j] == kinds.drop_first()[j - 1]);
                    }
                }
            },
        }
    }
}

/// `r` is the capability report for a route that has no registered adapter.
pub open spec fn is_missing_route_report(r: PlannerRouteCapabilityReport, context: PlannerRuntimeContext, k: PlannerRouteKind) -> bool {
    is_missing_capability(r, context, k)
}

/// `e` is the execution reported for a route that has no registered adapter.
pub open spec fn is_missing_execution(e: PlannerRouteExecution, k: PlannerRouteKind) -> bool {
    &&& e.state == PlannerRouteExecutionState::Executed
    &&& e.candidates@.len() == 0
    &&& e.diagnostics@.len() == 1
    &&& is_diagnostic(e.diagnostics@[0], PlannerDiagnosticSeverity::Warning,
        route_code_spec(k) + "_adapter_missing"@,
        "route execution skipped because no adapter is registered"@)
    &&& e.notes@.len() == 1
    &&& e.notes@[0]@ == "route adapter is not registered"@
    &&& e.elapsed_ms == 0
    &&& e.ambiguity is None
}

impl PlannerRouteRegistry {
    #[verifier::type_invariant]
    closed spec fn wf(&self) -> bool {
        self.kinds@.len() == self.adapters@.len()
    }

    /// How many adapters the registry holds.
    pub closed spec fn adapter_count(&self) -> nat {
        self.adapters@.len()
    }

    /// The route each adapter reported, in registration order.
    pub closed spec fn registered_kinds(&self) -> Seq<PlannerRouteKind> {
        self.kinds@
    }

    /// The adapters, in registration order.
    pub closed spec fn registered(&self) -> Seq<Box<dyn PlannerRouteAdapter>> {
        self.adapters@
    }

    /// `r` is what the registry reports for route `k`: the report of the first adapter
    /// registered for `k`, or the missing-route report when no adapter is registered for `k`.
    pub open spec fn answers(&self, context: PlannerRuntimeContext, snapshot: ComposedSnapshot, k: PlannerRouteKind, r: PlannerRouteCapabilityReport) -> bool {
        match first_of(self.registered_kinds(), k) {
            None => is_missing_route_report(r, context, k),
            Some(i) => self.registered()[i].reports(context, snapshot, r),
        }
    }

    /// `r` is the report a plan uses for route `k`: what the registry reports for `k` when
    /// that report is about `k`, and otherwise the missing-route report for `k`.
    pub open spec fn plans_with(&self, context: PlannerRuntimeContext, snapshot: ComposedSnapshot, k: PlannerRouteKind, r: PlannerRouteCapabilityReport) -> bool {
        ||| r.route_kind == k && self.answers(context, snapshot, k, r)
        ||| is_missing_route_report(r, context, k) && exists|x: PlannerRouteCapabilityReport|
                #[trigger] self.answers(context, snapshot, k, x) && x.route_kind != k
    }

    /// `e` is an execution the registry may obtain for route `k` on this request: from the
    /// first adapter registered for `k`, or the missing-route execution when there is none.
    pub open spec fn executes_route(&self, k: PlannerRouteKind, runtime: PlannerRuntimeContext, snapshot: ComposedSnapshot,
        ir: PlannerQueryIr, budget: PlannerRouteBudget, e: PlannerRouteExecution) -> bool {
        match first_of(self.registered_kinds(), k) {
            None => is_missing_execution(e, k),
            Some(i) => self.registered()[i].executes(runtime, snapshot, ir, budget, e),
        }
    }

    /// A registry of the given adapters, each asked once for the route it serves; for each
    /// route the first adapter that reported it answers.
    pub fn new(adapters: Vec<Box<dyn PlannerRouteAdapter>>) -> (r: Self)
        ensures
            r.adapter_count() == adapters@.len(),
            r.registered() == adapters@,
            r.registered_kinds().len() == adapters@.len(),
    {
        let mut kinds: Vec<PlannerRouteKind> = Vec::new();
        let mut i: usize = 0;
        while i < adapters.len()
            invariant
                0 <= i <= adapters@.len(),
                kinds@.len() == i,
            decreases adapters@.len() - i,
        {
            kinds.push(adapters[i].kind());
            i = i + 1;
        }
        Self { adapters, kinds }
    }

    /// The first adapter, in registration order, registered for `route_kind`.
    fn adapter_for(&self, route_kind: PlannerRouteKind) -> (r: Option<&Box<dyn PlannerRouteAdapter>>)
        ensures
            match first_of(self.registered_kinds(), route_kind) {
                Some(i) => r == Some(&self.registered()[i]),
                None => r is None,
            },
    {
        proof {
            use_type_invariant(self);
            lemma_first_of(self.kinds@, route_kind);
        }
        let mut i: usize = 0;
        while i < self.kinds.len()
            invariant
                0 <= i <= self.kinds@.len(),
                self.kinds@.len() == self.adapters@.len(),
                forall|j: int| 0 <= j < i ==> self.kinds@[j] != route_kind,
            decreases self.kinds@.len() - i,
        {
            if self.kinds[i] == route_kind {
                proof {
                    lemma_first_of(self.kinds@, route_kind);
                    match first_of(self.kinds@, route_kind) {
                        Some(f) => {
                            if f < i {
                                assert(self.kinds@[f] != route_kind);
                            } else if f > i {
                                assert(self.kinds@[i as int] != route_kind);
                            }
                        },
                        None => {
                            assert(self.kinds@[i as int] != route_kind);
                        },
                    }
                }
                return Some(&self.adapters[i]);
            }
            i = i + 1;
        }
        proof {
            match first_of(self.kinds@, route_kind) {
                Some(f) => {
                    assert(self.kinds@[f] != route_kind);
                },
                None => {},
            }
        }
        None
    }

    /// The capability of one route: its adapter's report, or the missing-route report
    /// when no adapter is registered for it.
    fn capability_for(&self, context: &PlannerRuntimeContext, snapshot: &ComposedSnapshot, route_kind: PlannerRouteKind) -> (c: PlannerRouteCapabilityReport)
        ensures
            self.answers(*context, *snapshot, route_kind, c),
    {
        match self.adapter_for(route_kind) {
            Some(adapter) => adapter.capability(context, snapshot),
            None => missing_route_capability(context, route_kind),
        }
    }

    /// The capability of every public route, in the planner's fixed order.
    pub fn capabilities(&self, context: &PlannerRuntimeContext, snapshot: &ComposedSnapshot) -> (r: Vec<PlannerRouteCapabilityReport>)
        ensures
            r@.len() == 4,
            forall|i: int| 0 <= i < 4 ==> self.answers(*context, *snapshot, route_order()[i], #[trigger] r@[i]),
    {
        let routes = all_routes();
        let mut out: Vec<PlannerRouteCapabilityReport> = Vec::new();
        let mut i: usize = 0;
        while i < 4
            invariant
                0 <= i <= 4,
                routes@ == route_order(),
                out@.len() == i,
                forall|k: int| 0 <= k < i ==> self.answers(*context, *snapshot, route_order()[k], #[trigger] out@[k]),
            decreases 4 - i,
        {
            let c = self.capability_for(context, snapshot, routes[i]);
            out.push(c);
            i = i + 1;
        }
        out
    }

    /// The reports a plan works from: each report of `reported` that is about its own
    /// route, and the missing-route report in place of one about another route.
    fn own_route_reports(&self, context: &PlannerRuntimeContext, snapshot: &ComposedSnapshot,
        reported: Vec<PlannerRouteCapabilityReport>) -> (r: Vec<PlannerRouteCapabilityReport>)
        requires
            reported@.len() == 4,
            forall|i: int| 0 <= i < 4 ==> self.answers(*context, *snapshot, route_order()[i], #[trigger] reported@[i]),
        ensures
            r@.len() == 4,
            forall|i: int| 0 <= i < 4 ==> (#[trigger] r@[i]).route_kind == route_order()[i],
            forall|i: int| 0 <= i < 4 ==> self.plans_with(*context, *snapshot, route_order()[i], #[trigger] r@[i]),
    {
        let routes = all_routes();
        let ghost given = reported@;
        let mut out = reported;
        let mut i: usize = 0;
        while i < 4
            invariant
                0 <= i <= 4,
                routes@ == route_order(),
                out@.len() == 4,
                given.len() == 4,
                forall|k: int| 0 <= k < 4 ==> self.answers(*context, *snapshot, route_order()[k], #[trigger] given[k]),
                forall|k: int| i <= k < 4 ==> #[trigger] out@[k] == given[k],
                forall|k: int| 0 <= k < i ==> (#[trigger] out@[k]).route_kind == route_order()[k],
                forall|k: int| 0 <= k < i ==> self.plans_with(*context, *snapshot, route_order()[k], #[trigger] out@[k]),
            decreases 4 - i,
        {
            assert(self.answers(*context, *snapshot, route_order()[i as int], given[i as int]));
            if out[i].route_kind != routes[i] {
                let missing = missing_route_capability(context, routes[i]);
                out.set(i, missing);
            }
            i = i + 1;
        }
        out
    }

    /// Plans and runs the routes for a query: the policy picks the routes, the budget
    /// decides which of them run, each runs through its adapter (or is skipped), and every
    /// public route gets a trace.
    #[verifier::rlimit(40)]
    pub fn plan(&self, context: &PlannerRuntimeContext, snapshot: &ComposedSnapshot, ir: &PlannerQueryIr) -> (p: PlannerRoutePlan)
        ensures
            traces_shaped(p.traces@),
            p.capabilities@.len() == 4,
            forall|i: int| 0 <= i < 4 ==> (#[trigger] p.capabilities@[i]).route_kind == route_order()[i],
            forall|i: int| 0 <= i < 4 ==> self.plans_with(*context, *snapshot, route_order()[i], #[trigger] p.capabilities@[i]),
            counts_match(p.traces@),
            all_pass(p.candidates@, ir.filters, snapshot.repo_root@),
            p.route_policy == policy_for(*ir).kind,
            p.low_signal == policy_for(*ir).low_signal,
            p.budget_exhausted == selection_for(*ir).budget_exhausted,
            p.partial_results == partial_results_spec(p.traces@, p.candidates@.len()),
            forall|i: int| 0 <= i < 4 && !executable_routes_of(selection_for(*ir)).contains(route_order()[i])
                ==> is_initial_trace(#[trigger] p.traces@[i], *ir, p.capabilities@[i].available, policy_for(*ir).kind,
                    policy_for(*ir).routes, seq![policy_for(*ir).note], selection_for(*ir).zero_budget,
                    selection_for(*ir).exhausted, route_order()[i]),
            ({
                let c = cap_diagnostics(p.capabilities@);
                let low: int = if p.low_signal { 1 } else { 0 };
                let budget: int = if p.budget_exhausted { 1 } else { 0 };
                &&& p.diagnostics@.len() >= c.len() + low + budget
                &&& p.diagnostics@.subrange(0, c.len() as int) == c
                &&& p.low_signal ==> is_diagnostic(p.diagnostics@[c.len() as int], PlannerDiagnosticSeverity::Warning,
                    "planner_low_signal_query"@, low_signal_message())
                &&& p.budget_exhausted ==> is_diagnostic(p.diagnostics@[c.len() + low], PlannerDiagnosticSeverity::Warning,
                    "planner_budget_exhausted"@, budget_exhausted_message())
                &&& p.partial_results ==> is_diagnostic(p.diagnostics@.last(), PlannerDiagnosticSeverity::Warning,
                    "planner_partial_results"@, partial_message(count_unexecuted_selected(p.traces@)))
            }),
            p.route_policy == PlannerRoutePolicyKind::SingleRoute
                ==> p.early_stopped == (executable_routes_of(selection_for(*ir)).len() > 1),
            p.route_policy == PlannerRoutePolicyKind::MultiRouteCandidates ==> !p.early_stopped,
            p.route_policy != PlannerRoutePolicyKind::SeedThenImpact ==> exists|init: Seq<PlannerRouteTrace>, run: Seq<RouteAttempt>|
                #[trigger] self.standard_plan(*context, *snapshot, *ir, p, init, run),
            p.route_policy == PlannerRoutePolicyKind::SeedThenImpact ==> exists|init: Seq<PlannerRouteTrace>,
                seeds: Seq<RouteAttempt>, impact: Option<(PlannerQueryIr, RouteAttempt)>|
                #[trigger] self.seed_plan(*context, *snapshot, *ir, p, init, seeds, impact),
    {
        let reported = self.capabilities(context, snapshot);
        let capabilities = self.own_route_reports(context, snapshot, reported);
        let route_policy = plan_route_policy(ir);
        let budget_selection = select_budgeted_routes(ir, &route_policy.selected_routes);
        let mut traces = initialize_traces(ir, &capabilities, &route_policy, &budget_selection);
        assert(views(route_policy.notes@) =~= seq![policy_for(*ir).note]);
        assert(traces_shaped(traces@)) by {
            assert forall|i: int| 0 <= i < 4 implies (#[trigger] traces@[i]).route_kind == route_order()[i] by {
                assert(is_initial_trace(traces@[i], *ir, capabilities@[i].available, route_policy.kind,
                    route_policy.selected_routes@, views(route_policy.notes@), budget_selection.zero_budget_routes@,
                    budget_selection.exhausted_routes@, route_order()[i]));
            }
        }
        let ghost init_traces = traces@;
        let mut diagnostics = capability_diagnostics(&capabilities);
        let ghost c = diagnostics@;
        let mut candidates: Vec<NormalizedPlannerCandidate> = Vec::new();
        let mut ambiguity: Option<PlannerAmbiguity> = None;
        let mut raw_candidate_count: u32 = 0;
        if route_policy.low_signal {
            diagnostics.push(scaffold_warning("planner_low_signal_query",
                "planner query is low-signal without a deterministic exact, symbol, or file seed"));
        }
        if budget_selection.budget_exhausted {
            diagnostics.push(scaffold_warning("planner_budget_exhausted",
                "planner route selection hit the configured total timeout budget before every selected route could be executed"));
        }
        let ghost seeded = diagnostics@;
        let ghost mut run: Seq<RouteAttempt> = Seq::empty();
        let ghost mut impact: Option<(PlannerQueryIr, RouteAttempt)> = None;
        let early_stopped = match route_policy.kind {
            PlannerRoutePolicyKind::SeedThenImpact => {
                let (stopped, Ghost(seeds), Ghost(ran)) = self.execute_seed_then_impact_policy(context, snapshot, ir,
                    &capabilities, &budget_selection.executable_routes, &mut traces, &mut diagnostics, &mut candidates,
                    &mut ambiguity, &mut raw_candidate_count);
                proof {
                    run = seeds;
                    impact = ran;
                }
                stopped
            },
            _ => {
                let (stopped, Ghost(attempts)) = self.execute_standard_policy(context, snapshot, ir, &capabilities,
                    &budget_selection.executable_routes, route_policy.kind, &mut traces, &mut diagnostics,
                    &mut candidates, &mut ambiguity, &mut raw_candidate_count);
                proof {
                    run = attempts;
                }
                stopped
            },
        };
        assert(diagnostics@.subrange(0, c.len() as int) =~= seeded.subrange(0, c.len() as int));
        assert forall|k: int| 0 <= k < seeded.len() implies #[trigger] diagnostics@[k] == seeded[k] by {
            assert(diagnostics@.subrange(0, seeded.len() as int)[k] == seeded[k]);
        }
        let partial_results = candidates_exist_with_missing_selected_routes(&traces, &candidates);
        if partial_results {
            let count = unexecuted_selected_count(&traces);
            let mut message = owned("planner returned partial route-level results after skipping ");
            push_str(&mut message, decimal_string(count as u64).as_str());
            push_str(&mut message, " selected route(s)");
            let ghost before = diagnostics@;
            diagnostics.push(scaffold_warning("planner_partial_results", message.as_str()));
            assert(diagnostics@.subrange(0, c.len() as int) =~= before.subrange(0, c.len() as int));
            assert forall|k: int| 0 <= k < seeded.len() implies #[trigger] diagnostics@[k] == seeded[k] by {
                assert(before[k] == seeded[k]);
            }
        }
        let p = PlannerRoutePlan {
            traces,
            capabilities,
            candidates,
            diagnostics,
            ambiguity,
            raw_candidate_count,
            route_policy: route_policy.kind,
            low_signal: route_policy.low_signal,
            partial_results,
            budget_exhausted: budget_selection.budget_exhausted,
            early_stopped,
        };
        proof {
            assert(initial_traces(*ir, p.capabilities@, init_traces));
            assert(candidates@ =~= p.candidates@);
            if p.route_policy == PlannerRoutePolicyKind::SeedThenImpact {
                assert(Seq::<NormalizedPlannerCandidate>::empty() + attempts_candidates(run) =~= attempts_candidates(run));
                assert(self.seed_plan(*context, *snapshot, *ir, p, init_traces, run, impact));
            } else {
                assert(Seq::<NormalizedPlannerCandidate>::empty() + attempts_candidates(run) =~= attempts_candidates(run));
                assert(self.standard_plan(*context, *snapshot, *ir, p, init_traces, run));
            }
        }
        p
    }

    /// Runs the executable routes in order under a single-route, staged-fallback or
    /// multi-route policy, recording each attempt; returns whether it stopped before the
    /// last route.
    #[verifier::rlimit(30)]
    fn execute_standard_policy(
        &self,
        context: &PlannerRuntimeContext,
        snapshot: &ComposedSnapshot,
        ir: &PlannerQueryIr,
        capabilities: &Vec<CapabilityReport>,
        executable: &Vec<PlannerRouteKind>,
        policy_kind: PlannerRoutePolicyKind,
        traces: &mut Vec<PlannerRouteTrace>,
        diagnostics: &mut Vec<PlannerDiagnostic>,
        candidates: &mut Vec<NormalizedPlannerCandidate>,
        ambiguity: &mut Option<PlannerAmbiguity>,
        raw_candidate_count: &mut u32,
    ) -> (r: (bool, Ghost<Seq<RouteAttempt>>))
        requires
            traces_shaped(old(traces)@),
            capabilities@.len() == 4,
            counts_match(old(traces)@),
            all_pass(old(candidates)@, ir.filters, snapshot.repo_root@),
        ensures
            traces_shaped(final(traces)@),
            counts_match(final(traces)@),
            all_pass(final(candidates)@, ir.filters, snapshot.repo_root@),
            forall|j: int| 0 <= j < 4 && !executable@.contains(route_order()[j])
                ==> #[trigger] final(traces)@[j] == old(traces)@[j],
            final(diagnostics)@.len() >= old(diagnostics)@.len(),
            final(diagnostics)@.subrange(0, old(diagnostics)@.len() as int) == old(diagnostics)@,
            (*old(ambiguity)) is Some ==> *final(ambiguity) == *old(ambiguity),
            policy_kind == PlannerRoutePolicyKind::SingleRoute ==> r.0 == (executable@.len() > 1),
            policy_kind == PlannerRoutePolicyKind::MultiRouteCandidates ==> !r.0,
            policy_kind == PlannerRoutePolicyKind::SeedThenImpact ==> !r.0,
            self.route_run(*context, *snapshot, *ir, capabilities@, executable@, policy_kind, r.1@),
            r.0 == (r.1@.len() < executable@.len()),
            final(candidates)@ == old(candidates)@ + attempts_candidates(r.1@),
            *final(ambiguity) == (if (*old(ambiguity)) is Some { *old(ambiguity) } else { first_ambiguity(r.1@) }),
            executable@.no_duplicates()
                ==> attempts_traced(final(traces)@, old(traces)@, capabilities@, executable@, r.1@),
    {
        let ghost start_traces = traces@;
        let ghost start_diags = diagnostics@;
        let ghost start_amb = *ambiguity;
        let ghost start_cands = candidates@;
        let ghost mut run: Seq<RouteAttempt> = Seq::empty();
        let n = executable.len();
        let mut i: usize = 0;
        assert(candidates@ =~= start_cands + attempts_candidates(run));
        while i < n
            invariant
                0 <= i <= n,
                run.len() == i,
                forall|m: int| 0 <= m < run.len() ==> self.attempt_outcome(*context, *snapshot, *ir,
                    capabilities@[slot(executable@[m])], policy_budget(ir.budgets.route_budgets@, executable@[m]), #[trigger] run[m]),
                forall|m: int| 0 <= m < run.len() ==> !policy_stops(policy_kind, #[trigger] run[m]),
                candidates@ == start_cands + attempts_candidates(run),
                start_cands == old(candidates)@,
                *ambiguity == (if start_amb is Some { start_amb } else { first_ambiguity(run) }),
                executable@.no_duplicates() ==> attempts_traced(traces@, start_traces, capabilities@, executable@, run),
                executable@.no_duplicates() ==> forall|m: int| run.len() <= m < n
                    ==> traces@[slot(#[trigger] executable@[m])] == start_traces[slot(executable@[m])],
                n == executable@.len(),
                capabilities@.len() == 4,
                traces_shaped(traces@),
                counts_match(traces@),
                all_pass(candidates@, ir.filters, snapshot.repo_root@),
                forall|j: int| 0 <= j < 4 && !executable@.contains(route_order()[j])
                    ==> #[trigger] traces@[j] == start_traces[j],
                diagnostics@.len() >= start_diags.len(),
                diagnostics@.subrange(0, start_diags.len() as int) == start_diags,
                start_amb is Some ==> *ambiguity == start_amb,
                start_traces == old(traces)@,
                start_diags == old(diagnostics)@,
                start_amb == *old(ambiguity),
                policy_kind == PlannerRoutePolicyKind::SingleRoute ==> i == 0,
            decreases n - i,
        {
            let route_kind = executable[i];
            assert(executable@.contains(route_kind)) by { assert(executable@[i as int] == route_kind); }
            let j = route_slot(route_kind);
            let capability = &capabilities[j];
            let budget = budget_for_route(&ir.budgets, route_kind);
            let attempt = self.attempt_route(context, snapshot, ir, capability, budget);
            let ghost a = attempt;
            let found_candidates = attempt.candidates.len() > 0;
            let ghost before_diags = diagnostics@;
            let ghost before_traces = traces@;
            let ghost before_cands = candidates@;
            let ghost found = attempt.candidates@;
            proof {
                self.lemma_outcome_passes(*context, *snapshot, *ir, *capability, budget, attempt);
            }
            let route_ambiguity = record_attempt(traces, diagnostics, candidates, raw_candidate_count,
                route_kind, capability.available, attempt);
            proof {
                lemma_all_pass_append(before_cands, found, ir.filters, snapshot.repo_root@);
                assert forall|jj: int| 0 <= jj < traces@.len() implies
                    ((#[trigger] traces@[jj]).candidate_count is Some <==> traces@[jj].status == PlannerRouteStatus::Executed) by {
                    if jj != slot(route_kind) {
                        assert(traces@[jj] == before_traces[jj]);
                    }
                }
            }
            assert(diagnostics@.subrange(0, start_diags.len() as int) =~= before_diags.subrange(0, start_diags.len() as int));
            assert forall|jj: int| 0 <= jj < 4 && !executable@.contains(route_order()[jj])
                implies #[trigger] traces@[jj] == start_traces[jj] by {
                if jj == j as int {
                    assert(route_order()[jj] == route_kind);
                }
                assert(before_traces[jj] == start_traces[jj]);
            }
            let ghost next = run.push(a);
            proof {
                assert(next.drop_last() =~= run);
                assert(candidates@ =~= start_cands + attempts_candidates(next));
                assert forall|m: int| 0 <= m < next.len() implies self.attempt_outcome(*context, *snapshot, *ir,
                    capabilities@[slot(executable@[m])], policy_budget(ir.budgets.route_budgets@, executable@[m]),
                    #[trigger] next[m]) by {
                    if m < run.len() {
                        assert(next[m] == run[m]);
                    }
                }
                assert forall|m: int| 0 <= m < next.len() - 1 implies !policy_stops(policy_kind, #[trigger] next[m]) by {
                    assert(next[m] == run[m]);
                }
                if executable@.no_duplicates() {
                    lemma_slots();
                    let si = executable@[i as int];
                    assert(route_order()[slot(si)] == si);
                    assert forall|m: int| 0 <= m < next.len() implies is_attempted_trace(traces@[slot(executable@[m])],
                        start_traces[slot(executable@[m])], capabilities@[slot(executable@[m])].available,
                        (#[trigger] next[m]).status, next[m].skip_reason, next[m].candidates@.len() as usize,
                        next[m].elapsed_ms, next[m].notes@) by {
                        if m < run.len() {
                            assert(next[m] == run[m]);
                            assert(executable@[m] != si);
                            assert(route_order()[slot(executable@[m])] == executable@[m]);
                            assert(traces@[slot(executable@[m])] == before_traces[slot(executable@[m])]);
                        } else {
                            assert(before_traces[slot(executable@[i as int])] == start_traces[slot(executable@[i as int])]);
                        }
                    }
                    assert forall|m: int| next.len() <= m < n implies
                        traces@[slot(#[trigger] executable@[m])] == start_traces[slot(executable@[m])] by {
                        assert(executable@[m] != si);
                        assert(route_order()[slot(executable@[m])] == executable@[m]);
                        assert(before_traces[slot(executable@[m])] == start_traces[slot(executable@[m])]);
                    }
                }
            }
            let found_ambiguity = route_ambiguity.is_some();
            if ambiguity.is_none() {
                *ambiguity = route_ambiguity;
            }
            proof {
                run = next;
            }
            let should_stop = match policy_kind {
                PlannerRoutePolicyKind::SingleRoute => true,
                PlannerRoutePolicyKind::StagedFallback => found_candidates || found_ambiguity,
                PlannerRoutePolicyKind::MultiRouteCandidates => false,
                PlannerRoutePolicyKind::SeedThenImpact => false,
            };
            if should_stop {
                let message = match policy_kind {
                    PlannerRoutePolicyKind::SingleRoute => owned("single-route policy bypassed lower-priority routes"),
                    PlannerRoutePolicyKind::StagedFallback => concat2(route_kind_name(route_kind), " satisfied the staged fallback policy"),
                    _ => String::new(),
                };
                let ghost mid = traces@;
                mark_remaining_routes_skipped(traces, executable, i + 1, message.as_str());
                assert forall|jj: int| 0 <= jj < traces@.len() implies
                    ((#[trigger] traces@[jj]).candidate_count is Some <==> traces@[jj].status == PlannerRouteStatus::Executed) by {
                    assert(mid[jj].candidate_count is Some <==> mid[jj].status == PlannerRouteStatus::Executed);
                }
                assert forall|jj: int| 0 <= jj < 4 && !executable@.contains(route_order()[jj])
                    implies #[trigger] traces@[jj] == start_traces[jj] by {
                    if executable@.subrange(i + 1, n as int).contains(route_order()[jj]) {
                        let m = choose|m: int| 0 <= m < n - (i + 1) && #[trigger] executable@.subrange(i + 1, n as int)[m] == route_order()[jj];
                        assert(executable@[i + 1 + m] == route_order()[jj]);
                    }
                    assert(mid[jj] == start_traces[jj]);
                }
                proof {
                    if executable@.no_duplicates() {
                        lemma_mark_rest_keeps_seeds(mid, traces@, start_traces, capabilities@, executable@, run);
                    }
                }
                return (i + 1 < n, Ghost(run));
            }
            i = i + 1;
        }
        (false, Ghost(run))
    }

    /// What a standard policy leaves in the plan `p` over the initial traces `init`: the
    /// candidates, ambiguity and early stop of the run `run`, and its attempts in the traces.
    pub open spec fn standard_plan(&self, context: PlannerRuntimeContext, snapshot: ComposedSnapshot, ir: PlannerQueryIr,
        p: PlannerRoutePlan, init: Seq<PlannerRouteTrace>, run: Seq<RouteAttempt>) -> bool {
        let routes = executable_routes_of(selection_for(ir));
        &&& initial_traces(ir, p.capabilities@, init)
        &&& self.route_run(context, snapshot, ir, p.capabilities@, routes, p.route_policy, run)
        &&& p.candidates@ == attempts_candidates(run)
        &&& p.ambiguity == first_ambiguity(run)
        &&& p.early_stopped == (run.len() < routes.len())
        &&& routes.no_duplicates() ==> attempts_traced(p.traces@, init, p.capabilities@, routes, run)
    }

    /// What the seed-then-impact policy leaves in the plan `p` over the initial traces
    /// `init`: the seed attempts `seeds`, and, when impact ran, its request and attempt.
    pub open spec fn seed_plan(&self, context: PlannerRuntimeContext, snapshot: ComposedSnapshot, ir: PlannerQueryIr,
        p: PlannerRoutePlan, init: Seq<PlannerRouteTrace>, seeds: Seq<RouteAttempt>,
        impact: Option<(PlannerQueryIr, RouteAttempt)>) -> bool {
        let routes = executable_routes_of(selection_for(ir));
        let stopped = seeds.len() > 0 && seed_stops(seeds.last());
        let has_context = ir.selected_context is Some || ir.target_context is Some;
        &&& initial_traces(ir, p.capabilities@, init)
        &&& self.seed_run(context, snapshot, ir, p.capabilities@, seed_order(routes), seeds)
        &&& routes.no_duplicates() ==> attempts_traced(p.traces@, init, p.capabilities@, seed_order(routes), seeds)
        &&& p.early_stopped == (has_context || stopped)
        &&& (impact is Some) == (routes.contains(PlannerRouteKind::Impact)
                && if stopped { seed_unique(seeds.last()) } else { has_context })
        &&& impact is None ==> p.candidates@ == attempts_candidates(seeds)
        &&& impact matches Some((dir, a)) ==> {
            &&& crate::planner::query_ir::same_filters(dir.filters, ir.filters)
            &&& has_context ==> dir.selected_context == ir.selected_context && dir.target_context == ir.target_context
            &&& !has_context ==> dir.target_context is None
                && dir.selected_context == Some(seed_contexts(seeds.last().candidates@)[0])
            &&& self.attempt_outcome(context, snapshot, dir, p.capabilities@[3],
                    policy_budget(ir.budgets.route_budgets@, PlannerRouteKind::Impact), a)
            &&& is_attempted_trace(p.traces@[3], init[3], p.capabilities@[3].available, a.status,
                    a.skip_reason, a.candidates@.len() as usize, a.elapsed_ms, a.notes@)
            &&& p.candidates@ == attempts_candidates(seeds) + a.candidates@
        }
    }

    /// `attempts` is a run of a standard policy: the routes of `routes` attempted in
    /// order, each an outcome for its route, until the policy stopped or none was left.
    pub open spec fn route_run(&self, context: PlannerRuntimeContext, snapshot: ComposedSnapshot, ir: PlannerQueryIr,
        capabilities: Seq<CapabilityReport>, routes: Seq<PlannerRouteKind>, policy_kind: PlannerRoutePolicyKind,
        attempts: Seq<RouteAttempt>) -> bool {
        &&& attempts.len() <= routes.len()
        &&& forall|m: int| 0 <= m < attempts.len() ==> self.attempt_outcome(context, snapshot, ir,
                capabilities[slot(routes[m])], policy_budget(ir.budgets.route_budgets@, routes[m]), #[trigger] attempts[m])
        &&& forall|m: int| 0 <= m < attempts.len() - 1 ==> !policy_stops(policy_kind, #[trigger] attempts[m])
        &&& attempts.len() < routes.len() ==> attempts.len() > 0 && policy_stops(policy_kind, attempts.last())
    }

    /// `attempts` is a run of seed attempts: the routes of `seeds` attempted in order,
    /// each an outcome for its route, until one stopped the search or none was left.
    pub open spec fn seed_run(&self, context: PlannerRuntimeContext, snapshot: ComposedSnapshot, ir: PlannerQueryIr,
        capabilities: Seq<CapabilityReport>, seeds: Seq<PlannerRouteKind>, attempts: Seq<RouteAttempt>) -> bool {
        &&& attempts.len() <= seeds.len()
        &&& forall|m: int| 0 <= m < attempts.len() ==> self.attempt_outcome(context, snapshot, ir,
                capabilities[slot(seeds[m])], policy_budget(ir.budgets.route_budgets@, seeds[m]), #[trigger] attempts[m])
        &&& forall|m: int| 0 <= m < attempts.len() - 1 ==> !seed_stops(#[trigger] attempts[m])
        &&& attempts.len() < seeds.len() ==> attempts.len() > 0 && seed_stops(attempts.last())
    }

    /// Runs the seed routes until one resolves a single impact seed, then the impact route
    /// from that seed; stops without running impact when a seed route is ambiguous or no
    /// seed is found. Returns whether it stopped early or resolved a seed, with the seed
    /// attempts made and the request that impact was run for.
    #[verifier::rlimit(80)]
    fn execute_seed_then_impact_policy(
        &self,
        context: &PlannerRuntimeContext,
        snapshot: &ComposedSnapshot,
        ir: &PlannerQueryIr,
        capabilities: &Vec<CapabilityReport>,
        executable: &Vec<PlannerRouteKind>,
        traces: &mut Vec<PlannerRouteTrace>,
        diagnostics: &mut Vec<PlannerDiagnostic>,
        candidates: &mut Vec<NormalizedPlannerCandidate>,
        ambiguity: &mut Option<PlannerAmbiguity>,
        raw_candidate_count: &mut u32,
    ) -> (r: (bool, Ghost<Seq<RouteAttempt>>, Ghost<Option<(PlannerQueryIr, RouteAttempt)>>))
        requires
            traces_shaped(old(traces)@),
            capabilities@.len() == 4,
            forall|i: int| 0 <= i < 4 ==> (#[trigger] capabilities@[i]).route_kind == route_order()[i],
            counts_match(old(traces)@),
            all_pass(old(candidates)@, ir.filters, snapshot.repo_root@),
        ensures
            traces_shaped(final(traces)@),
            counts_match(final(traces)@),
            all_pass(final(candidates)@, ir.filters, snapshot.repo_root@),
            forall|j: int| 0 <= j < 4 && !executable@.contains(route_order()[j])
                ==> #[trigger] final(traces)@[j] == old(traces)@[j],
            final(diagnostics)@.len() >= old(diagnostics)@.len(),
            final(diagnostics)@.subrange(0, old(diagnostics)@.len() as int) == old(diagnostics)@,
            (*old(ambiguity)) is Some ==> *final(ambiguity) == *old(ambiguity),
            self.seed_run(*context, *snapshot, *ir, capabilities@, seed_order(executable@), r.1@),
            executable@.no_duplicates()
                ==> attempts_traced(final(traces)@, old(traces)@, capabilities@, seed_order(executable@), r.1@),
            ({
                let s = r.1@;
                let stopped = s.len() > 0 && seed_stops(s.last());
                let has_context = ir.selected_context is Some || ir.target_context is Some;
                &&& r.0 == (has_context || stopped)
                &&& (r.2@ is Some) == (executable@.contains(PlannerRouteKind::Impact)
                        && if stopped { seed_unique(s.last()) } else { has_context })
                &&& r.2@ is None ==> final(candidates)@ == old(candidates)@ + attempts_candidates(s)
                &&& r.2@ is None && !(stopped && !seed_unique(s.last())) ==> *final(ambiguity) == *old(ambiguity)
                &&& r.2@ is None && stopped && !seed_unique(s.last()) && (*old(ambiguity)) is None ==> {
                    &&& s.last().ambiguity is Some ==> *final(ambiguity) == s.last().ambiguity
                    &&& s.last().ambiguity is None ==> final(ambiguity)->0.reason == PlannerAmbiguityReason::MultipleAnchorsRemain
                        && final(ambiguity)->0.candidate_contexts@ == seed_contexts(s.last().candidates@)
                        && (*final(ambiguity)) is Some
                }
                &&& r.2@ matches Some((dir, a)) ==> {
                    &&& crate::planner::query_ir::same_filters(dir.filters, ir.filters)
                    &&& has_context ==> dir.selected_context == ir.selected_context && dir.target_context == ir.target_context
                    &&& !has_context ==> dir.target_context is None
                        && dir.selected_context == Some(seed_contexts(s.last().candidates@)[0])
                    &&& self.attempt_outcome(*context, *snapshot, dir, capabilities@[3],
                            policy_budget(ir.budgets.route_budgets@, PlannerRouteKind::Impact), a)
                    &&& is_attempted_trace(final(traces)@[3], old(traces)@[3], capabilities@[3].available, a.status,
                            a.skip_reason, a.candidates@.len() as usize, a.elapsed_ms, a.notes@)
                    &&& final(candidates)@ == old(candidates)@ + attempts_candidates(s) + a.candidates@
                    &&& (*old(ambiguity)) is None ==> *final(ambiguity) == a.ambiguity
                }
            }),
            !r.0 && executable@.contains(PlannerRouteKind::Impact) ==> {
                &&& final(diagnostics)@.len() > old(diagnostics)@.len()
                &&& final(diagnostics)@.last().severity == PlannerDiagnosticSeverity::Warning
                &&& final(diagnostics)@.last().code@ == "planner_impact_seed_missing"@
            },
            r.2@ is None && executable@.contains(PlannerRouteKind::Impact) ==>
                final(traces)@[3] == old(traces)@[3] || final(traces)@[3].status == PlannerRouteStatus::Skipped,
    {
        let ghost start_traces = traces@;
        let ghost start_diags = diagnostics@;
        let ghost start_amb = *ambiguity;
        let ghost start_cands = candidates@;
        let ghost has_context = ir.selected_context is Some || ir.target_context is Some;
        let mut seed_routes: Vec<PlannerRouteKind> = Vec::new();
        let mut k: usize = 0;
        while k < executable.len()
            invariant
                0 <= k <= executable@.len(),
                forall|m: int| 0 <= m < seed_routes@.len() ==> executable@.contains(#[trigger] seed_routes@[m]),
                forall|m: int| 0 <= m < seed_routes@.len() ==> #[trigger] seed_routes@[m] != PlannerRouteKind::Impact,
                seed_routes@ == seed_order(executable@.subrange(0, k as int)),
                forall|m: int| 0 <= m < seed_routes@.len() ==> executable@.subrange(0, k as int).contains(#[trigger] seed_routes@[m]),
                executable@.no_duplicates() ==> seed_routes@.no_duplicates(),
            decreases executable@.len() - k,
        {
            assert(executable@.subrange(0, k + 1).drop_last() =~= executable@.subrange(0, k as int));
            proof {
                assert forall|m: int| 0 <= m < seed_routes@.len() implies
                    executable@.subrange(0, k + 1).contains(#[trigger] seed_routes@[m])
                    && (executable@.no_duplicates() ==> seed_routes@[m] != executable@[k as int]) by {
                    let k2 = choose|k2: int| 0 <= k2 < k && executable@.subrange(0, k as int)[k2] == seed_routes@[m];
                    assert(executable@.subrange(0, k + 1)[k2] == seed_routes@[m]);
                    assert(executable@[k2] == seed_routes@[m]);
                }
                assert(executable@.subrange(0, k + 1)[k as int] == executable@[k as int]);
            }
            if executable[k] != PlannerRouteKind::Impact {
                assert(executable@[k as int] != PlannerRouteKind::Impact);
                assert(executable@[k as int] == executable@[k as int]);
                seed_routes.push(executable[k]);
            }
            k = k + 1;
        }
        assert(executable@.subrange(0, executable@.len() as int) =~= executable@);
        let impact_selected = contains_route(executable, PlannerRouteKind::Impact);
        let impact_only = vec![PlannerRouteKind::Impact];
        let mut derived_context: Option<PlannerContextRef> = match &ir.selected_context {
            Some(c) => Some(c.deep_copy()),
            None => ir.target_context.deep_copy(),
        };
        let n = seed_routes.len();
        let mut i: usize = 0;
        let ghost mut run: Seq<RouteAttempt> = Seq::empty();
        let ghost mut broke = false;
        assert(candidates@ =~= start_cands + attempts_candidates(run));
        while i < n
            invariant_except_break
                !broke,
                executable@.no_duplicates() ==> forall|m: int| run.len() <= m < n
                    ==> traces@[slot(#[trigger] seed_routes@[m])] == start_traces[slot(seed_routes@[m])],
            invariant
                executable@.no_duplicates() ==> seed_routes@.no_duplicates(),
                executable@.no_duplicates() ==> attempts_traced(traces@, start_traces, capabilities@, seed_routes@, run),
                0 <= i <= n,
                seed_routes@ == seed_order(executable@),
                run.len() <= n,
                !broke ==> run.len() == i,
                forall|m: int| 0 <= m < run.len() ==> self.attempt_outcome(*context, *snapshot, *ir,
                    capabilities@[slot(seed_routes@[m])], policy_budget(ir.budgets.route_budgets@, seed_routes@[m]), #[trigger] run[m]),
                forall|m: int| 0 <= m < run.len() - 1 ==> !seed_stops(#[trigger] run[m]),
                !broke ==> forall|m: int| 0 <= m < run.len() ==> !seed_stops(#[trigger] run[m]),
                broke ==> run.len() > 0 && seed_unique(run.last())
                    && derived_context == Some(seed_contexts(run.last().candidates@)[0]),
                !broke ==> (has_context <==> derived_context is Some),
                candidates@ == start_cands + attempts_candidates(run),
                start_cands == old(candidates)@,
                n == seed_routes@.len(),
                capabilities@.len() == 4,
                forall|m: int| 0 <= m < seed_routes@.len() ==> executable@.contains(#[trigger] seed_routes@[m]),
                forall|m: int| 0 <= m < seed_routes@.len() ==> #[trigger] seed_routes@[m] != PlannerRouteKind::Impact,
                traces@[3] == start_traces[3],
                counts_match(traces@),
                all_pass(candidates@, ir.filters, snapshot.repo_root@),
                *ambiguity == start_amb,
                impact_selected == executable@.contains(PlannerRouteKind::Impact),
                impact_only@ == seq![PlannerRouteKind::Impact],
                traces_shaped(traces@),
                forall|j: int| 0 <= j < 4 && !executable@.contains(route_order()[j])
                    ==> #[trigger] traces@[j] == start_traces[j],
                diagnostics@.len() >= start_diags.len(),
                diagnostics@.subrange(0, start_diags.len() as int) == start_diags,
                start_amb is Some ==> *ambiguity == start_amb,
                start_traces == old(traces)@,
                start_diags == old(diagnostics)@,
                start_amb == *old(ambiguity),
                has_context == (ir.selected_context is Some || ir.target_context is Some),
            ensures
                !broke ==> i == n,
            decreases n - i,
        {
            let route_kind = seed_routes[i];
            assert(executable@.contains(seed_routes@[i as int]));
            let j = route_slot(route_kind);
            let capability = &capabilities[j];
            let budget = budget_for_route(&ir.budgets, route_kind);
            let attempt = self.attempt_route(context, snapshot, ir, capability, budget);
            let ghost a = attempt;
            let seed = seed_context_from_candidates(&attempt.candidates);
            let ghost before_diags = diagnostics@;
            let ghost before_traces = traces@;
            let ghost before_cands = candidates@;
            let ghost found = attempt.candidates@;
            proof {
                self.lemma_outcome_passes(*context, *snapshot, *ir, *capability, budget, attempt);
            }
            let route_ambiguity = record_attempt(traces, diagnostics, candidates, raw_candidate_count,
                route_kind, capability.available, attempt);
            proof {
                lemma_all_pass_append(before_cands, found, ir.filters, snapshot.repo_root@);
                assert forall|jj: int| 0 <= jj < traces@.len() implies
                    ((#[trigger] traces@[jj]).candidate_count is Some <==> traces@[jj].status == PlannerRouteStatus::Executed) by {
                    if jj != slot(route_kind) {
                        assert(traces@[jj] == before_traces[jj]);
                    }
                }
            }
            assert(diagnostics@.subrange(0, start_diags.len() as int) =~= before_diags.subrange(0, start_diags.len() as int));
            assert forall|jj: int| 0 <= jj < 4 && !executable@.contains(route_order()[jj])
                implies #[trigger] traces@[jj] == start_traces[jj] by {
                if jj == j as int {
                    assert(route_order()[jj] == route_kind);
                }
                assert(before_traces[jj] == start_traces[jj]);
            }
            proof {
                lemma_tail_in(seed_routes@, executable@, i as int + 1);
            }
            let ghost after_record = traces@;
            let ghost next = run.push(a);
            proof {
                assert(next.drop_last() =~= run);
                assert(candidates@ =~= start_cands + attempts_candidates(next));
                assert forall|m: int| 0 <= m < next.len() implies self.attempt_outcome(*context, *snapshot, *ir,
                    capabilities@[slot(seed_routes@[m])], policy_budget(ir.budgets.route_budgets@, seed_routes@[m]),
                    #[trigger] next[m]) by {
                    if m < run.len() {
                        assert(next[m] == run[m]);
                    }
                }
                assert forall|m: int| 0 <= m < next.len() - 1 implies !seed_stops(#[trigger] next[m]) by {
                    assert(next[m] == run[m]);
                }
                if executable@.no_duplicates() {
                    lemma_slots();
                    let si = seed_routes@[i as int];
                    assert(route_order()[slot(si)] == si);
                    assert forall|m: int| 0 <= m < next.len() implies is_attempted_trace(traces@[slot(seed_routes@[m])],
                        start_traces[slot(seed_routes@[m])], capabilities@[slot(seed_routes@[m])].available,
                        (#[trigger] next[m]).status, next[m].skip_reason, next[m].candidates@.len() as usize,
                        next[m].elapsed_ms, next[m].notes@) by {
                        if m < run.len() {
                            assert(next[m] == run[m]);
                            assert(seed_routes@[m] != si);
                            assert(route_order()[slot(seed_routes@[m])] == seed_routes@[m]);
                            assert(traces@[slot(seed_routes@[m])] == before_traces[slot(seed_routes@[m])]);
                        } else {
                            assert(before_traces[slot(seed_routes@[i as int])] == start_traces[slot(seed_routes@[i as int])]);
                        }
                    }
                    assert forall|m: int| next.len() <= m < n implies
                        traces@[slot(#[trigger] seed_routes@[m])] == start_traces[slot(seed_routes@[m])] by {
                        assert(seed_routes@[m] != si);
                        assert(route_order()[slot(seed_routes@[m])] == seed_routes@[m]);
                        assert(before_traces[slot(seed_routes@[m])] == start_traces[slot(seed_routes@[m])]);
                    }
                }
            }
            if let Some(found) = route_ambiguity {
                if ambiguity.is_none() {
                    *ambiguity = Some(found);
                }
                let ghost mark_before_0 = traces@;
                mark_remaining_routes_skipped(traces, &seed_routes, i + 1,
                    "impact seed resolution stopped after an ambiguous seed route");
                proof { lemma_marks_keep_counts(mark_before_0, traces@); }
                proof { if executable@.no_duplicates() { lemma_mark_rest_keeps_seeds(mark_before_0, traces@, start_traces, capabilities@, seed_routes@, next); } }
                let ghost after_seed = traces@;
                assert forall|jj: int| 0 <= jj < 4 && !executable@.contains(route_order()[jj])
                    implies #[trigger] traces@[jj] == start_traces[jj] by {
                    assert(after_record[jj] == start_traces[jj]);
                }
                if impact_selected {
                    let ghost mark_before_1 = traces@;
                    mark_remaining_routes_skipped(traces, &impact_only, 0,
                        "impact route withheld because seed resolution remained ambiguous");
                    proof { lemma_marks_keep_counts(mark_before_1, traces@); }
                proof {
                    if executable@.no_duplicates() {
                        lemma_impact_mark_frame(mark_before_1, traces@, impact_only@);
                        lemma_impact_keeps_seeds(mark_before_1, traces@, start_traces, capabilities@, seed_routes@, next);
                    }
                }
                    assert(impact_only@.subrange(0, 1) =~= impact_only@);
                    assert forall|jj: int| 0 <= jj < 4 && !executable@.contains(route_order()[jj])
                        implies #[trigger] traces@[jj] == start_traces[jj] by {
                        assert(after_seed[jj] == start_traces[jj]);
                    }
                }
                return (true, Ghost(next), Ghost(None));
            }
            match seed {
                SeedResolution::Unique(context_ref) => {
                    derived_context = Some(context_ref);
                    proof {
                        run = next;
                        broke = true;
                    }
                    let message = concat2(route_kind_name(route_kind), " resolved a deterministic impact seed");
                    let ghost mark_before_2 = traces@;
                    mark_remaining_routes_skipped(traces, &seed_routes, i + 1, message.as_str());
                    proof { lemma_marks_keep_counts(mark_before_2, traces@); }
                proof { if executable@.no_duplicates() { lemma_mark_rest_keeps_seeds(mark_before_2, traces@, start_traces, capabilities@, seed_routes@, next); } }
                    assert forall|jj: int| 0 <= jj < 4 && !executable@.contains(route_order()[jj])
                        implies #[trigger] traces@[jj] == start_traces[jj] by {
                        assert(after_record[jj] == start_traces[jj]);
                    }
                    break;
                }
                SeedResolution::Ambiguous(candidate_contexts) => {
                    if ambiguity.is_none() {
                        let detail = concat2(route_kind_name(route_kind),
                            " produced multiple symbol or file anchors, so impact analysis stopped before guessing");
                        *ambiguity = Some(PlannerAmbiguity {
                            reason: PlannerAmbiguityReason::MultipleAnchorsRemain,
                            details: vec![detail],
                            candidate_contexts,
                        });
                    }
                    let ghost mark_before_3 = traces@;
                    mark_remaining_routes_skipped(traces, &seed_routes, i + 1,
                        "impact seed resolution stopped after multiple anchors remained");
                    proof { lemma_marks_keep_counts(mark_before_3, traces@); }
                proof { if executable@.no_duplicates() { lemma_mark_rest_keeps_seeds(mark_before_3, traces@, start_traces, capabilities@, seed_routes@, next); } }
                    let ghost after_seed = traces@;
                    assert forall|jj: int| 0 <= jj < 4 && !executable@.contains(route_order()[jj])
                        implies #[trigger] traces@[jj] == start_traces[jj] by {
                        assert(after_record[jj] == start_traces[jj]);
                    }
                    if impact_selected {
                        let ghost mark_before_4 = traces@;
                        mark_remaining_routes_skipped(traces, &impact_only, 0,
                            "impact route withheld because seed resolution remained ambiguous");
                        proof { lemma_marks_keep_counts(mark_before_4, traces@); }
                proof {
                    if executable@.no_duplicates() {
                        lemma_impact_mark_frame(mark_before_4, traces@, impact_only@);
                        lemma_impact_keeps_seeds(mark_before_4, traces@, start_traces, capabilities@, seed_routes@, next);
                    }
                }
                        assert(impact_only@.subrange(0, 1) =~= impact_only@);
                        assert forall|jj: int| 0 <= jj < 4 && !executable@.contains(route_order()[jj])
                            implies #[trigger] traces@[jj] == start_traces[jj] by {
                            assert(after_seed[jj] == start_traces[jj]);
                        }
                    }
                    return (true, Ghost(next), Ghost(None));
                }
                SeedResolution::Unresolved => {
                    proof {
                        run = next;
                    }
                }
            }
            i = i + 1;
        }
        if !impact_selected {
            return (derived_context.is_some(), Ghost(run), Ghost(None));
        }
        let seed_context = match derived_context {
            Some(c) => c,
            None => {
                let ghost before_diags = diagnostics@;
                diagnostics.push(scaffold_warning("planner_impact_seed_missing",
                    "impact route was not executed because no deterministic symbol or file context was resolved from the selected seed routes"));
                assert(diagnostics@.subrange(0, start_diags.len() as int) =~= before_diags.subrange(0, start_diags.len() as int));
                let ghost before_mark = traces@;
                let ghost mark_before_5 = traces@;
                mark_remaining_routes_skipped(traces, &impact_only, 0,
                    "impact route withheld until a symbol or file context is selected");
                proof { lemma_marks_keep_counts(mark_before_5, traces@); }
                proof {
                    if executable@.no_duplicates() {
                        lemma_impact_mark_frame(mark_before_5, traces@, impact_only@);
                        lemma_impact_keeps_seeds(mark_before_5, traces@, start_traces, capabilities@, seed_routes@, run);
                    }
                }
                assert(impact_only@.subrange(0, 1) =~= impact_only@);
                assert forall|jj: int| 0 <= jj < 4 && !executable@.contains(route_order()[jj])
                    implies #[trigger] traces@[jj] == start_traces[jj] by {
                    assert(before_mark[jj] == start_traces[jj]);
                }
                return (false, Ghost(run), Ghost(None));
            }
        };
        let capability = &capabilities[3];
        let budget = budget_for_route(&ir.budgets, PlannerRouteKind::Impact);
        let mut derived_ir = ir.clone();
        derived_ir.selected_context = ir.selected_context.deep_copy();
        derived_ir.target_context = ir.target_context.deep_copy();
        derived_ir.filters = crate::planner::query_ir::copy_filters(&ir.filters);
        if derived_ir.selected_context.is_none() && derived_ir.target_context.is_none() {
            derived_ir.selected_context = Some(seed_context);
        }
        let attempt = self.attempt_route(context, snapshot, &derived_ir, capability, budget);
        let ghost a = attempt;
        let ghost before_diags = diagnostics@;
        let ghost before_traces = traces@;
        let ghost before_cands = candidates@;
        proof {
            self.lemma_outcome_passes(*context, *snapshot, derived_ir, *capability, budget, a);
            assert forall|i: int| 0 <= i < a.candidates@.len() implies (#[trigger] a.candidates@[i]).passes(ir.filters, snapshot.repo_root@) by {
                lemma_passes_same_filters(a.candidates@[i], derived_ir.filters, ir.filters, snapshot.repo_root@);
            }
        }
        let route_ambiguity = record_attempt(traces, diagnostics, candidates, raw_candidate_count,
            PlannerRouteKind::Impact, capability.available, attempt);
        assert(self.attempt_outcome(*context, *snapshot, derived_ir, capabilities@[3],
            policy_budget(ir.budgets.route_budgets@, PlannerRouteKind::Impact), a));
        proof {
            if executable@.no_duplicates() {
                lemma_impact_keeps_seeds(before_traces, traces@, start_traces, capabilities@, seed_routes@, run);
            }
            lemma_all_pass_append(before_cands, a.candidates@, ir.filters, snapshot.repo_root@);
            assert forall|jj: int| 0 <= jj < traces@.len() implies
                ((#[trigger] traces@[jj]).candidate_count is Some <==> traces@[jj].status == PlannerRouteStatus::Executed) by {
                if jj != 3 {
                    assert(traces@[jj] == before_traces[jj]);
                }
            }
        }
        assert(diagnostics@.subrange(0, start_diags.len() as int) =~= before_diags.subrange(0, start_diags.len() as int));
        assert forall|jj: int| 0 <= jj < 4 && !executable@.contains(route_order()[jj])
            implies #[trigger] traces@[jj] == start_traces[jj] by {
            assert(before_traces[jj] == start_traces[jj]);
        }
        if ambiguity.is_none() {
            *ambiguity = route_ambiguity;
        }
        proof {
            assert(candidates@ =~= start_cands + attempts_candidates(run) + a.candidates@);
            if !broke {
                assert(!(run.len() > 0 && seed_stops(run.last())));
            }
            assert(has_context ==> derived_ir.selected_context == ir.selected_context);
            assert(!has_context ==> derived_ir.selected_context == Some(seed_contexts(run.last().candidates@)[0]));
            assert((*old(ambiguity)) is None ==> *ambiguity == a.ambiguity);
        }
        (true, Ghost(run), Ghost(Some((derived_ir, a))))
    }

    /// `a` is an outcome of one attempt at the route of `capability` for `ir`: skipped
    /// when the route is unavailable or lacks a requested filter, otherwise the filtered
    /// result of an execution the registry may obtain for that request.
    pub open spec fn attempt_outcome(&self, context: PlannerRuntimeContext, snapshot: ComposedSnapshot, ir: PlannerQueryIr,
        capability: CapabilityReport, budget: PlannerRouteBudget, a: RouteAttempt) -> bool {
        &&& !capability.available ==> a.is_unavailable(capability)
        &&& capability.available && unsupported_filter_names(ir.filters, capability.supported_filters).len() > 0
            ==> a.is_unsupported(capability, join(unsupported_filter_names(ir.filters, capability.supported_filters), ", "@))
        &&& capability.available && unsupported_filter_names(ir.filters, capability.supported_filters).len() == 0
            ==> exists|e: PlannerRouteExecution|
                self.executes_route(capability.route_kind, context, snapshot, ir, budget, e)
                && #[trigger] a.is_attempt_from(capability, ir.filters, snapshot.repo_root@, e)
    }

    /// One attempt at a route: skipped when the route is unavailable or does not support a
    /// requested filter, otherwise run through its adapter and filtered.
    fn attempt_route(
        &self,
        context: &PlannerRuntimeContext,
        snapshot: &ComposedSnapshot,
        ir: &PlannerQueryIr,
        capability: &CapabilityReport,
        budget: crate::protocol::planner::PlannerRouteBudget,
    ) -> (a: RouteAttempt)
        ensures
            !capability.available ==> a.is_unavailable(*capability),
            capability.available && unsupported_filter_names(ir.filters, capability.supported_filters).len() > 0
                ==> a.is_unsupported(*capability, join(unsupported_filter_names(ir.filters, capability.supported_filters), ", "@)),
            capability.available && unsupported_filter_names(ir.filters, capability.supported_filters).len() == 0
                ==> exists|e: PlannerRouteExecution|
                    self.executes_route(capability.route_kind, *context, *snapshot, *ir, budget, e)
                    && #[trigger] a.is_attempt_from(*capability, ir.filters, snapshot.repo_root@, e),
            self.attempt_outcome(*context, *snapshot, *ir, *capability, budget, a),
    {
        if !capability.available {
            return unavailable_attempt(capability);
        }
        let unsupported = capability.unsupported_filters(&ir.filters);
        if unsupported.len() > 0 {
            return unsupported_filters_attempt(capability, &unsupported);
        }
        let request = PlannerRouteRequest { runtime: context, snapshot, ir, budget };
        let execution = match self.adapter_for(capability.route_kind) {
            Some(adapter) => adapter.execute(&request),
            None => missing_route_execution(capability.route_kind),
        };
        let ghost e = execution;
        let a = attempt_from_execution(capability, &ir.filters, snapshot, execution);
        assert(self.executes_route(capability.route_kind, *context, *snapshot, *ir, budget, e));
        assert(a.is_attempt_from(*capability, ir.filters, snapshot.repo_root@, e));
        a
    }
}


/// Every trace has a candidate count exactly when its route executed.
pub open spec fn counts_match(traces: Seq<PlannerRouteTrace>) -> bool {
    forall|j: int| 0 <= j < traces.len()
        ==> ((#[trigger] traces[j]).candidate_count is Some <==> traces[j].status == PlannerRouteStatus::Executed)
}

/// `init` holds the traces that a plan for `ir` starts from, one per route in order.
pub open spec fn initial_traces(ir: PlannerQueryIr, capabilities: Seq<CapabilityReport>, init: Seq<PlannerRouteTrace>) -> bool {
    &&& init.len() == 4
    &&& forall|i: int| 0 <= i < 4 ==> is_initial_trace(#[trigger] init[i], ir, capabilities[i].available,
            policy_for(ir).kind, policy_for(ir).routes, seq![policy_for(ir).note], selection_for(ir).zero_budget,
            selection_for(ir).exhausted, route_order()[i])
}

/// The selected routes that may resolve an impact seed: all but impact, in order.
pub open spec fn seed_order(routes: Seq<PlannerRouteKind>) -> Seq<PlannerRouteKind>
    decreases routes.len(),
{
    if routes.len() == 0 {
        Seq::empty()
    } else {
        let r = seed_order(routes.drop_last());
        if routes.last() != PlannerRouteKind::Impact { r.push(routes.last()) } else { r }
    }
}

/// A seed attempt that ends the search for an impact seed: it reported an ambiguity or
/// its candidates name at least one context.
pub open spec fn seed_stops(a: RouteAttempt) -> bool {
    a.ambiguity is Some || seed_contexts(a.candidates@).len() > 0
}

/// A seed attempt that resolved exactly one impact seed.
pub open spec fn seed_unique(a: RouteAttempt) -> bool {
    a.ambiguity is None && seed_contexts(a.candidates@).len() == 1
}

/// The trace of each route attempted in `run` records its attempt over `start`: the
/// `m`-th attempt is at the route `seeds[m]`.
pub open spec fn attempts_traced(traces: Seq<PlannerRouteTrace>, start: Seq<PlannerRouteTrace>,
    capabilities: Seq<CapabilityReport>, seeds: Seq<PlannerRouteKind>, run: Seq<RouteAttempt>) -> bool {
    forall|m: int| 0 <= m < run.len() ==> is_attempted_trace(traces[slot(seeds[m])], start[slot(seeds[m])],
        capabilities[slot(seeds[m])].available, (#[trigger] run[m]).status, run[m].skip_reason,
        run[m].candidates@.len() as usize, run[m].elapsed_ms, run[m].notes@)
}

proof fn lemma_slots()
    ensures
        forall|k: PlannerRouteKind| 0 <= #[trigger] slot(k) < 4 && route_order()[slot(k)] == k,
{
    assert forall|k: PlannerRouteKind| 0 <= #[trigger] slot(k) < 4 && route_order()[slot(k)] == k by {
        match k {
            PlannerRouteKind::Exact => {},
            PlannerRouteKind::Symbol => {},
            PlannerRouteKind::Semantic => {},
            PlannerRouteKind::Impact => {},
        }
    }
}

/// Marking the seeds after the attempted ones keeps the attempted seeds' traces.
proof fn lemma_mark_rest_keeps_seeds(before: Seq<PlannerRouteTrace>, after: Seq<PlannerRouteTrace>, start: Seq<PlannerRouteTrace>,
    capabilities: Seq<CapabilityReport>, seeds: Seq<PlannerRouteKind>, run: Seq<RouteAttempt>)
    requires
        attempts_traced(before, start, capabilities, seeds, run),
        seeds.no_duplicates(),
        run.len() <= seeds.len(),
        forall|j: int| 0 <= j < 4 && !seeds.subrange(run.len() as int, seeds.len() as int).contains(route_order()[j])
            ==> #[trigger] after[j] == before[j],
    ensures
        attempts_traced(after, start, capabilities, seeds, run),
{
    lemma_slots();
    assert forall|m: int| 0 <= m < run.len() implies after[slot(#[trigger] seeds[m])] == before[slot(seeds[m])] by {
        let j = slot(seeds[m]);
        assert(route_order()[j] == seeds[m]);
        if seeds.subrange(run.len() as int, seeds.len() as int).contains(seeds[m]) {
            lemma_later_not_earlier(seeds, run.len() as int, seeds[m]);
            assert(seeds.subrange(0, run.len() as int)[m] == seeds[m]);
        }
    }
}

/// A change to the impact trace alone keeps the seeds' traces.
proof fn lemma_impact_keeps_seeds(before: Seq<PlannerRouteTrace>, after: Seq<PlannerRouteTrace>, start: Seq<PlannerRouteTrace>,
    capabilities: Seq<CapabilityReport>, seeds: Seq<PlannerRouteKind>, run: Seq<RouteAttempt>)
    requires
        attempts_traced(before, start, capabilities, seeds, run),
        run.len() <= seeds.len(),
        forall|m: int| 0 <= m < seeds.len() ==> #[trigger] seeds[m] != PlannerRouteKind::Impact,
        forall|j: int| 0 <= j < 3 ==> #[trigger] after[j] == before[j],
    ensures
        attempts_traced(after, start, capabilities, seeds, run),
{
    lemma_slots();
    assert forall|m: int| 0 <= m < run.len() implies after[slot(#[trigger] seeds[m])] == before[slot(seeds[m])] by {
        assert(seeds[m] != PlannerRouteKind::Impact);
        assert(slot(seeds[m]) < 3);
    }
}

/// Marking the impact route alone leaves the other traces as they were.
proof fn lemma_impact_mark_frame(before: Seq<PlannerRouteTrace>, after: Seq<PlannerRouteTrace>, routes: Seq<PlannerRouteKind>)
    requires
        routes == seq![PlannerRouteKind::Impact],
        forall|j: int| 0 <= j < 4 ==> (!routes.subrange(0, 1).contains(route_order()[j]) ==> #[trigger] after[j] == before[j]),
    ensures
        forall|j: int| 0 <= j < 3 ==> #[trigger] after[j] == before[j],
{
    assert forall|j: int| 0 <= j < 3 implies #[trigger] after[j] == before[j] by {
        if routes.subrange(0, 1).contains(route_order()[j]) {
            assert(routes.subrange(0, 1)[0] == PlannerRouteKind::Impact);
        }
    }
}

proof fn lemma_later_not_earlier(seeds: Seq<PlannerRouteKind>, p: int, x: PlannerRouteKind)
    requires
        seeds.no_duplicates(),
        0 <= p <= seeds.len(),
        seeds.subrange(p, seeds.len() as int).contains(x),
    ensures
        !seeds.subrange(0, p).contains(x),
{
    let k = choose|k: int| 0 <= k < seeds.len() - p && seeds.subrange(p, seeds.len() as int)[k] == x;
    assert(seeds[p + k] == x);
    if seeds.subrange(0, p).contains(x) {
        let k2 = choose|k2: int| 0 <= k2 < p && seeds.subrange(0, p)[k2] == x;
        assert(seeds[k2] == x);
    }
}

/// Whether a policy stops after an attempt: a single-route policy after its one route, a
/// staged fallback once a route found candidates or an ambiguity, the others never.
pub open spec fn policy_stops(policy_kind: PlannerRoutePolicyKind, a: RouteAttempt) -> bool {
    match policy_kind {
        PlannerRoutePolicyKind::SingleRoute => true,
        PlannerRoutePolicyKind::StagedFallback => a.candidates@.len() > 0 || a.ambiguity is Some,
        _ => false,
    }
}

/// The first ambiguity that the attempts reported, if any.
pub open spec fn first_ambiguity(attempts: Seq<RouteAttempt>) -> Option<PlannerAmbiguity>
    decreases attempts.len(),
{
    if attempts.len() == 0 {
        None
    } else {
        match first_ambiguity(attempts.drop_last()) {
            Some(x) => Some(x),
            None => attempts.last().ambiguity,
        }
    }
}

/// The candidates of `attempts`, one attempt after the other.
pub open spec fn attempts_candidates(attempts: Seq<RouteAttempt>) -> Seq<NormalizedPlannerCandidate>
    decreases attempts.len(),
{
    if attempts.len() == 0 {
        Seq::empty()
    } else {
        attempts_candidates(attempts.drop_last()) + attempts.last().candidates@
    }
}

/// Every candidate passes `filters`.
pub open spec fn all_pass(cands: Seq<NormalizedPlannerCandidate>, filters: PlannerQueryFilters, repo_root: Seq<char>) -> bool {
    forall|i: int| 0 <= i < cands.len() ==> (#[trigger] cands[i]).passes(filters, repo_root)
}

proof fn lemma_kept_pass(cands: Seq<NormalizedPlannerCandidate>, filters: PlannerQueryFilters, repo_root: Seq<char>)
    ensures
        all_pass(kept(cands, filters, repo_root), filters, repo_root),
    decreases cands.len(),
{
    if cands.len() > 0 {
        lemma_kept_pass(cands.drop_last(), filters, repo_root);
    }
}

proof fn lemma_passes_same_filters(c: NormalizedPlannerCandidate, a: PlannerQueryFilters, b: PlannerQueryFilters, repo_root: Seq<char>)
    requires
        crate::planner::query_ir::same_filters(a, b),
    ensures
        c.passes(a, repo_root) == c.passes(b, repo_root),
{
}

proof fn lemma_all_pass_append(a: Seq<NormalizedPlannerCandidate>, b: Seq<NormalizedPlannerCandidate>, filters: PlannerQueryFilters, repo_root: Seq<char>)
    requires
        all_pass(a, filters, repo_root),
        all_pass(b, filters, repo_root),
    ensures
        all_pass(a + b, filters, repo_root),
{
    assert forall|i: int| 0 <= i < (a + b).len() implies (#[trigger] (a + b)[i]).passes(filters, repo_root) by {
        if i < a.len() {
            assert((a + b)[i] == a[i]);
        } else {
            assert((a + b)[i] == b[i - a.len()]);
        }
    }
}

impl PlannerRouteRegistry {
    proof fn lemma_outcome_passes(&self, context: PlannerRuntimeContext, snapshot: ComposedSnapshot, ir: PlannerQueryIr,
        capability: CapabilityReport, budget: PlannerRouteBudget, a: RouteAttempt)
        requires
            self.attempt_outcome(context, snapshot, ir, capability, budget, a),
        ensures
            all_pass(a.candidates@, ir.filters, snapshot.repo_root@),
    {
        if capability.available && unsupported_filter_names(ir.filters, capability.supported_filters).len() == 0 {
            let e = choose|e: PlannerRouteExecution|
                self.executes_route(capability.route_kind, context, snapshot, ir, budget, e)
                && #[trigger] a.is_attempt_from(capability, ir.filters, snapshot.repo_root@, e);
            lemma_kept_pass(e.candidates@, ir.filters, snapshot.repo_root@);
        }
    }
}

proof fn lemma_marks_keep_counts(before: Seq<PlannerRouteTrace>, after: Seq<PlannerRouteTrace>)
    requires
        counts_match(before),
        before.len() == after.len(),
        forall|j: int| 0 <= j < before.len() ==> after[j] == before[j]
            || (before[j].status == PlannerRouteStatus::Planned && after[j].status == PlannerRouteStatus::Skipped
                && after[j].candidate_count == before[j].candidate_count),
    ensures
        counts_match(after),
{
    assert forall|j: int| 0 <= j < after.len() implies
        ((#[trigger] after[j]).candidate_count is Some <==> after[j].status == PlannerRouteStatus::Executed) by {
        assert(before[j].candidate_count is Some <==> before[j].status == PlannerRouteStatus::Executed);
    }
}

/// What one attempt at a route produced.
pub struct RouteAttempt {
    pub status: PlannerRouteStatus,
    pub skip_reason: Option<PlannerRouteSkipReason>,
    pub candidates: Vec<NormalizedPlannerCandidate>,
    pub diagnostics: Vec<PlannerDiagnostic>,
    pub notes: Vec<String>,
    pub elapsed_ms: Option<u64>,
    pub raw_candidate_count: u32,
    pub ambiguity: Option<PlannerAmbiguity>,
}

/// The reason an unavailable route is skipped.
pub open spec fn unavailable_skip_reason(route_kind: PlannerRouteKind) -> PlannerRouteSkipReason {
    if route_kind == PlannerRouteKind::Exact {
        PlannerRouteSkipReason::ExactEngineUnavailable
    } else {
        PlannerRouteSkipReason::CapabilityDisabled
    }
}

impl RouteAttempt {
    /// Whether this is the attempt recorded for a route that is unavailable.
    pub open spec fn is_unavailable(&self, capability: CapabilityReport) -> bool {
        &&& self.status == PlannerRouteStatus::Skipped
        &&& self.skip_reason == Some(unavailable_skip_reason(capability.route_kind))
        &&& self.candidates@.len() == 0
        &&& self.diagnostics@.len() == 0
        &&& self.notes@ == capability.notes@
        &&& self.elapsed_ms is None
        &&& self.raw_candidate_count == 0
        &&& self.ambiguity is None
    }

    /// Whether this is the attempt recorded for a route that does not support the
    /// requested filters named by `filters`, joined.
    pub open spec fn is_unsupported(&self, capability: CapabilityReport, filters: Seq<char>) -> bool {
        &&& self.status == PlannerRouteStatus::Skipped
        &&& self.skip_reason == Some(PlannerRouteSkipReason::CapabilityDisabled)
        &&& self.candidates@.len() == 0
        &&& self.diagnostics@.len() == 1
        &&& is_diagnostic(self.diagnostics@[0], PlannerDiagnosticSeverity::Warning,
            route_code_spec(capability.route_kind) + "_unsupported_filters"@,
            route_name(capability.route_kind)
                + " route skipped because the current adapter does not support requested filters: "@
                + filters)
        &&& views(self.notes@) == seq!["unsupported requested filters: "@ + filters]
        &&& self.elapsed_ms is None
        &&& self.raw_candidate_count == 0
        &&& self.ambiguity is None
    }
}

/// The attempt recorded for a route that is unavailable: skipped, with the route's notes.
pub fn unavailable_attempt(capability: &CapabilityReport) -> (a: RouteAttempt)
    ensures
        a.is_unavailable(*capability),
{
    RouteAttempt {
        status: PlannerRouteStatus::Skipped,
        skip_reason: Some(
            if capability.route_kind == PlannerRouteKind::Exact {
                PlannerRouteSkipReason::ExactEngineUnavailable
            } else {
                PlannerRouteSkipReason::CapabilityDisabled
            },
        ),
        candidates: Vec::new(),
        diagnostics: Vec::new(),
        notes: copy_vec(&capability.notes),
        elapsed_ms: None,
        raw_candidate_count: 0,
        ambiguity: None,
    }
}

/// The attempt recorded for a route that does not support some requested filters, named
/// by `unsupported`.
pub fn unsupported_filters_attempt(capability: &CapabilityReport, unsupported: &Vec<&'static str>) -> (a: RouteAttempt)
    ensures
        a.is_unsupported(*capability, join(str_views(unsupported@), ", "@)),
{
    let ghost filters = join(str_views(unsupported@), ", "@);
    let mut joined = String::new();
    push_joined(&mut joined, unsupported, ", ");
    assert(joined@ =~= filters);
    let code = concat2(route_code(capability.route_kind), "_unsupported_filters");
    let mut message = owned(route_kind_name(capability.route_kind));
    push_str(&mut message, " route skipped because the current adapter does not support requested filters: ");
    push_str(&mut message, joined.as_str());
    let mut note = owned("unsupported requested filters: ");
    push_str(&mut note, joined.as_str());
    let notes = vec![note];
    assert(views(notes@) =~= seq!["unsupported requested filters: "@ + filters]);
    RouteAttempt {
        status: PlannerRouteStatus::Skipped,
        skip_reason: Some(PlannerRouteSkipReason::CapabilityDisabled),
        candidates: Vec::new(),
        diagnostics: vec![scaffold_warning(code.as_str(), message.as_str())],
        notes,
        elapsed_ms: None,
        raw_candidate_count: 0,
        ambiguity: None,
    }
}

/// The candidates of `cands` that pass the filters, in order.
pub open spec fn kept(cands: Seq<NormalizedPlannerCandidate>, filters: PlannerQueryFilters, repo_root: Seq<char>) -> Seq<NormalizedPlannerCandidate>
    decreases cands.len(),
{
    if cands.len() == 0 {
        Seq::empty()
    } else {
        let k = kept(cands.drop_last(), filters, repo_root);
        if cands.last().passes(filters, repo_root) { k.push(cands.last()) } else { k }
    }
}

proof fn lemma_kept_len(cands: Seq<NormalizedPlannerCandidate>, filters: PlannerQueryFilters, repo_root: Seq<char>)
    ensures
        kept(cands, filters, repo_root).len() <= cands.len(),
    decreases cands.len(),
{
    if cands.len() > 0 {
        lemma_kept_len(cands.drop_last(), filters, repo_root);
    }
}

/// The note recorded when `n` candidates were filtered out after normalization.
pub open spec fn filtered_note(n: u32) -> Seq<char> {
    decimal(n as nat) + " candidate(s) filtered after normalization"@
}

/// The status, skip reason and elapsed time recorded for a route that ran.
pub open spec fn executed_status(state: PlannerRouteExecutionState) -> PlannerRouteStatus {
    match state {
        PlannerRouteExecutionState::Deferred => PlannerRouteStatus::Deferred,
        PlannerRouteExecutionState::Executed => PlannerRouteStatus::Executed,
    }
}

impl RouteAttempt {
    /// Whether this is the attempt recorded for a route that ran and returned `execution`:
    /// its state, time, diagnostics and ambiguity; the candidates that pass `filters`;
    /// the route's notes, the execution's, then how many candidates the filters removed.
    pub open spec fn is_attempt_from(&self, capability: CapabilityReport, filters: PlannerQueryFilters,
        repo_root: Seq<char>, execution: PlannerRouteExecution) -> bool {
        &&& self.status == executed_status(execution.state)
        &&& self.skip_reason == (if execution.state == PlannerRouteExecutionState::Deferred {
            Some(PlannerRouteSkipReason::ExecutionDeferred)
        } else {
            None
        })
        &&& self.elapsed_ms == Some(execution.elapsed_ms)
        &&& self.raw_candidate_count == execution.candidates@.len() as u32
        &&& self.candidates@ == kept(execution.candidates@, filters, repo_root)
        &&& self.diagnostics@ == execution.diagnostics@
        &&& self.ambiguity == execution.ambiguity
        &&& ({
            let removed = if self.raw_candidate_count >= self.candidates@.len() as u32 {
                (self.raw_candidate_count - self.candidates@.len() as u32) as u32
            } else {
                0u32
            };
            views(self.notes@) == views(capability.notes@) + views(execution.notes@)
                + (if removed > 0 { seq![filtered_note(removed)] } else { seq![] })
        })
    }
}

/// The attempt recorded for a route that ran and returned `execution`: the candidates
/// that pass the query's filters, the route's own notes, then the execution's, then a
/// note on how many candidates the filters removed.
pub fn attempt_from_execution(
    capability: &CapabilityReport,
    filters: &PlannerQueryFilters,
    snapshot: &ComposedSnapshot,
    execution: PlannerRouteExecution,
) -> (a: RouteAttempt)
    ensures
        a.status == executed_status(execution.state),
        a.skip_reason == (if execution.state == PlannerRouteExecutionState::Deferred {
            Some(PlannerRouteSkipReason::ExecutionDeferred)
        } else {
            None
        }),
        a.elapsed_ms == Some(execution.elapsed_ms),
        a.raw_candidate_count == execution.candidates@.len() as u32,
        a.candidates@ == kept(execution.candidates@, *filters, snapshot.repo_root@),
        a.diagnostics@ == execution.diagnostics@,
        a.ambiguity == execution.ambiguity,
        ({
            let removed = if a.raw_candidate_count >= a.candidates@.len() as u32 {
                (a.raw_candidate_count - a.candidates@.len() as u32) as u32
            } else {
                0u32
            };
            views(a.notes@) == views(capability.notes@) + views(execution.notes@)
                + (if removed > 0 { seq![filtered_note(removed)] } else { seq![] })
        }),
{
    let PlannerRouteExecution { state, candidates, diagnostics, notes: execution_notes, elapsed_ms, ambiguity } = execution;
    let ghost all = candidates@;
    let raw_len = candidates.len();
    let raw_candidate_count = raw_len as u32;
    let mut rest = candidates;
    let mut filtered: Vec<NormalizedPlannerCandidate> = Vec::new();
    let mut i: usize = 0;
    while i < raw_len
        invariant
            0 <= i <= raw_len,
            raw_len == all.len(),
            rest@ == all.subrange(i as int, raw_len as int),
            filtered@ == kept(all.subrange(0, i as int), *filters, snapshot.repo_root@),
        decreases raw_len - i,
    {
        let candidate = rest.remove(0);
        assert(candidate == all[i as int]);
        assert(rest@ =~= all.subrange(i + 1, raw_len as int));
        assert(all.subrange(0, i + 1).drop_last() =~= all.subrange(0, i as int));
        if candidate.matches_filters(filters, snapshot) {
            filtered.push(candidate);
        }
        i = i + 1;
    }
    assert(all.subrange(0, raw_len as int) =~= all);
    let kept_count = filtered.len() as u32;
    let removed: u32 = if raw_candidate_count >= kept_count { raw_candidate_count - kept_count } else { 0 };
    let mut notes = copy_vec(&capability.notes);
    let mut more = execution_notes;
    let ghost before = notes@;
    let ghost extra = more@;
    notes.append(&mut more);
    assert(views(notes@) =~= views(before) + views(extra));
    if removed > 0 {
        let mut line = decimal_string(removed as u64);
        push_str(&mut line, " candidate(s) filtered after normalization");
        let ghost mid = notes@;
        notes.push(line);
        assert(views(notes@) =~= views(mid).push(filtered_note(removed)));
    } else {
        assert(views(notes@) =~= views(before) + views(extra) + seq![]);
    }
    let (status, skip_reason) = match state {
        PlannerRouteExecutionState::Deferred => (PlannerRouteStatus::Deferred, Some(PlannerRouteSkipReason::ExecutionDeferred)),
        PlannerRouteExecutionState::Executed => (PlannerRouteStatus::Executed, None),
    };
    RouteAttempt {
        status,
        skip_reason,
        candidates: filtered,
        diagnostics,
        notes,
        elapsed_ms: Some(elapsed_ms),
        raw_candidate_count,
        ambiguity,
    }
}


/// Whether two optional spans are equal.
fn same_span(a: &Option<SourceSpan>, b: &Option<SourceSpan>) -> (r: bool)
    ensures
        r == (*a == *b),
{
    match (a, b) {
        (Some(x), Some(y)) => *x == *y,
        (None, None) => true,
        _ => false,
    }
}

/// Whether two optional strings hold the same text.
fn same_opt_string(a: &Option<String>, b: &Option<String>) -> (r: bool)
    ensures
        r == (opt_view(*a) == opt_view(*b)),
{
    match (a, b) {
        (Some(x), Some(y)) => *x == *y,
        (None, None) => true,
        _ => false,
    }
}

/// Whether two optional symbol ids hold the same text.
fn same_opt_symbol(a: &Option<SymbolId>, b: &Option<SymbolId>) -> (r: bool)
    ensures
        r == (same_symbol_spec(*a, *b)),
{
    match (a, b) {
        (Some(x), Some(y)) => x.0 == y.0,
        (None, None) => true,
        _ => false,
    }
}

/// Whether two optional symbol ids hold the same text.
pub open spec fn same_symbol_spec(a: Option<SymbolId>, b: Option<SymbolId>) -> bool {
    match (a, b) {
        (Some(x), Some(y)) => x.0@ == y.0@,
        (None, None) => true,
        _ => false,
    }
}

/// Whether two impact entities name the same entity, field by field.
pub open spec fn same_entity(a: ImpactEntityRef, b: ImpactEntityRef) -> bool {
    match (a, b) {
        (ImpactEntityRef::Symbol { symbol_id: s1, path: p1, display_name: d1 },
         ImpactEntityRef::Symbol { symbol_id: s2, path: p2, display_name: d2 }) =>
            s1.0@ == s2.0@ && p1@ == p2@ && d1@ == d2@,
        (ImpactEntityRef::File { path: p1 }, ImpactEntityRef::File { path: p2 }) => p1@ == p2@,
        (ImpactEntityRef::Package { package_name: n1, package_root: r1 },
         ImpactEntityRef::Package { package_name: n2, package_root: r2 }) => n1@ == n2@ && r1@ == r2@,
        (ImpactEntityRef::Test { path: p1, display_name: d1, symbol_id: s1 },
         ImpactEntityRef::Test { path: p2, display_name: d2, symbol_id: s2 }) =>
            p1@ == p2@ && d1@ == d2@ && same_symbol_spec(s1, s2),
        _ => false,
    }
}

/// Whether two contexts name the same place, field by field.
pub open spec fn same_context(a: PlannerContextRef, b: PlannerContextRef) -> bool {
    match (a, b) {
        (PlannerContextRef::Symbol { symbol_id: s1, path: p1, span: sp1, display_name: d1 },
         PlannerContextRef::Symbol { symbol_id: s2, path: p2, span: sp2, display_name: d2 }) =>
            s1.0@ == s2.0@ && p1@ == p2@ && sp1 == sp2 && opt_view(d1) == opt_view(d2),
        (PlannerContextRef::Span { path: p1, span: sp1 }, PlannerContextRef::Span { path: p2, span: sp2 }) =>
            p1@ == p2@ && sp1 == sp2,
        (PlannerContextRef::File { path: p1 }, PlannerContextRef::File { path: p2 }) => p1@ == p2@,
        (PlannerContextRef::Package { package_name: n1, package_root: r1 },
         PlannerContextRef::Package { package_name: n2, package_root: r2 }) => n1@ == n2@ && r1@ == r2@,
        (PlannerContextRef::Workspace { workspace_root: w1 }, PlannerContextRef::Workspace { workspace_root: w2 }) =>
            w1@ == w2@,
        (PlannerContextRef::Impact { entity: e1 }, PlannerContextRef::Impact { entity: e2 }) => same_entity(e1, e2),
        _ => false,
    }
}

fn entity_eq(a: &ImpactEntityRef, b: &ImpactEntityRef) -> (r: bool)
    ensures
        r == same_entity(*a, *b),
{
    match (a, b) {
        (ImpactEntityRef::Symbol { symbol_id: s1, path: p1, display_name: d1 },
         ImpactEntityRef::Symbol { symbol_id: s2, path: p2, display_name: d2 }) =>
            s1.0 == s2.0 && *p1 == *p2 && *d1 == *d2,
        (ImpactEntityRef::File { path: p1 }, ImpactEntityRef::File { path: p2 }) => *p1 == *p2,
        (ImpactEntityRef::Package { package_name: n1, package_root: r1 },
         ImpactEntityRef::Package { package_name: n2, package_root: r2 }) => *n1 == *n2 && *r1 == *r2,
        (ImpactEntityRef::Test { path: p1, display_name: d1, symbol_id: s1 },
         ImpactEntityRef::Test { path: p2, display_name: d2, symbol_id: s2 }) =>
            *p1 == *p2 && *d1 == *d2 && same_opt_symbol(s1, s2),
        _ => false,
    }
}

/// Whether two contexts name the same place (`==` on contexts).
pub fn context_eq(a: &PlannerContextRef, b: &PlannerContextRef) -> (r: bool)
    ensures
        r == same_context(*a, *b),
{
    match (a, b) {
        (PlannerContextRef::Symbol { symbol_id: s1, path: p1, span: sp1, display_name: d1 },
         PlannerContextRef::Symbol { symbol_id: s2, path: p2, span: sp2, display_name: d2 }) =>
            s1.0 == s2.0 && *p1 == *p2 && same_span(sp1, sp2) && same_opt_string(d1, d2),
        (PlannerContextRef::Span { path: p1, span: sp1 }, PlannerContextRef::Span { path: p2, span: sp2 }) =>
            *p1 == *p2 && *sp1 == *sp2,
        (PlannerContextRef::File { path: p1 }, PlannerContextRef::File { path: p2 }) => *p1 == *p2,
        (PlannerContextRef::Package { package_name: n1, package_root: r1 },
         PlannerContextRef::Package { package_name: n2, package_root: r2 }) => *n1 == *n2 && *r1 == *r2,
        (PlannerContextRef::Workspace { workspace_root: w1 }, PlannerContextRef::Workspace { workspace_root: w2 }) =>
            *w1 == *w2,
        (PlannerContextRef::Impact { entity: e1 }, PlannerContextRef::Impact { entity: e2 }) => entity_eq(e1, e2),
        _ => false,
    }
}

/// The context a candidate points at: its symbol (named by its label), span, file or
/// impact entity; a package or workspace anchor points at none.
pub open spec fn candidate_context_spec(c: NormalizedPlannerCandidate) -> Option<PlannerContextRef> {
    match c.anchor {
        PlannerAnchor::Symbol { symbol_id, path, span } =>
            Some(PlannerContextRef::Symbol { symbol_id, path, span, display_name: Some(c.label) }),
        PlannerAnchor::Span { path, span } => Some(PlannerContextRef::Span { path, span }),
        PlannerAnchor::File { path } => Some(PlannerContextRef::File { path }),
        PlannerAnchor::Impact { entity } => Some(PlannerContextRef::Impact { entity }),
        PlannerAnchor::Package { .. } | PlannerAnchor::Workspace { .. } => None,
    }
}

/// The context a candidate points at.
pub fn candidate_context(candidate: &NormalizedPlannerCandidate) -> (r: Option<PlannerContextRef>)
    ensures
        r == candidate_context_spec(*candidate),
{
    match &candidate.anchor {
        PlannerAnchor::Symbol { symbol_id, path, span } => Some(PlannerContextRef::Symbol {
            symbol_id: symbol_id.deep_copy(),
            path: path.clone(),
            span: *span,
            display_name: Some(candidate.label.clone()),
        }),
        PlannerAnchor::Span { path, span } => Some(PlannerContextRef::Span { path: path.clone(), span: *span }),
        PlannerAnchor::File { path } => Some(PlannerContextRef::File { path: path.clone() }),
        PlannerAnchor::Impact { entity } => Some(PlannerContextRef::Impact { entity: entity.deep_copy() }),
        PlannerAnchor::Package { .. } | PlannerAnchor::Workspace { .. } => None,
    }
}

/// Whether `acc` already holds a context equal to `x`.
pub open spec fn holds_context(acc: Seq<PlannerContextRef>, x: PlannerContextRef) -> bool {
    exists|i: int| 0 <= i < acc.len() && same_context(#[trigger] acc[i], x)
}

/// The distinct contexts the candidates point at, in order of first appearance.
pub open spec fn seed_contexts(cands: Seq<NormalizedPlannerCandidate>) -> Seq<PlannerContextRef>
    decreases cands.len(),
{
    if cands.len() == 0 {
        Seq::empty()
    } else {
        let acc = seed_contexts(cands.drop_last());
        match candidate_context_spec(cands.last()) {
            Some(x) => if holds_context(acc, x) { acc } else { acc.push(x) },
            None => acc,
        }
    }
}

/// How a seed route's candidates resolve into an impact seed.
pub enum SeedResolution {
    Unresolved,
    Unique(PlannerContextRef),
    Ambiguous(Vec<PlannerContextRef>),
}

/// Resolves a seed route's candidates: no context, exactly one distinct context, or
/// several distinct contexts in order of first appearance.
pub fn seed_context_from_candidates(candidates: &Vec<NormalizedPlannerCandidate>) -> (r: SeedResolution)
    ensures
        ({
            let contexts = seed_contexts(candidates@);
            match r {
                SeedResolution::Unresolved => contexts.len() == 0,
                SeedResolution::Unique(c) => contexts.len() == 1 && c == contexts[0],
                SeedResolution::Ambiguous(cs) => contexts.len() > 1 && cs@ == contexts,
            }
        }),
{
    let mut contexts: Vec<PlannerContextRef> = Vec::new();
    let mut i: usize = 0;
    while i < candidates.len()
        invariant
            0 <= i <= candidates@.len(),
            contexts@ == seed_contexts(candidates@.subrange(0, i as int)),
        decreases candidates@.len() - i,
    {
        assert(candidates@.subrange(0, i + 1).drop_last() =~= candidates@.subrange(0, i as int));
        if let Some(context) = candidate_context(&candidates[i]) {
            let mut found = false;
            let mut k: usize = 0;
            while k < contexts.len()
                invariant
                    0 <= k <= contexts@.len(),
                    !found ==> forall|m: int| 0 <= m < k ==> !same_context(#[trigger] contexts@[m], context),
                    found ==> holds_context(contexts@, context),
                decreases contexts@.len() - k,
            {
                if context_eq(&contexts[k], &context) {
                    found = true;
                }
                k = k + 1;
            }
            if !found {
                contexts.push(context);
            }
        }
        i = i + 1;
    }
    assert(candidates@.subrange(0, candidates@.len() as int) =~= candidates@);
    if contexts.len() == 0 {
        SeedResolution::Unresolved
    } else if contexts.len() == 1 {
        let c = contexts.remove(0);
        SeedResolution::Unique(c)
    } else {
        SeedResolution::Ambiguous(contexts)
    }
}


/// The note of a route that the policy left out.
pub open spec fn omitted_note(kind: PlannerRoutePolicyKind) -> Seq<char> {
    "route omitted by "@ + policy_name(kind) + " planner policy"@
}

/// Whether `t` is the trace the planner starts from for route `r`, given whether the
/// route is available, the policy and the budget selection.
pub open spec fn is_initial_trace(
    t: PlannerRouteTrace,
    ir: PlannerQueryIr,
    available: bool,
    policy_kind: PlannerRoutePolicyKind,
    policy_routes: Seq<PlannerRouteKind>,
    policy_notes: Seq<Seq<char>>,
    zero_budget: Seq<PlannerRouteKind>,
    exhausted: Seq<PlannerRouteKind>,
    r: PlannerRouteKind,
) -> bool {
    let selected = policy_routes.contains(r);
    &&& t.route_kind == r
    &&& t.budget == Some(policy_budget(ir.budgets.route_budgets@, r))
    &&& t.candidate_count is None
    &&& t.group_count is None
    &&& t.elapsed_ms is None
    &&& if ir.route_hints.disabled_routes@.contains(r) {
        &&& !t.available
        &&& !t.selected
        &&& t.status == PlannerRouteStatus::Skipped
        &&& t.skip_reason == Some(PlannerRouteSkipReason::FilteredByRouteHint)
        &&& views(t.notes@) == seq!["route disabled by planner route hints"@]
    } else {
        &&& t.available == available
        &&& t.selected == selected
        &&& if zero_budget.contains(r) {
            &&& t.status == PlannerRouteStatus::Skipped
            &&& t.skip_reason == Some(PlannerRouteSkipReason::ExecutionDeferred)
            &&& views(t.notes@) == seq!["route budget disables execution because timeout or max_candidates resolved to zero"@]
        } else if exhausted.contains(r) {
            &&& t.status == PlannerRouteStatus::Skipped
            &&& t.skip_reason == Some(PlannerRouteSkipReason::ExecutionDeferred)
            &&& views(t.notes@) == seq!["route omitted because the planner total timeout budget was exhausted first"@]
        } else if selected {
            &&& t.status == PlannerRouteStatus::Planned
            &&& t.skip_reason is None
            &&& views(t.notes@) == policy_notes
        } else {
            &&& t.status == PlannerRouteStatus::Skipped
            &&& t.skip_reason == Some(PlannerRouteSkipReason::FilteredByMode)
            &&& views(t.notes@) == seq![omitted_note(policy_kind)]
        }
    }
}

fn one_note(s: &str) -> (r: Vec<String>)
    ensures
        views(r@) == seq![s@],
{
    let r = vec![s.to_owned()];
    assert(views(r@) =~= seq![s@]);
    r
}

fn initial_trace(
    ir: &PlannerQueryIr,
    available: bool,
    policy: &PlannerRoutePolicy,
    sel: &BudgetSelection,
    route_kind: PlannerRouteKind,
) -> (t: PlannerRouteTrace)
    ensures
        is_initial_trace(t, *ir, available, policy.kind, policy.selected_routes@, views(policy.notes@),
            sel.zero_budget_routes@, sel.exhausted_routes@, route_kind),
{
    let budget = budget_for_route(&ir.budgets, route_kind);
    let selected = contains_route(&policy.selected_routes, route_kind);
    if contains_route(&ir.route_hints.disabled_routes, route_kind) {
        return PlannerRouteTrace {
            route_kind,
            available: false,
            selected: false,
            status: PlannerRouteStatus::Skipped,
            skip_reason: Some(PlannerRouteSkipReason::FilteredByRouteHint),
            budget: Some(budget),
            candidate_count: None,
            group_count: None,
            elapsed_ms: None,
            notes: one_note("route disabled by planner route hints"),
        };
    }
    let (status, skip_reason, notes) = if contains_route(&sel.zero_budget_routes, route_kind) {
        (PlannerRouteStatus::Skipped, Some(PlannerRouteSkipReason::ExecutionDeferred),
            one_note("route budget disables execution because timeout or max_candidates resolved to zero"))
    } else if contains_route(&sel.exhausted_routes, route_kind) {
        (PlannerRouteStatus::Skipped, Some(PlannerRouteSkipReason::ExecutionDeferred),
            one_note("route omitted because the planner total timeout budget was exhausted first"))
    } else if selected {
        let notes = copy_vec(&policy.notes);
        assert(views(notes@) =~= views(policy.notes@));
        (PlannerRouteStatus::Planned, None, notes)
    } else {
        let mut note = owned("route omitted by ");
        push_str(&mut note, policy_kind_name(policy.kind));
        push_str(&mut note, " planner policy");
        let notes = vec![note];
        assert(views(notes@) =~= seq![omitted_note(policy.kind)]);
        (PlannerRouteStatus::Skipped, Some(PlannerRouteSkipReason::FilteredByMode), notes)
    };
    PlannerRouteTrace {
        route_kind,
        available,
        selected,
        status,
        skip_reason,
        budget: Some(budget),
        candidate_count: None,
        group_count: None,
        elapsed_ms: None,
        notes,
    }
}

/// The trace of every public route before any route runs: skipped when disabled by a
/// route hint, left out by the policy or the budget, planned otherwise.
pub fn initialize_traces(
    ir: &PlannerQueryIr,
    capabilities: &Vec<CapabilityReport>,
    policy: &PlannerRoutePolicy,
    sel: &BudgetSelection,
) -> (r: Vec<PlannerRouteTrace>)
    requires
        capabilities@.len() == 4,
    ensures
        r@.len() == 4,
        forall|i: int| 0 <= i < 4 ==> is_initial_trace(#[trigger] r@[i], *ir, capabilities@[i].available, policy.kind,
            policy.selected_routes@, views(policy.notes@), sel.zero_budget_routes@, sel.exhausted_routes@, route_order()[i]),
{
    let routes = all_routes();
    let mut out: Vec<PlannerRouteTrace> = Vec::new();
    let mut i: usize = 0;
    while i < 4
        invariant
            0 <= i <= 4,
            capabilities@.len() == 4,
            routes@ == route_order(),
            out@.len() == i,
            forall|k: int| 0 <= k < i ==> is_initial_trace(#[trigger] out@[k], *ir, capabilities@[k].available, policy.kind,
                policy.selected_routes@, views(policy.notes@), sel.zero_budget_routes@, sel.exhausted_routes@, route_order()[k]),
        decreases 4 - i,
    {
        let t = initial_trace(ir, capabilities[i].available, policy, sel, routes[i]);
        out.push(t);
        i = i + 1;
    }
    out
}

/// Whether the traces hold one trace per public route, in the planner's fixed order.
pub open spec fn traces_shaped(traces: Seq<PlannerRouteTrace>) -> bool {
    &&& traces.len() == 4
    &&& forall|i: int| 0 <= i < 4 ==> (#[trigger] traces[i]).route_kind == route_order()[i]
}

/// Whether `t` is `old` after an attempt that left the given outcome.
pub open spec fn is_attempted_trace(
    t: PlannerRouteTrace,
    old: PlannerRouteTrace,
    available: bool,
    status: PlannerRouteStatus,
    skip_reason: Option<PlannerRouteSkipReason>,
    candidate_count: usize,
    elapsed_ms: Option<u64>,
    notes: Seq<String>,
) -> bool {
    &&& t.route_kind == old.route_kind
    &&& t.selected == old.selected
    &&& t.budget == old.budget
    &&& t.group_count == old.group_count
    &&& t.available == available
    &&& t.status == status
    &&& t.skip_reason == skip_reason
    &&& t.candidate_count == (if status == PlannerRouteStatus::Executed { Some(candidate_count as u32) } else { None })
    &&& t.elapsed_ms == elapsed_ms
    &&& t.notes@ == notes
}

/// Records an attempt's outcome in the trace of its route.
pub fn apply_attempt_to_trace(
    traces: &mut Vec<PlannerRouteTrace>,
    route_kind: PlannerRouteKind,
    available: bool,
    status: PlannerRouteStatus,
    skip_reason: Option<PlannerRouteSkipReason>,
    candidate_count: usize,
    elapsed_ms: Option<u64>,
    notes: Vec<String>,
)
    requires
        traces_shaped(old(traces)@),
    ensures
        traces_shaped(final(traces)@),
        forall|j: int| 0 <= j < 4 && j != slot(route_kind) ==> final(traces)@[j] == old(traces)@[j],
        is_attempted_trace(final(traces)@[slot(route_kind)], old(traces)@[slot(route_kind)], available, status,
            skip_reason, candidate_count, elapsed_ms, notes@),
{
    let j = route_slot(route_kind);
    let t = PlannerRouteTrace {
        route_kind: traces[j].route_kind,
        available,
        selected: traces[j].selected,
        status,
        skip_reason,
        budget: traces[j].budget,
        candidate_count: if status == PlannerRouteStatus::Executed { Some(candidate_count as u32) } else { None },
        group_count: traces[j].group_count,
        elapsed_ms,
        notes,
    };
    traces.set(j, t);
}

/// Whether `t` is `old` marked as skipped with the single note `message`.
pub open spec fn is_marked_skipped(t: PlannerRouteTrace, old: PlannerRouteTrace, message: Seq<char>) -> bool {
    &&& t.route_kind == old.route_kind
    &&& t.available == old.available
    &&& t.selected == old.selected
    &&& t.budget == old.budget
    &&& t.candidate_count == old.candidate_count
    &&& t.group_count == old.group_count
    &&& t.elapsed_ms == old.elapsed_ms
    &&& t.status == PlannerRouteStatus::Skipped
    &&& t.skip_reason == Some(PlannerRouteSkipReason::ExecutionDeferred)
    &&& views(t.notes@) == seq![message]
}

/// Marks as skipped, with the note `message`, each still-planned route among
/// `routes[from..]`; every other trace stays as it was.
pub fn mark_remaining_routes_skipped(traces: &mut Vec<PlannerRouteTrace>, routes: &Vec<PlannerRouteKind>, from: usize, message: &str)
    requires
        traces_shaped(old(traces)@),
    ensures
        traces_shaped(final(traces)@),
        forall|j: int| 0 <= j < 4 ==> {
            let t = #[trigger] final(traces)@[j];
            let o = old(traces)@[j];
            if from <= routes@.len() && routes@.subrange(from as int, routes@.len() as int).contains(route_order()[j])
                && o.status == PlannerRouteStatus::Planned {
                is_marked_skipped(t, o, message@)
            } else {
                t == o
            }
        },
{
    if from >= routes.len() {
        return;
    }
    let ghost start = traces@;
    let ghost n = routes@.len() as int;
    let mut k: usize = from;
    while k < routes.len()
        invariant
            from <= k <= routes@.len(),
            n == routes@.len(),
            traces_shaped(traces@),
            traces_shaped(start),
            forall|j: int| 0 <= j < 4 ==> {
                let t = #[trigger] traces@[j];
                let o = start[j];
                if routes@.subrange(from as int, k as int).contains(route_order()[j]) && o.status == PlannerRouteStatus::Planned {
                    is_marked_skipped(t, o, message@)
                } else {
                    t == o
                }
            },
        decreases routes@.len() - k,
    {
        let route_kind = routes[k];
        let j = route_slot(route_kind);
        let ghost before = traces@;
        assert forall|r: PlannerRouteKind| routes@.subrange(from as int, k + 1).contains(r)
            <==> (routes@.subrange(from as int, k as int).contains(r) || r == route_kind) by {
            if routes@.subrange(from as int, k + 1).contains(r) {
                let m = choose|m: int| 0 <= m < k + 1 - from && #[trigger] routes@.subrange(from as int, k + 1)[m] == r;
                if m < k - from {
                    assert(routes@.subrange(from as int, k as int)[m] == r);
                }
            }
            if routes@.subrange(from as int, k as int).contains(r) {
                let m = choose|m: int| 0 <= m < k - from && #[trigger] routes@.subrange(from as int, k as int)[m] == r;
                assert(routes@.subrange(from as int, k + 1)[m] == r);
            }
            if r == route_kind {
                assert(routes@.subrange(from as int, k + 1)[k - from] == r);
            }
        }
        if traces[j].status == PlannerRouteStatus::Planned {
            let t = PlannerRouteTrace {
                route_kind: traces[j].route_kind,
                available: traces[j].available,
                selected: traces[j].selected,
                status: PlannerRouteStatus::Skipped,
                skip_reason: Some(PlannerRouteSkipReason::ExecutionDeferred),
                budget: traces[j].budget,
                candidate_count: traces[j].candidate_count,
                group_count: traces[j].group_count,
                elapsed_ms: traces[j].elapsed_ms,
                notes: one_note(message),
            };
            traces.set(j, t);
        }
        k = k + 1;
    }
}

/// Whether a note records that a route was passed over on purpose.
pub open spec fn is_stop_note(note: Seq<char>) -> bool {
    has_sub(note, "single-route policy bypassed"@)
        || has_sub(note, "satisfied the staged fallback policy"@)
        || has_sub(note, "resolved a deterministic impact seed"@)
}

/// Whether a selected route was skipped or deferred for a reason other than the policy
/// passing over it on purpose.
pub open spec fn is_missing_selected(t: PlannerRouteTrace) -> bool {
    &&& t.selected
    &&& (t.status == PlannerRouteStatus::Skipped || t.status == PlannerRouteStatus::Deferred)
    &&& !(exists|i: int| 0 <= i < t.notes@.len() && is_stop_note(#[trigger] t.notes@[i]@))
}

/// Whether the results are partial: some candidates came back while a selected route
/// was missed.
pub open spec fn partial_results_spec(traces: Seq<PlannerRouteTrace>, candidate_count: nat) -> bool {
    candidate_count > 0 && exists|i: int| 0 <= i < traces.len() && is_missing_selected(#[trigger] traces[i])
}

fn has_stop_note(notes: &Vec<String>) -> (r: bool)
    ensures
        r == exists|i: int| 0 <= i < notes@.len() && is_stop_note(#[trigger] notes@[i]@),
{
    let mut i: usize = 0;
    while i < notes.len()
        invariant
            0 <= i <= notes@.len(),
            forall|k: int| 0 <= k < i ==> !is_stop_note(#[trigger] notes@[k]@),
        decreases notes@.len() - i,
    {
        let note = notes[i].as_str();
        if contains_str(note, "single-route policy bypassed")
            || contains_str(note, "satisfied the staged fallback policy")
            || contains_str(note, "resolved a deterministic impact seed") {
            assert(is_stop_note(notes@[i as int]@));
            return true;
        }
        i = i + 1;
    }
    false
}

/// Whether candidates came back while some selected route was missed.
pub fn candidates_exist_with_missing_selected_routes(traces: &Vec<PlannerRouteTrace>, candidates: &Vec<NormalizedPlannerCandidate>) -> (r: bool)
    ensures
        r == partial_results_spec(traces@, candidates@.len()),
{
    if candidates.len() == 0 {
        return false;
    }
    let mut i: usize = 0;
    while i < traces.len()
        invariant
            0 <= i <= traces@.len(),
            candidates@.len() > 0,
            forall|k: int| 0 <= k < i ==> !is_missing_selected(#[trigger] traces@[k]),
        decreases traces@.len() - i,
    {
        let t = &traces[i];
        if t.selected && (t.status == PlannerRouteStatus::Skipped || t.status == PlannerRouteStatus::Deferred)
            && !has_stop_note(&t.notes) {
            assert(is_missing_selected(traces@[i as int]));
            return true;
        }
        i = i + 1;
    }
    false
}


proof fn lemma_tail_in(routes: Seq<PlannerRouteKind>, executable: Seq<PlannerRouteKind>, from: int)
    requires
        0 <= from <= routes.len(),
        forall|m: int| 0 <= m < routes.len() ==> executable.contains(#[trigger] routes[m]),
    ensures
        forall|r: PlannerRouteKind| routes.subrange(from, routes.len() as int).contains(r) ==> executable.contains(r),
{
    assert forall|r: PlannerRouteKind| routes.subrange(from, routes.len() as int).contains(r) implies executable.contains(r) by {
        let m = choose|m: int| 0 <= m < routes.len() - from && #[trigger] routes.subrange(from, routes.len() as int)[m] == r;
        assert(routes[from + m] == r);
    }
}

/// `a + b`, saturating at `u32::MAX`.
pub open spec fn sat_add32(a: u32, b: u32) -> u32 {
    if a + b > u32::MAX { u32::MAX } else { (a + b) as u32 }
}

/// Records one attempt: its diagnostics and candidates are appended, its raw count
/// added, and its outcome written into its route's trace. Returns the attempt's
/// ambiguity.
pub fn record_attempt(
    traces: &mut Vec<PlannerRouteTrace>,
    diagnostics: &mut Vec<PlannerDiagnostic>,
    candidates: &mut Vec<NormalizedPlannerCandidate>,
    raw_candidate_count: &mut u32,
    route_kind: PlannerRouteKind,
    available: bool,
    attempt: RouteAttempt,
) -> (ambiguity: Option<PlannerAmbiguity>)
    requires
        traces_shaped(old(traces)@),
    ensures
        traces_shaped(final(traces)@),
        forall|j: int| 0 <= j < 4 && j != slot(route_kind) ==> final(traces)@[j] == old(traces)@[j],
        is_attempted_trace(final(traces)@[slot(route_kind)], old(traces)@[slot(route_kind)], available, attempt.status,
            attempt.skip_reason, attempt.candidates@.len() as usize, attempt.elapsed_ms, attempt.notes@),
        final(diagnostics)@ == old(diagnostics)@ + attempt.diagnostics@,
        final(candidates)@ == old(candidates)@ + attempt.candidates@,
        *final(raw_candidate_count) == sat_add32(*old(raw_candidate_count), attempt.raw_candidate_count),
        ambiguity == attempt.ambiguity,
{
    let RouteAttempt { status, skip_reason, candidates: found, diagnostics: found_diagnostics, notes, elapsed_ms, raw_candidate_count: raw, ambiguity } = attempt;
    let count = found.len();
    *raw_candidate_count = if *raw_candidate_count > u32::MAX - raw { u32::MAX } else { *raw_candidate_count + raw };
    let mut found_diagnostics = found_diagnostics;
    diagnostics.append(&mut found_diagnostics);
    let mut found = found;
    candidates.append(&mut found);
    apply_attempt_to_trace(traces, route_kind, available, status, skip_reason, count, elapsed_ms, notes);
    ambiguity
}


/// The budget selection for a query's policy routes.
pub open spec fn selection_for(ir: PlannerQueryIr) -> SelectionModel {
    select_routes(ir.budgets.route_budgets@, ir.budgets.total_timeout_ms, policy_for(ir).routes)
}

/// The routes that a budget selection runs: those that fit, or, when none fits, the
/// first route that alone exceeded the total.
pub open spec fn executable_routes_of(m: SelectionModel) -> Seq<PlannerRouteKind> {
    if m.executable.len() == 0 && m.deferred_first is Some {
        seq![m.deferred_first->0]
    } else {
        m.executable
    }
}

/// The diagnostics of the capability reports, in order.
pub open spec fn cap_diagnostics(caps: Seq<CapabilityReport>) -> Seq<PlannerDiagnostic>
    decreases caps.len(),
{
    if caps.len() == 0 {
        Seq::empty()
    } else {
        cap_diagnostics(caps.drop_last()) + caps.last().diagnostics@
    }
}

/// The message of the low-signal warning.
pub open spec fn low_signal_message() -> Seq<char> {
    "planner query is low-signal without a deterministic exact, symbol, or file seed"@
}

/// The message of the budget warning.
pub open spec fn budget_exhausted_message() -> Seq<char> {
    "planner route selection hit the configured total timeout budget before every selected route could be executed"@
}

/// The message of the partial-results warning after `n` selected routes were skipped.
pub open spec fn partial_message(n: nat) -> Seq<char> {
    "planner returned partial route-level results after skipping "@ + decimal(n) + " selected route(s)"@
}

/// How many selected routes did not run to completion.
pub open spec fn count_unexecuted_selected(traces: Seq<PlannerRouteTrace>) -> nat
    decreases traces.len(),
{
    if traces.len() == 0 {
        0
    } else {
        count_unexecuted_selected(traces.drop_last())
            + if traces.last().selected && traces.last().status != PlannerRouteStatus::Executed { 1nat } else { 0 }
    }
}

proof fn lemma_count_unexecuted_bounded(traces: Seq<PlannerRouteTrace>)
    ensures
        count_unexecuted_selected(traces) <= traces.len(),
    decreases traces.len(),
{
    if traces.len() > 0 {
        lemma_count_unexecuted_bounded(traces.drop_last());
    }
}

fn unexecuted_selected_count(traces: &Vec<PlannerRouteTrace>) -> (n: usize)
    ensures
        n == count_unexecuted_selected(traces@),
{
    let mut count: usize = 0;
    let mut i: usize = 0;
    while i < traces.len()
        invariant
            0 <= i <= traces@.len(),
            count == count_unexecuted_selected(traces@.subrange(0, i as int)),
        decreases traces@.len() - i,
    {
        assert(traces@.subrange(0, i + 1).drop_last() =~= traces@.subrange(0, i as int));
        proof {
            lemma_count_unexecuted_bounded(traces@.subrange(0, i as int));
        }
        if traces[i].selected && traces[i].status != PlannerRouteStatus::Executed {
            count = count + 1;
        }
        i = i + 1;
    }
    assert(traces@.subrange(0, traces@.len() as int) =~= traces@);
    count
}

/// Copies of every capability report's diagnostics, in order.
fn capability_diagnostics(capabilities: &Vec<CapabilityReport>) -> (r: Vec<PlannerDiagnostic>)
    ensures
        r@ == cap_diagnostics(capabilities@),
{
    let mut out: Vec<PlannerDiagnostic> = Vec::new();
    let mut i: usize = 0;
    while i < capabilities.len()
        invariant
            0 <= i <= capabilities@.len(),
            out@ == cap_diagnostics(capabilities@.subrange(0, i as int)),
        decreases capabilities@.len() - i,
    {
        assert(capabilities@.subrange(0, i + 1).drop_last() =~= capabilities@.subrange(0, i as int));
        let ds = &capabilities[i].diagnostics;
        let ghost start = out@;
        let mut k: usize = 0;
        while k < ds.len()
            invariant
                0 <= k <= ds@.len(),
                out@ == start + ds@.subrange(0, k as int),
            decreases ds@.len() - k,
        {
            out.push(ds[k].deep_copy());
            assert(ds@.subrange(0, k + 1) =~= ds@.subrange(0, k as int).push(ds@[k as int]));
            k = k + 1;
        }
        assert(ds@.subrange(0, ds@.len() as int) =~= ds@);
        i = i + 1;
    }
    assert(capabilities@.subrange(0, capabilities@.len() as int) =~= capabilities@);
    out
}


proof fn lemma_selection_within(budgets: Seq<crate::protocol::planner::PlannerRouteBudget>, total_ms: u64, routes: Seq<PlannerRouteKind>)
    ensures
        ({
            let m = select_routes(budgets, total_ms, routes);
            &&& forall|i: int| 0 <= i < m.executable.len() ==> routes.contains(#[trigger] m.executable[i])
            &&& m.deferred_first matches Some(r) ==> routes.contains(r)
            &&& forall|i: int| 0 <= i < m.zero_budget.len() ==> routes.contains(#[trigger] m.zero_budget[i])
            &&& forall|i: int| 0 <= i < m.exhausted.len() ==> routes.contains(#[trigger] m.exhausted[i])
        }),
    decreases routes.len(),
{
    if routes.len() > 0 {
        let prefix = routes.drop_last();
        lemma_selection_within(budgets, total_ms, prefix);
        assert forall|r: PlannerRouteKind| prefix.contains(r) implies routes.contains(r) by {
            let k = choose|k: int| 0 <= k < prefix.len() && prefix[k] == r;
            assert(routes[k] == r);
        }
        assert(routes.contains(routes.last())) by {
            assert(routes[routes.len() - 1] == routes.last());
        }
    }
}

/// Only routes that the policy selected, and so only routes that the query planned, can
/// run: the budget selection never adds a route.
pub proof fn law_only_selected_routes_run(ir: PlannerQueryIr)
    ensures
        forall|r: PlannerRouteKind| #[trigger] executable_routes_of(selection_for(ir)).contains(r)
            ==> policy_for(ir).routes.contains(r) && ir.planned_routes@.contains(r),
{
    let routes = policy_for(ir).routes;
    lemma_selection_within(ir.budgets.route_budgets@, ir.budgets.total_timeout_ms, routes);
    law_policy_selects_planned_routes(ir);
    let m = selection_for(ir);
    assert forall|r: PlannerRouteKind| #[trigger] executable_routes_of(m).contains(r)
        implies routes.contains(r) && ir.planned_routes@.contains(r) by {
        let ex = executable_routes_of(m);
        let k = choose|k: int| 0 <= k < ex.len() && ex[k] == r;
        if m.executable.len() == 0 && m.deferred_first is Some {
            assert(r == m.deferred_first->0);
        } else {
            assert(m.executable[k] == r);
        }
        let j = choose|j: int| 0 <= j < routes.len() && routes[j] == r;
        assert(ir.planned_routes@.contains(routes[j]));
    }
}


/// Whether `p` is a route plan for `ir`: one trace and one capability per public route in
/// the fixed order; the policy, low-signal flag and budget outcome of `ir`; a route that
/// the budget selection does not run keeps the trace it started with; the diagnostics
/// start with the capabilities' own and the policy and budget warnings and end with the
/// partial-results warning when results are partial.
pub open spec fn is_route_plan_for(p: PlannerRoutePlan, ir: PlannerQueryIr) -> bool {
    let c = cap_diagnostics(p.capabilities@);
    let low: int = if p.low_signal { 1 } else { 0 };
    let budget: int = if p.budget_exhausted { 1 } else { 0 };
    &&& traces_shaped(p.traces@)
    &&& p.capabilities@.len() == 4
    &&& forall|i: int| 0 <= i < 4 ==> (#[trigger] p.capabilities@[i]).route_kind == route_order()[i]
    &&& p.route_policy == policy_for(ir).kind
    &&& p.low_signal == policy_for(ir).low_signal
    &&& p.budget_exhausted == selection_for(ir).budget_exhausted
    &&& p.partial_results == partial_results_spec(p.traces@, p.candidates@.len())
    &&& forall|i: int| 0 <= i < 4 && !executable_routes_of(selection_for(ir)).contains(route_order()[i])
        ==> is_initial_trace(#[trigger] p.traces@[i], ir, p.capabilities@[i].available, policy_for(ir).kind,
            policy_for(ir).routes, seq![policy_for(ir).note], selection_for(ir).zero_budget,
            selection_for(ir).exhausted, route_order()[i])
    &&& p.diagnostics@.len() >= c.len() + low + budget
    &&& p.diagnostics@.subrange(0, c.len() as int) == c
    &&& p.low_signal ==> is_diagnostic(p.diagnostics@[c.len() as int], PlannerDiagnosticSeverity::Warning,
        "planner_low_signal_query"@, low_signal_message())
    &&& p.budget_exhausted ==> is_diagnostic(p.diagnostics@[c.len() + low], PlannerDiagnosticSeverity::Warning,
        "planner_budget_exhausted"@, budget_exhausted_message())
    &&& p.partial_results ==> is_diagnostic(p.diagnostics@.last(), PlannerDiagnosticSeverity::Warning,
        "planner_partial_results"@, partial_message(count_unexecuted_selected(p.traces@)))
    &&& p.route_policy == PlannerRoutePolicyKind::SingleRoute
        ==> p.early_stopped == (executable_routes_of(selection_for(ir)).len() > 1)
    &&& p.route_policy == PlannerRoutePolicyKind::MultiRouteCandidates ==> !p.early_stopped
}


/// The facts that `plan` states of its result, gathered into [`is_route_plan_for`].
pub proof fn lemma_route_plan_for(p: PlannerRoutePlan, ir: PlannerQueryIr)
    requires
        traces_shaped(p.traces@),
        p.capabilities@.len() == 4,
        forall|i: int| 0 <= i < 4 ==> (#[trigger] p.capabilities@[i]).route_kind == route_order()[i],
        p.route_policy == policy_for(ir).kind,
        p.low_signal == policy_for(ir).low_signal,
        p.budget_exhausted == selection_for(ir).budget_exhausted,
        p.partial_results == partial_results_spec(p.traces@, p.candidates@.len()),
        forall|i: int| 0 <= i < 4 && !executable_routes_of(selection_for(ir)).contains(route_order()[i])
            ==> is_initial_trace(#[trigger] p.traces@[i], ir, p.capabilities@[i].available, policy_for(ir).kind,
                policy_for(ir).routes, seq![policy_for(ir).note], selection_for(ir).zero_budget,
                selection_for(ir).exhausted, route_order()[i]),
        ({
            let c = cap_diagnostics(p.capabilities@);
            let low: int = if p.low_signal { 1 } else { 0 };
            let budget: int = if p.budget_exhausted { 1 } else { 0 };
            &&& p.diagnostics@.len() >= c.len() + low + budget
            &&& p.diagnostics@.subrange(0, c.len() as int) == c
            &&& p.low_signal ==> is_diagnostic(p.diagnostics@[c.len() as int], PlannerDiagnosticSeverity::Warning,
                "planner_low_signal_query"@, low_signal_message())
            &&& p.budget_exhausted ==> is_diagnostic(p.diagnostics@[c.len() + low], PlannerDiagnosticSeverity::Warning,
                "planner_budget_exhausted"@, budget_exhausted_message())
            &&& p.partial_results ==> is_diagnostic(p.diagnostics@.last(), PlannerDiagnosticSeverity::Warning,
                "planner_partial_results"@, partial_message(count_unexecuted_selected(p.traces@)))
        }),
        p.route_policy == PlannerRoutePolicyKind::SingleRoute
            ==> p.early_stopped == (executable_routes_of(selection_for(ir)).len() > 1),
        p.route_policy == PlannerRoutePolicyKind::MultiRouteCandidates ==> !p.early_stopped,
    ensures
        is_route_plan_for(p, ir),
{
}


/// A route that the query did not plan never runs: its trace stays skipped, unselected
/// and without a candidate count.
pub proof fn law_unplanned_routes_never_run(p: PlannerRoutePlan, ir: PlannerQueryIr)
    requires
        is_route_plan_for(p, ir),
    ensures
        forall|i: int| 0 <= i < 4 && !ir.planned_routes@.contains(#[trigger] route_order()[i]) ==> {
            &&& p.traces@[i].status == PlannerRouteStatus::Skipped
            &&& !p.traces@[i].selected
            &&& p.traces@[i].candidate_count is None
        },
{
    law_only_selected_routes_run(ir);
    law_policy_selects_planned_routes(ir);
    let routes = policy_for(ir).routes;
    lemma_selection_within(ir.budgets.route_budgets@, ir.budgets.total_timeout_ms, routes);
    let m = selection_for(ir);
    assert forall|i: int| 0 <= i < 4 && !ir.planned_routes@.contains(#[trigger] route_order()[i]) implies {
        &&& p.traces@[i].status == PlannerRouteStatus::Skipped
        &&& !p.traces@[i].selected
        &&& p.traces@[i].candidate_count is None
    } by {
        let r = route_order()[i];
        if routes.contains(r) {
            let k = choose|k: int| 0 <= k < routes.len() && routes[k] == r;
            assert(ir.planned_routes@.contains(routes[k]));
        }
        if m.zero_budget.contains(r) {
            let k = choose|k: int| 0 <= k < m.zero_budget.len() && m.zero_budget[k] == r;
            assert(routes.contains(m.zero_budget[k]));
        }
        if m.exhausted.contains(r) {
            let k = choose|k: int| 0 <= k < m.exhausted.len() && m.exhausted[k] == r;
            assert(routes.contains(m.exhausted[k]));
        }
        assert(!executable_routes_of(m).contains(r));
        assert(is_initial_trace(p.traces@[i], ir, p.capabilities@[i].available, policy_for(ir).kind,
            policy_for(ir).routes, seq![policy_for(ir).note], m.zero_budget, m.exhausted, r));
    }
}

} // verus!
