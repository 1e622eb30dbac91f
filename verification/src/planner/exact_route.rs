use vstd::prelude::*;

use crate::planner::common::scaffold_warning;
use crate::planner::daemon_integration::PlannerRuntimeContext;
use crate::planner::route_adapters::{
    full_filter_capabilities, full_filter_set, PlannerRouteAdapter, PlannerRouteCapabilityReport,
    PlannerRouteConstraints, PlannerRouteExecution, PlannerRouteExecutionState,
    PlannerRouteReadiness, PlannerRouteRequest,
};
use crate::protocol::planner::{PlannerDiagnosticSeverity, PlannerQueryIr, PlannerRouteBudget, PlannerRouteKind};
use crate::text::{opt_view, views};
use crate::protocol::snapshot::ComposedSnapshot;

verus! {

/// The exact route's stand-in: no exact engine ships, so the route is never available.
#[derive(Debug, Clone, Copy, Default)]
pub struct UnavailableExactRouteProvider;

/// Why the exact route is unavailable.
pub open spec fn exact_unavailable_reason() -> Seq<char> {
    "exact route remains a typed compatibility boundary in Phase 7"@
}

impl UnavailableExactRouteProvider {
    /// Whether the exact route can run: never.
    pub fn available(&self) -> (r: bool)
        ensures
            !r,
    {
        false
    }

    /// Why the exact route cannot run.
    pub fn unavailable_reason(&self) -> (r: &'static str)
        ensures
            r@ == exact_unavailable_reason(),
    {
        "exact route remains a typed compatibility boundary in Phase 7"
    }
}

impl PlannerRouteAdapter for UnavailableExactRouteProvider {
    open spec fn reports(&self, context: PlannerRuntimeContext, snapshot: ComposedSnapshot, r: PlannerRouteCapabilityReport) -> bool {
        &&& r.route_kind == PlannerRouteKind::Exact
        &&& r.enabled == context.enabled_for(PlannerRouteKind::Exact)
        &&& !r.available
        &&& r.readiness == (if r.enabled { PlannerRouteReadiness::Unavailable } else { PlannerRouteReadiness::Disabled })
        &&& opt_view(r.reason) == Some(exact_unavailable_reason())
        &&& r.supported_filters == full_filter_set()
        &&& r.constraints == (PlannerRouteConstraints { requires_unique_target: false, emits_engine_local_scores: false, returns_file_provenance: false, returns_symbol_provenance: false, returns_span_provenance: false, planner_applies_filters_post_retrieval: false, })
        &&& r.diagnostics@.len() == 1
        &&& r.diagnostics@[0].severity == PlannerDiagnosticSeverity::Warning
        &&& r.diagnostics@[0].code@ == "exact_route_unavailable"@
        &&& r.diagnostics@[0].message@ == exact_unavailable_reason()
        &&& views(r.notes@) == seq![exact_unavailable_reason()]
    }

    open spec fn executes(
        &self,
        runtime: PlannerRuntimeContext,
        snapshot: ComposedSnapshot,
        ir: PlannerQueryIr,
        budget: PlannerRouteBudget,
        e: PlannerRouteExecution,
    ) -> bool {
        &&& e.state == PlannerRouteExecutionState::Deferred
        &&& e.candidates@.len() == 0
        &&& e.diagnostics@.len() == 0
        &&& views(e.notes@) == seq![exact_unavailable_reason()]
        &&& e.elapsed_ms == 0
        &&& e.ambiguity is None
    }
    fn kind(&self) -> PlannerRouteKind {
        PlannerRouteKind::Exact
    }

    /// The exact route is never available: disabled or unavailable as the context enables
    /// it, with the reason given, every filter supported, no result promises, one warning
    /// and one note that carry the reason.
    fn capability(&self, context: &PlannerRuntimeContext, snapshot: &ComposedSnapshot) -> (r: PlannerRouteCapabilityReport)
        ensures
            r.route_kind == PlannerRouteKind::Exact,
            r.enabled == context.enabled_for(PlannerRouteKind::Exact),
            !r.available,
            r.readiness == (if r.enabled { PlannerRouteReadiness::Unavailable } else { PlannerRouteReadiness::Disabled }),
            opt_view(r.reason) == Some(exact_unavailable_reason()),
            r.supported_filters == full_filter_set(),
            r.constraints == (PlannerRouteConstraints {
                requires_unique_target: false,
                emits_engine_local_scores: false,
                returns_file_provenance: false,
                returns_symbol_provenance: false,
                returns_span_provenance: false,
                planner_applies_filters_post_retrieval: false,
            }),
            r.diagnostics@.len() == 1,
            r.diagnostics@[0].severity == PlannerDiagnosticSeverity::Warning,
            r.diagnostics@[0].code@ == "exact_route_unavailable"@,
            r.diagnostics@[0].message@ == exact_unavailable_reason(),
            views(r.notes@) == seq![exact_unavailable_reason()],
    {
        let enabled = context.route_enabled(PlannerRouteKind::Exact);
        let reason = self.unavailable_reason();
        let r = PlannerRouteCapabilityReport {
            route_kind: PlannerRouteKind::Exact,
            enabled,
            available: false,
            readiness: if enabled { PlannerRouteReadiness::Unavailable } else { PlannerRouteReadiness::Disabled },
            reason: Some(reason.to_owned()),
            supported_filters: full_filter_capabilities(),
            constraints: PlannerRouteConstraints::default(),
            diagnostics: vec![scaffold_warning("exact_route_unavailable", reason)],
            notes: vec![reason.to_owned()],
        };
        proof {
            assert(views(r.notes@) =~= seq![exact_unavailable_reason()]);
        }
        r
    }

    /// Execution is deferred: no candidates, no diagnostics, one note with the reason,
    /// no time spent and no ambiguity.
    fn execute(&self, request: &PlannerRouteRequest<'_>) -> (r: PlannerRouteExecution)
        ensures
            r.state == PlannerRouteExecutionState::Deferred,
            r.candidates@.len() == 0,
            r.diagnostics@.len() == 0,
            views(r.notes@) == seq![exact_unavailable_reason()],
            r.elapsed_ms == 0,
            r.ambiguity is None,
    {
        let r = PlannerRouteExecution {
            state: PlannerRouteExecutionState::Deferred,
            candidates: Vec::new(),
            diagnostics: Vec::new(),
            notes: vec![self.unavailable_reason().to_owned()],
            elapsed_ms: 0,
            ambiguity: None,
        };
        proof {
            assert(views(r.notes@) =~= seq![exact_unavailable_reason()]);
        }
        r
    }
}

} // verus!
