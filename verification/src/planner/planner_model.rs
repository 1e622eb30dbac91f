use vstd::prelude::*;

use crate::planner::common::normalized;
use crate::planner::copy::copy_vec;
use crate::planner::daemon_integration::PlannerRuntimeContext;
use crate::planner::intent_router::{classification, ClassifiedIntent, IntentRouter};
use crate::planner::planner_engine::{query_response_of, scaffold_of, PlannerEngine, PlannerScaffoldOutput};
use crate::planner::query_ir::{built_ir, QueryIrBuilder};
use crate::planner::result_grouping::ResultGrouping;
use crate::planner::route_registry::{is_route_plan_for, lemma_route_plan_for, PlannerRoutePlan, PlannerRouteRegistry};
use crate::protocol::planner::{PlannerModeDecision, PlannerQueryIr, PlannerQueryParams, PlannerQueryResponse};
use crate::protocol::snapshot::ComposedSnapshot;
use crate::planner::score_fusion::ScoreFusion;
use crate::planner::trust_payloads::TrustPayloadFactory;
use crate::text::{owned, push_str};

verus! {

/// Why the planner refused a request.
#[derive(Debug, Clone, PartialEq, Eq)]
pub enum PlannerError {
    InvalidQuery(String),
    SnapshotMismatch {
        requested_repo_id: String,
        requested_snapshot_id: String,
        loaded_repo_id: String,
        loaded_snapshot_id: String,
    },
}

/// The human-readable message of a planner error.
pub open spec fn planner_error_message(e: PlannerError) -> Seq<char> {
    match e {
        PlannerError::InvalidQuery(detail) => "planner query is invalid: "@ + detail@,
        PlannerError::SnapshotMismatch { requested_repo_id, requested_snapshot_id, loaded_repo_id, loaded_snapshot_id } =>
            "planner snapshot mismatch: requested repo="@ + requested_repo_id@ + " snapshot="@
                + requested_snapshot_id@ + ", loaded repo="@ + loaded_repo_id@ + " snapshot="@
                + loaded_snapshot_id@,
    }
}

impl PlannerError {
    /// The human-readable message of this error.
    pub fn message(&self) -> (r: String)
        ensures
            r@ == planner_error_message(*self),
    {
        match self {
            PlannerError::InvalidQuery(detail) => {
                let mut r = owned("planner query is invalid: ");
                push_str(&mut r, detail.as_str());
                r
            }
            PlannerError::SnapshotMismatch { requested_repo_id, requested_snapshot_id, loaded_repo_id, loaded_snapshot_id } => {
                let mut r = owned("planner snapshot mismatch: requested repo=");
                push_str(&mut r, requested_repo_id.as_str());
                push_str(&mut r, " snapshot=");
                push_str(&mut r, requested_snapshot_id.as_str());
                push_str(&mut r, ", loaded repo=");
                push_str(&mut r, loaded_repo_id.as_str());
                push_str(&mut r, " snapshot=");
                push_str(&mut r, loaded_snapshot_id.as_str());
                r
            }
        }
    }
}


/// The planner's stages, from intent classification to trust decoration.
pub struct PlannerWorkspace {
    pub intent_router: IntentRouter,
    pub ir_builder: QueryIrBuilder,
    pub route_registry: PlannerRouteRegistry,
    pub engine: PlannerEngine,
    pub fusion: ScoreFusion,
    pub grouping: ResultGrouping,
    pub trust_payloads: TrustPayloadFactory,
}

impl Default for PlannerWorkspace {
    /// The stages with the default route registry.
    fn default() -> (w: Self)
        ensures
            w.route_registry.adapter_count() == 4,
    {
        PlannerWorkspace {
            intent_router: IntentRouter,
            ir_builder: QueryIrBuilder,
            route_registry: PlannerRouteRegistry::default(),
            engine: PlannerEngine,
            fusion: ScoreFusion,
            grouping: ResultGrouping,
            trust_payloads: TrustPayloadFactory,
        }
    }
}


/// Whether two mode decisions agree, reasons compared by value.
pub open spec fn same_mode(a: PlannerModeDecision, b: PlannerModeDecision) -> bool {
    &&& a.requested_mode == b.requested_mode
    &&& a.selected_mode == b.selected_mode
    &&& a.source == b.source
    &&& a.reasons@ == b.reasons@
}

fn copy_mode(m: &PlannerModeDecision) -> (r: PlannerModeDecision)
    ensures
        same_mode(r, *m),
{
    PlannerModeDecision {
        requested_mode: m.requested_mode,
        selected_mode: m.selected_mode,
        source: m.source,
        reasons: copy_vec(&m.reasons),
    }
}

impl PlannerWorkspace {
    /// Answers a planner query against a loaded snapshot: a request for another repository
    /// or snapshot is refused, a blank query is refused, and otherwise the query is
    /// classified, read into its structured form, routed and assembled into a response.
    pub fn plan(
        &self,
        context: &PlannerRuntimeContext,
        params: &PlannerQueryParams,
        snapshot: &ComposedSnapshot,
    ) -> (r: Result<PlannerQueryResponse, PlannerError>)
        ensures
            params.repo_id@ != snapshot.repo_id@ || params.snapshot_id@ != snapshot.snapshot_id@
                ==> (r matches Err(PlannerError::SnapshotMismatch { requested_repo_id, requested_snapshot_id, loaded_repo_id, loaded_snapshot_id })
                    && requested_repo_id@ == params.repo_id@ && requested_snapshot_id@ == params.snapshot_id@
                    && loaded_repo_id@ == snapshot.repo_id@ && loaded_snapshot_id@ == snapshot.snapshot_id@),
            params.repo_id@ == snapshot.repo_id@ && params.snapshot_id@ == snapshot.snapshot_id@
                && normalized(params.query.text@).len() == 0
                ==> (r matches Err(PlannerError::InvalidQuery(detail)) && detail@ == "planner query text must not be empty"@),
            params.repo_id@ == snapshot.repo_id@ && params.snapshot_id@ == snapshot.snapshot_id@
                && normalized(params.query.text@).len() > 0
                ==> (r matches Ok(resp) && exists|c: ClassifiedIntent, ir: PlannerQueryIr, p: PlannerRoutePlan, out: PlannerScaffoldOutput|
                    #![trigger classification(c, *params, context.default_mode), built_ir(ir, *context, *params, *snapshot, c),
                        is_route_plan_for(p, ir), scaffold_of(out, *context, *snapshot, *params, out.mode, ir, p)]
                    classification(c, *params, context.default_mode)
                        && built_ir(ir, *context, *params, *snapshot, c)
                        && is_route_plan_for(p, ir)
                        && same_mode(out.mode, c.mode)
                        && scaffold_of(out, *context, *snapshot, *params, out.mode, ir, p)
                        && query_response_of(resp, out, *snapshot, *params)),
    {
        if params.repo_id != snapshot.repo_id || params.snapshot_id != snapshot.snapshot_id {
            return Err(PlannerError::SnapshotMismatch {
                requested_repo_id: params.repo_id.clone(),
                requested_snapshot_id: params.snapshot_id.clone(),
                loaded_repo_id: snapshot.repo_id.clone(),
                loaded_snapshot_id: snapshot.snapshot_id.clone(),
            });
        }
        let intent = self.intent_router.classify(params, context.default_mode);
        let ghost c = intent;
        let mode = copy_mode(&intent.mode);
        let ir = match self.ir_builder.build(context, params, snapshot, intent) {
            Ok(ir) => ir,
            Err(e) => return Err(e),
        };
        let route_plan = self.route_registry.plan(context, snapshot, &ir);
        proof {
            lemma_route_plan_for(route_plan, ir);
        }
        let ghost (m, i, p) = (mode, ir, route_plan);
        let r = self.engine.query_scaffold(self, context, snapshot, params, mode, ir, route_plan,
            &self.fusion, &self.grouping, &self.trust_payloads);
        proof {
            if r is Ok {
                let resp = r->Ok_0;
                let out = choose|out: PlannerScaffoldOutput| #[trigger] scaffold_of(out, *context, *snapshot, *params, m, i, p)
                    && query_response_of(resp, out, *snapshot, *params);
                assert(out.mode == m);
                assert(classification(c, *params, context.default_mode));
                assert(built_ir(i, *context, *params, *snapshot, c));
                assert(is_route_plan_for(p, i));
                assert(scaffold_of(out, *context, *snapshot, *params, out.mode, i, p));
            }
        }
        r
    }
}

} // verus!
