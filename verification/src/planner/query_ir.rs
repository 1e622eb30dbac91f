use vstd::prelude::*;

use crate::planner::common::{normalize_query, normalized};
use crate::planner::copy::{copy_vec, DeepCopy};
use crate::planner::daemon_integration::PlannerRuntimeContext;
use crate::planner::intent_router::ClassifiedIntent;
use crate::planner::planner_model::PlannerError;
use crate::planner::route_policy::copy_routes;
use crate::protocol::planner::{
    PlannerBudgetHints, PlannerBudgetPolicy, PlannerQueryFilters, PlannerQueryIr,
    PlannerQueryParams, PlannerRouteHints,
};
use crate::protocol::snapshot::ComposedSnapshot;

verus! {

/// Builds the planner's structured reading of a query.
#[derive(Debug, Default, Clone, Copy)]
pub struct QueryIrBuilder;

/// The budget policy after applying a request's overrides to the defaults: each given
/// override replaces its default, and a non-empty list of route budgets replaces the
/// default list.
pub open spec fn merged_budgets(defaults: PlannerBudgetPolicy, overrides: Option<PlannerBudgetHints>, b: PlannerBudgetPolicy) -> bool {
    match overrides {
        None => {
            &&& b.total_timeout_ms == defaults.total_timeout_ms
            &&& b.max_groups == defaults.max_groups
            &&& b.route_budgets@ == defaults.route_budgets@
        },
        Some(o) => {
            &&& b.total_timeout_ms == (match o.total_timeout_ms { Some(t) => t, None => defaults.total_timeout_ms })
            &&& b.max_groups == (match o.max_groups { Some(g) => g, None => defaults.max_groups })
            &&& b.route_budgets@ == (if o.route_budgets@.len() > 0 { o.route_budgets@ } else { defaults.route_budgets@ })
        },
    }
}

/// Applies a request's budget overrides to the default budget policy.
pub fn merge_budget_policy(defaults: &PlannerBudgetPolicy, overrides: Option<&PlannerBudgetHints>) -> (b: PlannerBudgetPolicy)
    ensures
        merged_budgets(*defaults, match overrides { Some(o) => Some(*o), None => None }, b),
{
    match overrides {
        None => PlannerBudgetPolicy {
            total_timeout_ms: defaults.total_timeout_ms,
            max_groups: defaults.max_groups,
            route_budgets: copy_vec(&defaults.route_budgets),
        },
        Some(o) => PlannerBudgetPolicy {
            total_timeout_ms: match o.total_timeout_ms { Some(t) => t, None => defaults.total_timeout_ms },
            max_groups: match o.max_groups { Some(g) => g, None => defaults.max_groups },
            route_budgets: if o.route_budgets.len() > 0 {
                copy_vec(&o.route_budgets)
            } else {
                copy_vec(&defaults.route_budgets)
            },
        },
    }
}

/// The number of groups a query asks for, at least one and at most the runtime maximum.
pub open spec fn clamped_limit(requested: u32, max_limit: u32) -> u32 {
    let at_least_one = if requested < 1 { 1u32 } else { requested };
    if at_least_one > max_limit { max_limit } else { at_least_one }
}

/// The limit the planner uses is at least one and, when the runtime allows any groups,
/// at most the runtime maximum; a request within those bounds keeps its limit.
pub proof fn law_limit_is_clamped(requested: u32, max_limit: u32)
    ensures
        max_limit >= 1 ==> 1 <= clamped_limit(requested, max_limit) <= max_limit,
        1 <= requested <= max_limit ==> clamped_limit(requested, max_limit) == requested,
{
}

/// Whether two filter sets hold the same values.
pub open spec fn same_filters(a: PlannerQueryFilters, b: PlannerQueryFilters) -> bool {
    &&& a.path_globs@ == b.path_globs@
    &&& a.package_names@ == b.package_names@
    &&& a.package_roots@ == b.package_roots@
    &&& a.workspace_roots@ == b.workspace_roots@
    &&& a.languages@ == b.languages@
    &&& a.extensions@ == b.extensions@
    &&& a.symbol_kinds@ == b.symbol_kinds@
}

pub(crate) fn copy_filters(f: &PlannerQueryFilters) -> (r: PlannerQueryFilters)
    ensures
        same_filters(r, *f),
{
    PlannerQueryFilters {
        path_globs: copy_vec(&f.path_globs),
        package_names: copy_vec(&f.package_names),
        package_roots: copy_vec(&f.package_roots),
        workspace_roots: copy_vec(&f.workspace_roots),
        languages: copy_vec(&f.languages),
        extensions: copy_vec(&f.extensions),
        symbol_kinds: copy_vec(&f.symbol_kinds),
    }
}

/// Whether `ir` is the reading built from a request, its snapshot and its classified
/// intent.
pub open spec fn built_ir(ir: PlannerQueryIr, context: PlannerRuntimeContext, params: PlannerQueryParams, snapshot: ComposedSnapshot, intent: ClassifiedIntent) -> bool {
    &&& ir.repo_id@ == snapshot.repo_id@
    &&& ir.snapshot_id@ == snapshot.snapshot_id@
    &&& ir.surface_query@ == params.query.text@
    &&& ir.normalized_query@ == normalized(params.query.text@)
    &&& ir.selected_mode == intent.mode.selected_mode
    &&& ir.primary_style == intent.primary_style
    &&& ir.candidate_styles@ == intent.candidate_styles@
    &&& ir.planned_routes@ == intent.planned_routes@
    &&& ir.intent_signals@ == intent.intent_signals@
    &&& ir.limit == clamped_limit(params.limit, context.max_limit)
    &&& ir.selected_context == params.selected_context
    &&& ir.target_context == params.target_context
    &&& ir.exact_query == intent.exact_query
    &&& ir.symbol_query == intent.symbol_query
    &&& ir.semantic_query == intent.semantic_query
    &&& ir.impact_query == intent.impact_query
    &&& same_filters(ir.filters, params.filters)
    &&& ir.route_hints.preferred_routes@ == params.route_hints.preferred_routes@
    &&& ir.route_hints.disabled_routes@ == params.route_hints.disabled_routes@
    &&& ir.route_hints.require_exact_seed == params.route_hints.require_exact_seed
    &&& merged_budgets(context.budget_policy, params.budgets, ir.budgets)
}

impl QueryIrBuilder {
    /// Builds the reading of a query; a query whose text is blank once whitespace is
    /// collapsed is refused.
    pub fn build(
        &self,
        context: &PlannerRuntimeContext,
        params: &PlannerQueryParams,
        snapshot: &ComposedSnapshot,
        intent: ClassifiedIntent,
    ) -> (r: Result<PlannerQueryIr, PlannerError>)
        ensures
            match r {
                Ok(ir) => normalized(params.query.text@).len() > 0 && built_ir(ir, *context, *params, *snapshot, intent),
                Err(PlannerError::InvalidQuery(detail)) => normalized(params.query.text@).len() == 0
                    && detail@ == "planner query text must not be empty"@,
                Err(_) => false,
            },
    {
        let normalized_query = normalize_query(params.query.text.as_str());
        if normalized_query.as_str().is_empty() {
            return Err(PlannerError::InvalidQuery("planner query text must not be empty".to_owned()));
        }
        let budgets = merge_budget_policy(&context.budget_policy, params.budgets.as_ref());
        let at_least_one = if params.limit < 1 { 1 } else { params.limit };
        let limit = if at_least_one > context.max_limit { context.max_limit } else { at_least_one };
        let ClassifiedIntent {
            mode,
            primary_style,
            candidate_styles,
            planned_routes,
            intent_signals,
            exact_query,
            symbol_query,
            semantic_query,
            impact_query,
        } = intent;
        Ok(PlannerQueryIr {
            repo_id: snapshot.repo_id.clone(),
            snapshot_id: snapshot.snapshot_id.clone(),
            surface_query: params.query.text.clone(),
            normalized_query,
            selected_mode: mode.selected_mode,
            primary_style,
            candidate_styles,
            planned_routes,
            intent_signals,
            limit,
            selected_context: params.selected_context.deep_copy(),
            target_context: params.target_context.deep_copy(),
            exact_query,
            symbol_query,
            semantic_query,
            impact_query,
            filters: copy_filters(&params.filters),
            route_hints: PlannerRouteHints {
                preferred_routes: copy_routes(&params.route_hints.preferred_routes),
                disabled_routes: copy_routes(&params.route_hints.disabled_routes),
                require_exact_seed: params.route_hints.require_exact_seed,
            },
            budgets,
        })
    }
}

} // verus!
