use vstd::prelude::*;

use crate::planner::common::{scaffold_info, scaffold_warning};
use crate::protocol::config::{default_budget_policy, is_default_budget_policy};
use crate::protocol::planner::{
    PlannerBudgetPolicy, PlannerCapabilities, PlannerDiagnostic, PlannerDiagnosticSeverity,
    PlannerFilterCapabilities, PlannerMode, PlannerQueryState, PlannerRouteCapability,
    PlannerRouteKind,
};
use crate::text::opt_view;

verus! {

/// What the daemon tells the planner about the routes of one repository.
#[derive(Debug, Clone, PartialEq, Eq)]
pub struct PlannerRuntimeContext {
    pub planner_enabled: bool,
    pub exact_enabled: bool,
    pub symbol_available: bool,
    pub semantic_available: bool,
    pub impact_available: bool,
    pub exact_available: bool,
    pub default_mode: PlannerMode,
    pub default_limit: u32,
    pub max_limit: u32,
    pub budget_policy: PlannerBudgetPolicy,
}

impl Default for PlannerRuntimeContext {
    fn default() -> (c: Self)
        ensures
            c.planner_enabled,
            c.exact_enabled,
            c.symbol_available,
            c.semantic_available,
            c.impact_available,
            !c.exact_available,
            c.default_mode == PlannerMode::Auto,
            c.default_limit == 10,
            c.max_limit == 50,
            is_default_budget_policy(c.budget_policy),
    {
        PlannerRuntimeContext {
            planner_enabled: true,
            exact_enabled: true,
            symbol_available: true,
            semantic_available: true,
            impact_available: true,
            exact_available: false,
            default_mode: PlannerMode::Auto,
            default_limit: 10,
            max_limit: 50,
            budget_policy: default_budget_policy(),
        }
    }
}

impl PlannerRuntimeContext {
    /// Whether a route is switched on by configuration.
    pub open spec fn enabled_for(&self, route_kind: PlannerRouteKind) -> bool {
        match route_kind {
            PlannerRouteKind::Exact => self.exact_enabled,
            PlannerRouteKind::Symbol => self.symbol_available,
            PlannerRouteKind::Semantic => self.semantic_available,
            PlannerRouteKind::Impact => self.impact_available,
        }
    }

    /// Whether a route can answer queries now.
    pub open spec fn available_for(&self, route_kind: PlannerRouteKind) -> bool {
        match route_kind {
            PlannerRouteKind::Exact => self.exact_enabled && self.exact_available,
            PlannerRouteKind::Symbol => self.symbol_available,
            PlannerRouteKind::Semantic => self.semantic_available,
            PlannerRouteKind::Impact => self.impact_available,
        }
    }

    /// The overall query state.
    pub open spec fn state(&self) -> PlannerQueryState {
        if !self.planner_enabled {
            PlannerQueryState::Disabled
        } else if self.symbol_available || self.semantic_available || self.impact_available {
            PlannerQueryState::Ready
        } else {
            PlannerQueryState::Degraded
        }
    }

    /// Why a route cannot answer, if it cannot.
    pub open spec fn unavailable_reason(&self, route_kind: PlannerRouteKind) -> Option<Seq<char>> {
        match route_kind {
            PlannerRouteKind::Exact => if !self.exact_available {
                Some("exact route boundary exists but no exact engine ships yet"@)
            } else {
                None
            },
            PlannerRouteKind::Symbol => if !self.symbol_available {
                Some("symbol route is disabled by runtime configuration"@)
            } else {
                None
            },
            PlannerRouteKind::Semantic => if !self.semantic_available {
                Some("semantic route is disabled by runtime configuration"@)
            } else {
                None
            },
            PlannerRouteKind::Impact => if !self.impact_available {
                Some("impact route is disabled by runtime configuration"@)
            } else {
                None
            },
        }
    }

    /// Whether `cap` is this context's capability entry for `route_kind`.
    pub open spec fn describes_route(&self, cap: PlannerRouteCapability, route_kind: PlannerRouteKind) -> bool {
        &&& cap.route_kind == route_kind
        &&& cap.enabled == self.enabled_for(route_kind)
        &&& cap.available == self.available_for(route_kind)
        &&& opt_view(cap.reason) == self.unavailable_reason(route_kind)
    }

    /// Whether a route is switched on by configuration.
    pub fn route_enabled(&self, route_kind: PlannerRouteKind) -> (r: bool)
        ensures
            r == self.enabled_for(route_kind),
    {
        match route_kind {
            PlannerRouteKind::Exact => self.exact_enabled,
            PlannerRouteKind::Symbol => self.symbol_available,
            PlannerRouteKind::Semantic => self.semantic_available,
            PlannerRouteKind::Impact => self.impact_available,
        }
    }

    /// Whether a route can answer queries now.
    pub fn route_available(&self, route_kind: PlannerRouteKind) -> (r: bool)
        ensures
            r == self.available_for(route_kind),
    {
        match route_kind {
            PlannerRouteKind::Exact => self.exact_enabled && self.exact_available,
            PlannerRouteKind::Symbol => self.symbol_available,
            PlannerRouteKind::Semantic => self.semantic_available,
            PlannerRouteKind::Impact => self.impact_available,
        }
    }

    /// Disabled when the planner is off, ready when a retrieval route is up, else degraded.
    pub fn query_state(&self) -> (s: PlannerQueryState)
        ensures
            s == self.state(),
    {
        if !self.planner_enabled {
            PlannerQueryState::Disabled
        } else if self.symbol_available || self.semantic_available || self.impact_available {
            PlannerQueryState::Ready
        } else {
            PlannerQueryState::Degraded
        }
    }

    /// What the planner offers: every mode, every filter, and one entry per route.
    pub fn capabilities(&self) -> (c: PlannerCapabilities)
        ensures
            c.status,
            c.query == self.planner_enabled,
            c.explain == self.planner_enabled,
            c.trace == self.planner_enabled,
            c.explicit_mode_override,
            c.modes@ == seq![
                PlannerMode::Auto,
                PlannerMode::Exact,
                PlannerMode::Symbol,
                PlannerMode::Semantic,
                PlannerMode::Impact,
            ],
            c.filters == (PlannerFilterCapabilities {
                path_globs: true,
                package_names: true,
                package_roots: true,
                workspace_roots: true,
                languages: true,
                extensions: true,
                symbol_kinds: true,
            }),
            c.routes@.len() == 4,
            self.describes_route(c.routes@[0], PlannerRouteKind::Exact),
            self.describes_route(c.routes@[1], PlannerRouteKind::Symbol),
            self.describes_route(c.routes@[2], PlannerRouteKind::Semantic),
            self.describes_route(c.routes@[3], PlannerRouteKind::Impact),
    {
        PlannerCapabilities {
            status: true,
            query: self.planner_enabled,
            explain: self.planner_enabled,
            trace: self.planner_enabled,
            explicit_mode_override: true,
            modes: vec![
                PlannerMode::Auto,
                PlannerMode::Exact,
                PlannerMode::Symbol,
                PlannerMode::Semantic,
                PlannerMode::Impact,
            ],
            filters: PlannerFilterCapabilities {
                path_globs: true,
                package_names: true,
                package_roots: true,
                workspace_roots: true,
                languages: true,
                extensions: true,
                symbol_kinds: true,
            },
            routes: vec![
                self.route_capability(PlannerRouteKind::Exact),
                self.route_capability(PlannerRouteKind::Symbol),
                self.route_capability(PlannerRouteKind::Semantic),
                self.route_capability(PlannerRouteKind::Impact),
            ],
        }
    }

    fn route_capability(&self, route_kind: PlannerRouteKind) -> (cap: PlannerRouteCapability)
        ensures
            self.describes_route(cap, route_kind),
    {
        let available = self.route_available(route_kind);
        let reason = match route_kind {
            PlannerRouteKind::Exact => if !self.exact_available {
                Some("exact route boundary exists but no exact engine ships yet".to_owned())
            } else {
                None
            },
            PlannerRouteKind::Symbol => if !self.symbol_available {
                Some("symbol route is disabled by runtime configuration".to_owned())
            } else {
                None
            },
            PlannerRouteKind::Semantic => if !self.semantic_available {
                Some("semantic route is disabled by runtime configuration".to_owned())
            } else {
                None
            },
            PlannerRouteKind::Impact => if !self.impact_available {
                Some("impact route is disabled by runtime configuration".to_owned())
            } else {
                None
            },
        };
        PlannerRouteCapability {
            route_kind,
            enabled: self.route_enabled(route_kind),
            available,
            reason,
        }
    }
}

/// Whether `d` has the given severity, code and message.
pub open spec fn is_diagnostic(d: PlannerDiagnostic, severity: PlannerDiagnosticSeverity, code: Seq<char>, message: Seq<char>) -> bool {
    d.severity == severity && d.code@ == code && d.message@ == message
}

/// The diagnostics a planner status reports for `context`: a scaffold note, then a warning
/// when the exact engine is missing, then one when the planner is disabled.
pub fn runtime_diagnostics(context: &PlannerRuntimeContext) -> (ds: Vec<PlannerDiagnostic>)
    ensures
        ds@.len() == 1 + (if !context.exact_available { 1int } else { 0 }) + (if !context.planner_enabled { 1int } else { 0 }),
        is_diagnostic(ds@[0], PlannerDiagnosticSeverity::Info, "planner_runtime_scaffold"@,
            "planner runtime glue is scaffolded and remains snapshot-scoped"@),
        !context.exact_available ==> is_diagnostic(ds@[1], PlannerDiagnosticSeverity::Warning,
            "exact_route_unavailable"@, "exact route remains unavailable in the current repository"@),
        !context.planner_enabled ==> is_diagnostic(ds@[ds@.len() - 1], PlannerDiagnosticSeverity::Warning,
            "planner_disabled"@, "planner configuration is disabled; query and explain responses will remain empty"@),
{
    let mut diagnostics = vec![scaffold_info(
        "planner_runtime_scaffold",
        "planner runtime glue is scaffolded and remains snapshot-scoped",
    )];
    if !context.exact_available {
        diagnostics.push(scaffold_warning(
            "exact_route_unavailable",
            "exact route remains unavailable in the current repository",
        ));
    }
    if !context.planner_enabled {
        diagnostics.push(scaffold_warning(
            "planner_disabled",
            "planner configuration is disabled; query and explain responses will remain empty",
        ));
    }
    diagnostics
}

} // verus!
