use vstd::prelude::*;

use crate::protocol::impact::ImpactEntityRef;
use crate::protocol::symbols::{LanguageId, SourceSpan, SymbolId, SymbolKind};

verus! {

#[derive(Debug, Clone, Copy, PartialEq, Eq, Structural)]
pub enum PlannerIntentKind {
    Lookup,
    Semantic,
    Impact,
    Hybrid,
}

#[derive(Debug, Clone, Copy, PartialEq, Eq, Structural)]
pub enum PlannerIntentSource {
    ExplicitHint,
    Heuristic,
}

/// The retrieval mode a query runs in.
#[derive(Debug, Clone, Copy, PartialEq, Eq, Structural)]
pub enum PlannerMode {
    Auto,
    Exact,
    Symbol,
    Semantic,
    Impact,
}

#[derive(Debug, Clone, Copy, PartialEq, Eq, Structural)]
pub enum PlannerModeSelectionSource {
    ExplicitOverride,
    Heuristic,
}

#[derive(Debug, Clone, Copy, PartialEq, Eq, Structural)]
pub enum PlannerQueryStyle {
    ExactLookup,
    SymbolLookup,
    SemanticLookup,
    ImpactAnalysis,
}

#[derive(Debug, Clone, Copy, PartialEq, Eq, Structural)]
pub enum PlannerIntentSignal {
    ExplicitModeOverride,
    RegexLike,
    QuotedLiteral,
    PathLike,
    GlobLike,
    IdentifierLike,
    QualifiedSymbolLike,
    NaturalLanguageQuestion,
    MultiTokenQuery,
    ImpactPhrase,
    SelectedSymbolContext,
    SelectedFileContext,
    SelectedSpanContext,
    SelectedPackageContext,
    SelectedWorkspaceContext,
    SelectedImpactContext,
    TargetContextProvided,
    FilterScopeProvided,
}

#[derive(Debug, Clone, Copy, PartialEq, Eq, Structural)]
pub enum PlannerRouteKind {
    Exact,
    Symbol,
    Semantic,
    Impact,
}

#[derive(Debug, Clone, Copy, PartialEq, Eq, Structural)]
pub enum PlannerRouteStatus {
    Planned,
    Skipped,
    Executed,
    Deferred,
}

#[derive(Debug, Clone, Copy, PartialEq, Eq, Structural)]
pub enum PlannerSkipReason {
    ExactEngineUnavailable,
    CapabilityDisabled,
    ExecutionDeferred,
}

#[derive(Debug, Clone, Copy, PartialEq, Eq, Structural)]
pub enum PlannerRouteSkipReason {
    ExactEngineUnavailable,
    CapabilityDisabled,
    ExecutionDeferred,
    FilteredByMode,
    FilteredByRouteHint,
}

#[derive(Debug, Clone, Copy, PartialEq, Eq, Structural)]
pub enum PlannerDiagnosticSeverity {
    Info,
    Warning,
}

#[derive(Debug, Clone, Copy, PartialEq, Eq, Structural)]
pub enum PlannerExactMatchStyle {
    Regex,
    Literal,
    Path,
    Glob,
}

#[derive(Debug, Clone, Copy, PartialEq, Eq, Structural)]
pub enum PlannerEvidenceKind {
    ExactMatch,
    SymbolHit,
    SemanticHit,
    ImpactHit,
    ContextSeed,
    FilterMatch,
}

#[derive(Debug, Clone, Copy, PartialEq, Eq, Structural)]
pub enum PlannerTrustTier {
    High,
    Medium,
    Low,
    NeedsReview,
}

#[derive(Debug, Clone, Copy, PartialEq, Eq, Structural)]
pub enum PlannerAmbiguityReason {
    MultipleAnchorsRemain,
    MultipleSymbolsMatched,
}

#[derive(Debug, Clone, Copy, PartialEq, Eq, Structural)]
pub enum PlannerNoAnswerReason {
    PlannerDisabled,
    NoRouteAvailable,
    ExecutionDeferred,
    FiltersExcludedAllCandidates,
    NoCandidateMatched,
}

#[derive(Debug, Clone, Copy, PartialEq, Eq, Structural)]
pub enum PlannerQueryState {
    Disabled,
    Ready,
    Degraded,
}

#[derive(Debug, Clone, PartialEq, Eq)]
pub struct PlannerQueryText {
    pub text: String,
}

/// A grounded location that a query can be anchored to.
#[derive(Debug, Clone, PartialEq, Eq)]
pub enum PlannerContextRef {
    Symbol { symbol_id: SymbolId, path: String, span: Option<SourceSpan>, display_name: Option<String> },
    Span { path: String, span: SourceSpan },
    File { path: String },
    Package { package_name: String, package_root: String },
    Workspace { workspace_root: String },
    Impact { entity: ImpactEntityRef },
}

#[derive(Debug, Clone, PartialEq, Eq, Default)]
pub struct PlannerQueryFilters {
    pub path_globs: Vec<String>,
    pub package_names: Vec<String>,
    pub package_roots: Vec<String>,
    pub workspace_roots: Vec<String>,
    pub languages: Vec<LanguageId>,
    pub extensions: Vec<String>,
    pub symbol_kinds: Vec<SymbolKind>,
}

#[derive(Debug, Clone, PartialEq, Eq, Default)]
pub struct PlannerRouteHints {
    pub preferred_routes: Vec<PlannerRouteKind>,
    pub disabled_routes: Vec<PlannerRouteKind>,
    pub require_exact_seed: bool,
}

#[derive(Debug, Clone, Copy, PartialEq, Eq, Structural)]
pub struct PlannerRouteBudget {
    pub route_kind: PlannerRouteKind,
    pub max_candidates: u32,
    pub max_groups: u32,
    pub timeout_ms: u64,
}

#[derive(Debug, Clone, PartialEq, Eq)]
pub struct PlannerBudgetPolicy {
    pub total_timeout_ms: u64,
    pub max_groups: u32,
    pub route_budgets: Vec<PlannerRouteBudget>,
}

#[derive(Debug, Clone, PartialEq, Eq)]
pub struct PlannerBudgetHints {
    pub total_timeout_ms: Option<u64>,
    pub max_groups: Option<u32>,
    pub route_budgets: Vec<PlannerRouteBudget>,
}

#[derive(Debug, Clone, PartialEq, Eq)]
pub struct PlannerQueryParams {
    pub repo_id: String,
    pub snapshot_id: String,
    pub query: PlannerQueryText,
    pub mode_override: Option<PlannerMode>,
    pub selected_context: Option<PlannerContextRef>,
    pub target_context: Option<PlannerContextRef>,
    pub filters: PlannerQueryFilters,
    pub route_hints: PlannerRouteHints,
    pub budgets: Option<PlannerBudgetHints>,
    pub limit: u32,
    pub explain: bool,
    pub include_trace: bool,
}

#[derive(Debug, Clone, PartialEq, Eq)]
pub struct PlannerModeDecision {
    pub requested_mode: Option<PlannerMode>,
    pub selected_mode: PlannerMode,
    pub source: PlannerModeSelectionSource,
    pub reasons: Vec<String>,
}

#[derive(Debug, Clone, PartialEq, Eq)]
pub struct PlannerIntentDecision {
    pub selected_intent: PlannerIntentKind,
    pub source: PlannerIntentSource,
    pub reasons: Vec<String>,
}

#[derive(Debug, Clone, PartialEq, Eq)]
pub struct PlannerExactQueryIntent {
    pub normalized_term: String,
    pub match_style: PlannerExactMatchStyle,
}

#[derive(Debug, Clone, PartialEq, Eq)]
pub struct PlannerSymbolQueryIntent {
    pub normalized_symbol: String,
    pub segments: Vec<String>,
}

#[derive(Debug, Clone, PartialEq, Eq)]
pub struct PlannerSemanticQueryIntent {
    pub normalized_text: String,
    pub tokens: Vec<String>,
}

#[derive(Debug, Clone, PartialEq, Eq)]
pub struct PlannerImpactQueryIntent {
    pub normalized_text: String,
    pub action_terms: Vec<String>,
    pub subject_terms: Vec<String>,
}

/// The planner's structured reading of one query.
#[derive(Debug, Clone, PartialEq, Eq)]
pub struct PlannerQueryIr {
    pub repo_id: String,
    pub snapshot_id: String,
    pub surface_query: String,
    pub normalized_query: String,
    pub selected_mode: PlannerMode,
    pub primary_style: PlannerQueryStyle,
    pub candidate_styles: Vec<PlannerQueryStyle>,
    pub planned_routes: Vec<PlannerRouteKind>,
    pub intent_signals: Vec<PlannerIntentSignal>,
    pub limit: u32,
    pub selected_context: Option<PlannerContextRef>,
    pub target_context: Option<PlannerContextRef>,
    pub exact_query: Option<PlannerExactQueryIntent>,
    pub symbol_query: Option<PlannerSymbolQueryIntent>,
    pub semantic_query: Option<PlannerSemanticQueryIntent>,
    pub impact_query: Option<PlannerImpactQueryIntent>,
    pub filters: PlannerQueryFilters,
    pub route_hints: PlannerRouteHints,
    pub budgets: PlannerBudgetPolicy,
}

#[derive(Debug, Clone, PartialEq, Eq)]
pub struct PlannerRouteTrace {
    pub route_kind: PlannerRouteKind,
    pub available: bool,
    pub selected: bool,
    pub status: PlannerRouteStatus,
    pub skip_reason: Option<PlannerRouteSkipReason>,
    pub budget: Option<PlannerRouteBudget>,
    pub candidate_count: Option<u32>,
    pub group_count: Option<u32>,
    pub elapsed_ms: Option<u64>,
    pub notes: Vec<String>,
}

/// What a result group or candidate is anchored to.
#[derive(Debug, Clone, PartialEq, Eq)]
pub enum PlannerAnchor {
    Symbol { symbol_id: SymbolId, path: String, span: Option<SourceSpan> },
    Span { path: String, span: SourceSpan },
    Impact { entity: ImpactEntityRef },
    File { path: String },
    Package { package_name: String, package_root: String },
    Workspace { workspace_root: String },
}

#[derive(Debug, Clone, PartialEq, Eq)]
pub struct PlannerEvidenceRef {
    pub route_kind: PlannerRouteKind,
    pub path: Option<String>,
    pub span: Option<SourceSpan>,
    pub symbol_id: Option<SymbolId>,
    pub impact_entity: Option<ImpactEntityRef>,
    pub notes: Vec<String>,
}

/// One piece of route-level evidence behind a candidate or group.
#[derive(Debug, Clone, PartialEq, Eq)]
pub struct PlannerEvidenceItem {
    pub evidence_kind: PlannerEvidenceKind,
    pub route_kind: PlannerRouteKind,
    pub label: String,
    pub path: Option<String>,
    pub span: Option<SourceSpan>,
    pub symbol_id: Option<SymbolId>,
    pub impact_entity: Option<ImpactEntityRef>,
    pub snippet: Option<String>,
    pub score: Option<u32>,
    pub notes: Vec<String>,
}

#[derive(Debug, Clone, PartialEq, Eq)]
pub struct PlannerTrustPayload {
    pub tier: PlannerTrustTier,
    pub deterministic: bool,
    pub evidence_count: u32,
    pub route_agreement_count: u32,
    pub template_id: String,
    pub reasons: Vec<String>,
    pub warnings: Vec<String>,
}

#[derive(Debug, Clone, PartialEq, Eq)]
pub struct PlannerExplanationPayload {
    pub template_id: String,
    pub summary: String,
    pub details: Vec<String>,
}

#[derive(Debug, Clone, PartialEq, Eq)]
pub struct PlannerResultGroup {
    pub group_id: String,
    pub label: String,
    pub anchor: Option<PlannerAnchor>,
    pub routes: Vec<PlannerRouteKind>,
    pub trust: PlannerTrustPayload,
    pub explanation: PlannerExplanationPayload,
    pub evidence: Vec<PlannerEvidenceItem>,
    pub score: Option<u32>,
}

#[derive(Debug, Clone, PartialEq, Eq)]
pub struct PlannerCandidate {
    pub candidate_id: String,
    pub route_kind: PlannerRouteKind,
    pub label: String,
    pub anchor: PlannerAnchor,
    pub rank: Option<u32>,
    pub route_score: Option<u32>,
    pub normalized_score: Option<u32>,
    pub evidence: Vec<PlannerEvidenceItem>,
    pub notes: Vec<String>,
}

#[derive(Debug, Clone, PartialEq, Eq)]
pub struct PlannerAmbiguity {
    pub reason: PlannerAmbiguityReason,
    pub details: Vec<String>,
    pub candidate_contexts: Vec<PlannerContextRef>,
}

#[derive(Debug, Clone, PartialEq, Eq)]
pub struct PlannerNoAnswer {
    pub reason: PlannerNoAnswerReason,
    pub details: Vec<String>,
}

#[derive(Debug, Clone, PartialEq, Eq)]
pub struct PlannerDiagnostic {
    pub severity: PlannerDiagnosticSeverity,
    pub code: String,
    pub message: String,
}

#[derive(Debug, Clone, PartialEq, Eq)]
pub struct PlannerTraceStep {
    pub code: String,
    pub message: String,
}

#[derive(Debug, Clone, PartialEq, Eq)]
pub struct PlannerTrace {
    pub planner_version: String,
    pub selected_mode: PlannerMode,
    pub steps: Vec<PlannerTraceStep>,
    pub routes: Vec<PlannerRouteTrace>,
}

#[derive(Debug, Clone, Copy, PartialEq, Eq, Structural)]
pub struct PlannerQueryStats {
    pub limit_requested: u32,
    pub routes_considered: u32,
    pub routes_available: u32,
    pub candidates_considered: u32,
    pub groups_returned: u32,
    pub elapsed_ms: u64,
}

#[derive(Debug, Clone, PartialEq, Eq)]
pub struct PlannerQueryResponse {
    pub repo_id: String,
    pub snapshot_id: String,
    pub mode: PlannerModeDecision,
    pub ir: PlannerQueryIr,
    pub groups: Vec<PlannerResultGroup>,
    pub diagnostics: Vec<PlannerDiagnostic>,
    pub trace: Option<PlannerTrace>,
    pub no_answer: Option<PlannerNoAnswer>,
    pub ambiguity: Option<PlannerAmbiguity>,
    pub stats: PlannerQueryStats,
}

#[derive(Debug, Clone, PartialEq, Eq)]
pub struct PlannerExplainResponse {
    pub repo_id: String,
    pub snapshot_id: String,
    pub mode: PlannerModeDecision,
    pub ir: PlannerQueryIr,
    pub candidates: Vec<PlannerCandidate>,
    pub groups: Vec<PlannerResultGroup>,
    pub diagnostics: Vec<PlannerDiagnostic>,
    pub trace: Option<PlannerTrace>,
    pub no_answer: Option<PlannerNoAnswer>,
    pub ambiguity: Option<PlannerAmbiguity>,
    pub stats: PlannerQueryStats,
}

#[derive(Debug, Clone, Copy, PartialEq, Eq, Structural)]
pub struct PlannerFilterCapabilities {
    pub path_globs: bool,
    pub package_names: bool,
    pub package_roots: bool,
    pub workspace_roots: bool,
    pub languages: bool,
    pub extensions: bool,
    pub symbol_kinds: bool,
}

#[derive(Debug, Clone, PartialEq, Eq)]
pub struct PlannerRouteCapability {
    pub route_kind: PlannerRouteKind,
    pub enabled: bool,
    pub available: bool,
    pub reason: Option<String>,
}

#[derive(Debug, Clone, PartialEq, Eq)]
pub struct PlannerCapabilities {
    pub status: bool,
    pub query: bool,
    pub explain: bool,
    pub trace: bool,
    pub explicit_mode_override: bool,
    pub modes: Vec<PlannerMode>,
    pub filters: PlannerFilterCapabilities,
    pub routes: Vec<PlannerRouteCapability>,
}

#[derive(Debug, Clone, PartialEq, Eq)]
pub struct PlannerStatusParams {
    pub repo_id: String,
    pub snapshot_id: String,
}

#[derive(Debug, Clone, PartialEq, Eq)]
pub struct PlannerStatusResponse {
    pub repo_id: String,
    pub snapshot_id: String,
    pub state: PlannerQueryState,
    pub capabilities: PlannerCapabilities,
    pub diagnostics: Vec<PlannerDiagnostic>,
}

#[derive(Debug, Clone, PartialEq, Eq)]
pub struct PlannerExplainParams {
    pub query: PlannerQueryParams,
}

#[derive(Debug, Clone, PartialEq, Eq)]
pub struct PlannerCapabilitiesParams {
    pub repo_id: String,
    pub snapshot_id: String,
}

#[derive(Debug, Clone, PartialEq, Eq)]
pub struct PlannerCapabilitiesResponse {
    pub repo_id: String,
    pub snapshot_id: String,
    pub default_mode: PlannerMode,
    pub default_limit: u32,
    pub max_limit: u32,
    pub budgets: PlannerBudgetPolicy,
    pub capabilities: PlannerCapabilities,
    pub diagnostics: Vec<PlannerDiagnostic>,
}

} // verus!
