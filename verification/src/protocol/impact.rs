use vstd::prelude::*;

use crate::protocol::symbols::{SymbolId, SymbolIndexBuildId};

verus! {

#[derive(Debug, Clone, PartialEq, Eq, PartialOrd, Ord, Hash)]
pub struct ImpactBuildId(pub String);

#[derive(Debug, Clone, Copy, PartialEq, Eq, Structural)]
pub enum ImpactTargetKind {
    Symbol,
    File,
}

#[derive(Debug, Clone, Copy, PartialEq, Eq, Structural)]
pub enum ImpactChangeScenario {
    ModifyBehavior,
    SignatureChange,
    Rename,
    Delete,
}

#[derive(Debug, Clone, Copy, PartialEq, Eq, Structural)]
pub enum ImpactCertaintyTier {
    Certain,
    Likely,
    Possible,
}

#[derive(Debug, Clone, Copy, PartialEq, Eq, Structural)]
pub enum ImpactedEntityKind {
    Symbol,
    File,
    Package,
    Test,
}

#[derive(Debug, Clone, Copy, PartialEq, Eq, Structural)]
pub enum ImpactReasonEdgeKind {
    Seed,
    Contains,
    Defines,
    References,
    Imports,
    Exports,
    DeclaredInFile,
    ReferencedByFile,
    ImportedByFile,
    PackageMember,
    TestReference,
    TestAffinity,
}

#[derive(Debug, Clone, Copy, PartialEq, Eq, Structural)]
pub enum ImpactGraphEnrichmentKind {
    CanonicalAlias,
    FileAdjacency,
    PackageMembership,
    TestAffinity,
}

#[derive(Debug, Clone, Copy, PartialEq, Eq, Structural)]
pub enum ImpactGraphEnrichmentState {
    Available,
    Deferred,
}

#[derive(Debug, Clone, Copy, PartialEq, Eq, Structural)]
pub enum ImpactMaterializationMode {
    LiveOnly,
    PreferPersisted,
}

#[derive(Debug, Clone, Copy, PartialEq, Eq, Structural)]
pub enum ImpactRefreshMode {
    FullRebuild,
    Incremental,
}

#[derive(Debug, Clone, Copy, PartialEq, Eq, Structural)]
pub enum ImpactRefreshTrigger {
    Bootstrap,
    SnapshotDiff,
}

#[derive(Debug, Clone, Copy, PartialEq, Eq, Structural)]
pub enum ImpactStorageFormat {
    Sqlite,
}

#[derive(Debug, Clone, Copy, PartialEq, Eq, Structural)]
pub enum ImpactAnalysisState {
    NotReady,
    Ready,
    Stale,
}

#[derive(Debug, Clone, Copy, PartialEq, Eq, Structural)]
pub enum ImpactDiagnosticSeverity {
    Info,
    Warning,
}

/// What an impact analysis starts from: a symbol selector or a file.
#[derive(Debug, Clone, PartialEq, Eq)]
pub enum ImpactTargetRef {
    Symbol { value: String, symbol_id: Option<SymbolId>, path: Option<String> },
    File { path: String },
}

impl ImpactTargetRef {
    /// The kind of target: a symbol selector or a file.
    pub fn target_kind(&self) -> (kind: ImpactTargetKind)
        ensures
            kind == (match self {
                ImpactTargetRef::Symbol { .. } => ImpactTargetKind::Symbol,
                ImpactTargetRef::File { .. } => ImpactTargetKind::File,
            }),
    {
        match self {
            ImpactTargetRef::Symbol { .. } => ImpactTargetKind::Symbol,
            ImpactTargetRef::File { .. } => ImpactTargetKind::File,
        }
    }

    /// The text that selects the target: the symbol selector or the file path.
    pub fn selector_value(&self) -> (value: &str)
        ensures
            value@ == (match self {
                ImpactTargetRef::Symbol { value, .. } => value@,
                ImpactTargetRef::File { path } => path@,
            }),
    {
        match self {
            ImpactTargetRef::Symbol { value, .. } => value.as_str(),
            ImpactTargetRef::File { path } => path.as_str(),
        }
    }
}

/// An entity that a change can reach.
#[derive(Debug, Clone, PartialEq, Eq)]
pub enum ImpactEntityRef {
    Symbol { symbol_id: SymbolId, path: String, display_name: String },
    File { path: String },
    Package { package_name: String, package_root: String },
    Test { path: String, display_name: String, symbol_id: Option<SymbolId> },
}

impl ImpactEntityRef {
    /// The kind of the referenced entity.
    pub fn entity_kind(&self) -> (kind: ImpactedEntityKind)
        ensures
            kind == (match self {
                ImpactEntityRef::Symbol { .. } => ImpactedEntityKind::Symbol,
                ImpactEntityRef::File { .. } => ImpactedEntityKind::File,
                ImpactEntityRef::Package { .. } => ImpactedEntityKind::Package,
                ImpactEntityRef::Test { .. } => ImpactedEntityKind::Test,
            }),
    {
        match self {
            ImpactEntityRef::Symbol { .. } => ImpactedEntityKind::Symbol,
            ImpactEntityRef::File { .. } => ImpactedEntityKind::File,
            ImpactEntityRef::Package { .. } => ImpactedEntityKind::Package,
            ImpactEntityRef::Test { .. } => ImpactedEntityKind::Test,
        }
    }
}

/// One edge of a reason path, with its metadata as key/value pairs in ascending key order.
#[derive(Debug, Clone, PartialEq, Eq)]
pub struct ImpactEvidenceEdge {
    pub edge_kind: ImpactReasonEdgeKind,
    pub from: ImpactEntityRef,
    pub to: ImpactEntityRef,
    pub metadata: Vec<(String, String)>,
}

#[derive(Debug, Clone, PartialEq, Eq)]
pub struct ImpactReasonPath {
    pub summary: String,
    pub edges: Vec<ImpactEvidenceEdge>,
}

#[derive(Debug, Clone, PartialEq, Eq)]
pub struct ImpactHitExplanation {
    pub why: String,
    pub change_effect: String,
    pub primary_path: ImpactReasonPath,
}

#[derive(Debug, Clone, PartialEq, Eq)]
pub struct ImpactHit {
    pub rank: u32,
    pub score: u32,
    pub entity: ImpactEntityRef,
    pub certainty: ImpactCertaintyTier,
    pub primary_reason: ImpactReasonEdgeKind,
    pub depth: u32,
    pub direct: bool,
    pub explanation: Option<ImpactHitExplanation>,
    pub reason_paths: Vec<ImpactReasonPath>,
}

#[derive(Debug, Clone, PartialEq, Eq)]
pub struct ImpactResultGroup {
    pub direct: bool,
    pub certainty: ImpactCertaintyTier,
    pub entity_kind: ImpactedEntityKind,
    pub hit_count: u32,
    pub hits: Vec<ImpactHit>,
}

#[derive(Debug, Clone, Copy, PartialEq, Eq, Structural)]
pub struct ImpactCertaintyCounts {
    pub certain: u32,
    pub likely: u32,
    pub possible: u32,
}

#[derive(Debug, Clone, Copy, PartialEq, Eq, Structural)]
pub struct ImpactSummary {
    pub direct_count: u32,
    pub transitive_count: u32,
    pub certainty_counts: ImpactCertaintyCounts,
}

#[derive(Debug, Default, Clone, PartialEq, Eq)]
pub struct ImpactTraversalStats {
    pub nodes_visited: u32,
    pub edges_traversed: u32,
    pub depth_reached: u32,
    pub candidates_considered: u32,
    pub elapsed_ms: u64,
    pub cutoffs_triggered: Vec<String>,
}

#[derive(Debug, Clone, PartialEq, Eq)]
pub struct ImpactDiagnostic {
    pub severity: ImpactDiagnosticSeverity,
    pub code: String,
    pub message: String,
}

#[derive(Debug, Clone, Copy, PartialEq, Eq, Structural)]
pub struct ImpactGraphEnrichmentMetadata {
    pub kind: ImpactGraphEnrichmentKind,
    pub state: ImpactGraphEnrichmentState,
    pub evidence_count: Option<u64>,
}

#[derive(Debug, Clone, PartialEq, Eq)]
pub struct ImpactStorageMetadata {
    pub format: ImpactStorageFormat,
    pub path: String,
    pub schema_version: u32,
    pub materialization_mode: ImpactMaterializationMode,
}

#[derive(Debug, Clone, Copy, PartialEq, Eq, Structural)]
pub struct ImpactRefreshStats {
    pub mode: ImpactRefreshMode,
    pub trigger: ImpactRefreshTrigger,
    pub files_touched: u64,
    pub entities_recomputed: u64,
    pub edges_refreshed: u64,
    pub elapsed_ms: u64,
}

#[derive(Debug, Clone, PartialEq, Eq)]
pub struct ImpactManifest {
    pub build_id: ImpactBuildId,
    pub repo_id: String,
    pub snapshot_id: String,
    pub symbol_index_build_id: Option<SymbolIndexBuildId>,
    pub created_at: String,
    pub enrichments: Vec<ImpactGraphEnrichmentMetadata>,
    pub storage: Option<ImpactStorageMetadata>,
    pub refresh_stats: Option<ImpactRefreshStats>,
    pub refresh_mode: Option<String>,
    pub fallback_reason: Option<String>,
    pub loaded_from_existing_build: bool,
}

#[derive(Debug, Clone, Copy, PartialEq, Eq, Structural)]
pub struct ImpactCapabilities {
    pub status: bool,
    pub analyze: bool,
    pub explain: bool,
    pub materialized_store: bool,
}

#[derive(Debug, Clone, PartialEq, Eq)]
pub struct ImpactStatusParams {
    pub repo_id: String,
    pub snapshot_id: String,
}

#[derive(Debug, Clone, PartialEq, Eq)]
pub struct ImpactStatusResponse {
    pub repo_id: String,
    pub snapshot_id: String,
    pub state: ImpactAnalysisState,
    pub capabilities: ImpactCapabilities,
    pub supported_targets: Vec<ImpactTargetKind>,
    pub supported_change_scenarios: Vec<ImpactChangeScenario>,
    pub supported_result_kinds: Vec<ImpactedEntityKind>,
    pub certainty_tiers: Vec<ImpactCertaintyTier>,
    pub manifest: Option<ImpactManifest>,
    pub diagnostics: Vec<ImpactDiagnostic>,
}

#[derive(Debug, Clone, PartialEq, Eq)]
pub struct ImpactAnalyzeParams {
    pub repo_id: String,
    pub snapshot_id: String,
    pub target: ImpactTargetRef,
    pub change_hint: ImpactChangeScenario,
    pub limit: u32,
    pub include_transitive: bool,
    pub include_reason_paths: bool,
    pub max_transitive_depth: Option<u32>,
    pub max_nodes_visited: Option<u32>,
    pub max_edges_traversed: Option<u32>,
    pub max_candidates_considered: Option<u32>,
}

#[derive(Debug, Clone, PartialEq, Eq)]
pub struct ImpactAnalyzeResponse {
    pub repo_id: String,
    pub snapshot_id: String,
    pub target: ImpactTargetRef,
    pub change_hint: ImpactChangeScenario,
    pub summary: ImpactSummary,
    pub stats: ImpactTraversalStats,
    pub groups: Vec<ImpactResultGroup>,
    pub diagnostics: Vec<ImpactDiagnostic>,
    pub manifest: Option<ImpactManifest>,
}

#[derive(Debug, Clone, PartialEq, Eq)]
pub struct ImpactExplainParams {
    pub repo_id: String,
    pub snapshot_id: String,
    pub target: ImpactTargetRef,
    pub change_hint: ImpactChangeScenario,
    pub impacted: ImpactEntityRef,
    pub max_reason_paths: u32,
}

#[derive(Debug, Clone, PartialEq, Eq)]
pub struct ImpactExplainResponse {
    pub repo_id: String,
    pub snapshot_id: String,
    pub target: ImpactTargetRef,
    pub impacted: ImpactEntityRef,
    pub certainty: ImpactCertaintyTier,
    pub direct: bool,
    pub reason_paths: Vec<ImpactReasonPath>,
    pub diagnostics: Vec<ImpactDiagnostic>,
}

} // verus!
