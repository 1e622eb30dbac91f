use vstd::prelude::*;

use crate::protocol::config::TransportKind;
use crate::protocol::impact::ImpactMaterializationMode;

verus! {

#[derive(Debug, Clone, PartialEq, Eq, Default)]
pub struct EmptyParams {}

#[derive(Debug, Clone, Copy, PartialEq, Eq, Structural)]
pub enum HealthState {
    Healthy,
    Degraded,
    Starting,
}

#[derive(Debug, Clone, PartialEq, Eq)]
pub struct HealthResponse {
    pub status: HealthState,
    pub message: String,
}

#[derive(Debug, Clone, PartialEq, Eq)]
pub struct VersionResponse {
    pub daemon_version: String,
    pub protocol_version: String,
    pub config_version: u32,
}

#[derive(Debug, Clone, PartialEq, Eq, Default)]
pub struct DaemonStatusParams {}

#[derive(Debug, Clone, Copy, PartialEq, Eq, Structural)]
pub enum DaemonLifecycleState {
    Starting,
    Running,
    Stopping,
    Stopped,
}

#[derive(Debug, Clone, PartialEq, Eq)]
pub struct TransportSummary {
    pub kind: TransportKind,
    pub socket_path: Option<String>,
    pub connected_clients: usize,
}

/// What the job scheduler reports of its queue.
#[derive(Debug, Clone, PartialEq, Eq)]
pub struct SchedulerSnapshot {
    pub mode: String,
    pub queue_depth: usize,
    pub active_jobs: Vec<String>,
}

#[derive(Debug, Clone, PartialEq, Eq, Default)]
pub struct ParseRuntimeStatus {
    pub enabled: bool,
    pub artifact_dir: String,
    pub repo_count: usize,
    pub build_count: usize,
}

#[derive(Debug, Clone, PartialEq, Eq, Default)]
pub struct SymbolIndexRuntimeStatus {
    pub enabled: bool,
    pub store_dir: String,
    pub repo_count: usize,
    pub indexed_snapshot_count: usize,
}

#[derive(Debug, Clone, PartialEq, Eq)]
pub struct ImpactRuntimeStatus {
    pub enabled: bool,
    pub store_dir: String,
    pub materialization_mode: ImpactMaterializationMode,
    pub repo_count: usize,
    pub materialized_snapshot_count: usize,
    pub ready_build_count: usize,
    pub stale_build_count: usize,
}

impl Default for ImpactRuntimeStatus {
    /// A disabled impact runtime with no store and no builds.
    fn default() -> (status: Self)
        ensures
            !status.enabled,
            status.store_dir@ == Seq::<char>::empty(),
            status.materialization_mode == ImpactMaterializationMode::LiveOnly,
            status.repo_count == 0,
            status.materialized_snapshot_count == 0,
            status.ready_build_count == 0,
            status.stale_build_count == 0,
    {
        ImpactRuntimeStatus {
            enabled: false,
            store_dir: String::new(),
            materialization_mode: ImpactMaterializationMode::LiveOnly,
            repo_count: 0,
            materialized_snapshot_count: 0,
            ready_build_count: 0,
            stale_build_count: 0,
        }
    }
}

#[derive(Debug, Clone, PartialEq, Eq)]
pub struct SemanticRuntimeStatus {
    pub enabled: bool,
    pub store_dir: String,
    pub embedding_model_id: String,
    pub chunk_schema_version: u32,
    pub repo_count: usize,
    pub materialized_snapshot_count: usize,
    pub ready_build_count: usize,
    pub stale_build_count: usize,
}

impl Default for SemanticRuntimeStatus {
    /// A disabled semantic runtime with no store, no model and no builds.
    fn default() -> (status: Self)
        ensures
            !status.enabled,
            status.store_dir@ == Seq::<char>::empty(),
            status.embedding_model_id@ == Seq::<char>::empty(),
            status.chunk_schema_version == 0,
            status.repo_count == 0,
            status.materialized_snapshot_count == 0,
            status.ready_build_count == 0,
            status.stale_build_count == 0,
    {
        SemanticRuntimeStatus {
            enabled: false,
            store_dir: String::new(),
            embedding_model_id: String::new(),
            chunk_schema_version: 0,
            repo_count: 0,
            materialized_snapshot_count: 0,
            ready_build_count: 0,
            stale_build_count: 0,
        }
    }
}

#[derive(Debug, Clone, PartialEq, Eq)]
pub struct RuntimeStatus {
    pub protocol_version: String,
    pub config_version: u32,
    pub runtime_root: String,
    pub state_dir: String,
    pub socket_path: String,
    pub daemon_state: DaemonLifecycleState,
    pub pid: Option<u32>,
    pub transport: TransportSummary,
    pub repo_count: usize,
    pub manifest_count: usize,
    pub scheduler: SchedulerSnapshot,
    pub parser: Option<ParseRuntimeStatus>,
    pub symbol_index: Option<SymbolIndexRuntimeStatus>,
    pub impact: Option<ImpactRuntimeStatus>,
    pub semantic: Option<SemanticRuntimeStatus>,
}

#[derive(Debug, Clone, PartialEq, Eq)]
pub struct ShutdownParams {
    pub graceful: bool,
    pub timeout_ms: Option<u64>,
}

#[derive(Debug, Clone, PartialEq, Eq)]
pub struct ShutdownResponse {
    pub accepted: bool,
    pub message: Option<String>,
}

} // verus!
