use vstd::prelude::*;

use crate::protocol::config::PROTOCOL_VERSION;
use crate::text::owned;
use crate::protocol::buffers::{
    BufferClearParams, BufferClearResponse, BufferListParams, BufferListResponse, BufferSetParams,
    BufferSetResponse,
};
use crate::protocol::errors::ProtocolError;
use crate::protocol::impact::{
    ImpactAnalyzeParams, ImpactAnalyzeResponse, ImpactExplainParams, ImpactExplainResponse,
    ImpactStatusParams, ImpactStatusResponse,
};
use crate::protocol::planner::{
    PlannerCapabilitiesParams, PlannerCapabilitiesResponse, PlannerExplainParams,
    PlannerExplainResponse, PlannerQueryParams, PlannerQueryResponse, PlannerStatusParams,
    PlannerStatusResponse,
};
use crate::protocol::repo::{
    RepoShowParams, RepoShowResponse, RepoStatusParams, RepoStatusResponse, ReposAddParams,
    ReposAddResponse, ReposListParams, ReposListResponse, ReposRemoveParams, ReposRemoveResponse,
};
use crate::protocol::semantic::{
    SemanticBuildParams, SemanticBuildResponse, SemanticInspectChunkParams,
    SemanticInspectChunkResponse, SemanticQueryParams, SemanticQueryResponse, SemanticStatusParams,
    SemanticStatusResponse,
};
use crate::protocol::snapshot::{
    SnapshotCreateParams, SnapshotCreateResponse, SnapshotDiffParams, SnapshotDiffResponse,
    SnapshotListParams, SnapshotListResponse, SnapshotReadFileParams, SnapshotReadFileResponse,
    SnapshotShowParams, SnapshotShowResponse,
};
use crate::protocol::status::{
    DaemonStatusParams, EmptyParams, HealthResponse, RuntimeStatus, ShutdownParams,
    ShutdownResponse, VersionResponse,
};
use crate::protocol::symbols::{
    DefinitionLookupParams, DefinitionLookupResponse, ParseBuildParams, ParseBuildResponse,
    ParseInspectFileParams, ParseInspectFileResponse, ParseStatusParams, ParseStatusResponse,
    ReferenceLookupParams, ReferenceLookupResponse, SymbolIndexBuildParams,
    SymbolIndexBuildResponse, SymbolIndexStatusParams, SymbolIndexStatusResponse,
    SymbolResolveParams, SymbolResolveResponse, SymbolSearchParams, SymbolSearchResponse,
    SymbolShowParams, SymbolShowResponse,
};
use crate::protocol::watch::{
    WatchEventsParams, WatchEventsResponse, WatchStatusParams, WatchStatusResponse,
};

verus! {

#[derive(Debug, Clone, Copy, PartialEq, Eq, Structural)]
pub enum ApiMethod {
    Health,
    Version,
    DaemonStatus,
    ReposAdd,
    ReposList,
    ReposRemove,
    ReposShow,
    RepoStatus,
    WatchStatus,
    WatchEvents,
    SnapshotsCreate,
    SnapshotsShow,
    SnapshotsList,
    SnapshotsDiff,
    SnapshotsReadFile,
    BuffersSet,
    BuffersClear,
    BuffersList,
    ParseBuild,
    ParseStatus,
    ParseInspectFile,
    SymbolIndexBuild,
    SymbolIndexStatus,
    SymbolSearch,
    SymbolShow,
    DefinitionLookup,
    ReferenceLookup,
    SymbolResolve,
    SemanticStatus,
    SemanticBuild,
    SemanticQuery,
    SemanticInspectChunk,
    PlannerStatus,
    PlannerQuery,
    PlannerExplain,
    PlannerCapabilities,
    ImpactStatus,
    ImpactAnalyze,
    ImpactExplain,
    Shutdown,
}

#[derive(Debug, Clone, PartialEq, Eq)]
pub struct DaemonRequest {
    pub protocol_version: String,
    pub request_id: String,
    pub body: RequestBody,
}

impl DaemonRequest {
    /// A request in the current protocol version.
    pub fn new(request_id: &str, body: RequestBody) -> (r: Self)
        ensures
            r.protocol_version@ == PROTOCOL_VERSION@,
            r.request_id@ == request_id@,
            r.body == body,
    {
        DaemonRequest {
            protocol_version: owned(PROTOCOL_VERSION),
            request_id: owned(request_id),
            body,
        }
    }
}

#[derive(Debug, Clone, PartialEq, Eq)]
pub enum RequestBody {
    Health(EmptyParams),
    Version(EmptyParams),
    DaemonStatus(DaemonStatusParams),
    ReposAdd(ReposAddParams),
    ReposList(ReposListParams),
    ReposRemove(ReposRemoveParams),
    ReposShow(RepoShowParams),
    RepoStatus(RepoStatusParams),
    WatchStatus(WatchStatusParams),
    WatchEvents(WatchEventsParams),
    SnapshotsCreate(SnapshotCreateParams),
    SnapshotsShow(SnapshotShowParams),
    SnapshotsList(SnapshotListParams),
    SnapshotsDiff(SnapshotDiffParams),
    SnapshotsReadFile(SnapshotReadFileParams),
    BuffersSet(BufferSetParams),
    BuffersClear(BufferClearParams),
    BuffersList(BufferListParams),
    ParseBuild(ParseBuildParams),
    ParseStatus(ParseStatusParams),
    ParseInspectFile(ParseInspectFileParams),
    SymbolIndexBuild(SymbolIndexBuildParams),
    SymbolIndexStatus(SymbolIndexStatusParams),
    SymbolSearch(SymbolSearchParams),
    SymbolShow(SymbolShowParams),
    DefinitionLookup(DefinitionLookupParams),
    ReferenceLookup(ReferenceLookupParams),
    SymbolResolve(SymbolResolveParams),
    SemanticStatus(SemanticStatusParams),
    SemanticBuild(SemanticBuildParams),
    SemanticQuery(SemanticQueryParams),
    SemanticInspectChunk(SemanticInspectChunkParams),
    PlannerStatus(PlannerStatusParams),
    PlannerQuery(PlannerQueryParams),
    PlannerExplain(PlannerExplainParams),
    PlannerCapabilities(PlannerCapabilitiesParams),
    ImpactStatus(ImpactStatusParams),
    ImpactAnalyze(ImpactAnalyzeParams),
    ImpactExplain(ImpactExplainParams),
    Shutdown(ShutdownParams),
}

#[derive(Debug, Clone, PartialEq, Eq)]
pub struct DaemonResponse {
    pub protocol_version: String,
    pub request_id: String,
    pub body: ResponseBody,
}

impl DaemonResponse {
    /// A successful response in the current protocol version.
    pub fn success(request_id: &str, result: SuccessPayload) -> (r: Self)
        ensures
            r.protocol_version@ == PROTOCOL_VERSION@,
            r.request_id@ == request_id@,
            r.body == (ResponseBody::Success { result }),
    {
        DaemonResponse {
            protocol_version: owned(PROTOCOL_VERSION),
            request_id: owned(request_id),
            body: ResponseBody::Success { result },
        }
    }

    /// An error response for a method in the current protocol version.
    pub fn error(request_id: &str, method: ApiMethod, error: ProtocolError) -> (r: Self)
        ensures
            r.protocol_version@ == PROTOCOL_VERSION@,
            r.request_id@ == request_id@,
            r.body == (ResponseBody::Error { method, error }),
    {
        DaemonResponse {
            protocol_version: owned(PROTOCOL_VERSION),
            request_id: owned(request_id),
            body: ResponseBody::Error { method, error },
        }
    }
}

#[derive(Debug, Clone, PartialEq, Eq)]
pub enum ResponseBody {
    Success {
        result: SuccessPayload,
    },
    Error {
        method: ApiMethod,
        error: ProtocolError,
    },
}

#[derive(Debug, Clone, PartialEq, Eq)]
pub enum SuccessPayload {
    Health(HealthResponse),
    Version(VersionResponse),
    DaemonStatus(RuntimeStatus),
    ReposAdd(ReposAddResponse),
    ReposList(ReposListResponse),
    ReposRemove(ReposRemoveResponse),
    ReposShow(RepoShowResponse),
    RepoStatus(RepoStatusResponse),
    WatchStatus(WatchStatusResponse),
    WatchEvents(WatchEventsResponse),
    SnapshotsCreate(SnapshotCreateResponse),
    SnapshotsShow(SnapshotShowResponse),
    SnapshotsList(SnapshotListResponse),
    SnapshotsDiff(SnapshotDiffResponse),
    SnapshotsReadFile(SnapshotReadFileResponse),
    BuffersSet(BufferSetResponse),
    BuffersClear(BufferClearResponse),
    BuffersList(BufferListResponse),
    ParseBuild(ParseBuildResponse),
    ParseStatus(ParseStatusResponse),
    ParseInspectFile(ParseInspectFileResponse),
    SymbolIndexBuild(SymbolIndexBuildResponse),
    SymbolIndexStatus(SymbolIndexStatusResponse),
    SymbolSearch(SymbolSearchResponse),
    SymbolShow(SymbolShowResponse),
    DefinitionLookup(DefinitionLookupResponse),
    ReferenceLookup(ReferenceLookupResponse),
    SymbolResolve(SymbolResolveResponse),
    SemanticStatus(SemanticStatusResponse),
    SemanticBuild(SemanticBuildResponse),
    SemanticQuery(SemanticQueryResponse),
    SemanticInspectChunk(SemanticInspectChunkResponse),
    PlannerStatus(PlannerStatusResponse),
    PlannerQuery(PlannerQueryResponse),
    PlannerExplain(PlannerExplainResponse),
    PlannerCapabilities(PlannerCapabilitiesResponse),
    ImpactStatus(ImpactStatusResponse),
    ImpactAnalyze(ImpactAnalyzeResponse),
    ImpactExplain(ImpactExplainResponse),
    Shutdown(ShutdownResponse),
}

} // verus!
