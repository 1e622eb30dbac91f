use vstd::prelude::*;

use crate::text::{concat2, concat3, opt_view, owned};

verus! {

#[derive(Debug, Clone, Copy, PartialEq, Eq, Structural)]
pub enum ErrorCategory {
    Validation,
    Config,
    Transport,
    Storage,
    Repo,
    Watch,
    Snapshot,
    Buffer,
    Scheduler,
    Parse,
    Symbol,
    Impact,
    Semantic,
    Daemon,
    Internal,
}

#[derive(Debug, Clone, Copy, PartialEq, Eq, Structural)]
pub enum ErrorCode {
    InvalidRequest,
    UnsupportedProtocolVersion,
    ConfigNotFound,
    ConfigInvalid,
    RepoAlreadyExists,
    RepoNotFound,
    RepoStateUnavailable,
    WatchNotConfigured,
    WatchNotRunning,
    SnapshotNotFound,
    SnapshotConflict,
    SnapshotMismatch,
    BufferNotFound,
    SchedulerBusy,
    ShutdownInProgress,
    Timeout,
    UnsupportedLanguage,
    InvalidPosition,
    ParseBuildNotFound,
    ParseArtifactNotFound,
    IndexNotReady,
    SymbolIndexNotFound,
    SymbolNotFound,
    ResolutionNotFound,
    ImpactNotReady,
    ImpactTargetNotFound,
    ImpactTargetUnsupported,
    ImpactResultNotFound,
    SemanticNotReady,
    SemanticBuildNotFound,
    SemanticChunkNotFound,
    SemanticFilterUnsupported,
    NotImplemented,
    Internal,
}

#[derive(Debug, Clone, Copy, PartialEq, Eq, Structural)]
pub enum ErrorSubjectKind {
    Repo,
    Snapshot,
    Buffer,
    ParseBuild,
    ParseArtifact,
    SymbolIndex,
    Symbol,
    ImpactBuild,
    ImpactTarget,
    ImpactResult,
    SemanticBuild,
    SemanticChunk,
    SemanticQuery,
    Location,
    Config,
}

#[derive(Debug, Clone, PartialEq, Eq)]
pub struct ErrorSubject {
    pub kind: ErrorSubjectKind,
    pub id: Option<String>,
    pub path: Option<String>,
}

#[derive(Debug, Clone, PartialEq, Eq)]
pub struct ValidationIssue {
    pub field: String,
    pub issue: String,
    pub expected: Option<String>,
}

/// Structured detail of an error. `context` holds key/value pairs in strictly
/// ascending key order, each key once.
#[derive(Debug, Clone, PartialEq, Eq, Default)]
pub struct ErrorPayload {
    pub subject: Option<ErrorSubject>,
    pub validation: Vec<ValidationIssue>,
    pub retry_after_ms: Option<u64>,
    pub supported_protocol_versions: Vec<String>,
    pub context: Vec<(String, String)>,
}

/// The error every daemon method answers with.
#[derive(Debug, Clone, PartialEq, Eq)]
pub struct ProtocolError {
    pub category: ErrorCategory,
    pub code: ErrorCode,
    pub message: String,
    pub retriable: bool,
    pub payload: Option<ErrorPayload>,
}

/// The view of a payload's context entries.
pub open spec fn context_view(context: Vec<(String, String)>) -> Seq<(Seq<char>, Seq<char>)> {
    context@.map_values(|e: (String, String)| (e.0@, e.1@))
}

/// A payload that names only a subject.
pub open spec fn subject_payload(
    p: ErrorPayload,
    kind: ErrorSubjectKind,
    id: Option<Seq<char>>,
    path: Option<Seq<char>>,
) -> bool {
    &&& p.subject matches Some(s) && s.kind == kind && opt_view(s.id) == id && opt_view(s.path) == path
    &&& p.validation@.len() == 0
    &&& p.retry_after_ms is None
    &&& p.supported_protocol_versions@.len() == 0
}

fn empty_error_payload() -> (p: ErrorPayload)
    ensures
        p.subject is None,
        p.validation@.len() == 0,
        p.retry_after_ms is None,
        p.supported_protocol_versions@.len() == 0,
        p.context@.len() == 0,
{
    ErrorPayload {
        subject: None,
        validation: Vec::new(),
        retry_after_ms: None,
        supported_protocol_versions: Vec::new(),
        context: Vec::new(),
    }
}

fn subject_error_payload(kind: ErrorSubjectKind, id: Option<String>, path: Option<String>) -> (p:
    ErrorPayload)
    ensures
        p.subject == Some(ErrorSubject { kind, id, path }),
        p.validation@.len() == 0,
        p.retry_after_ms is None,
        p.supported_protocol_versions@.len() == 0,
        p.context@.len() == 0,
{
    let mut p = empty_error_payload();
    p.subject = Some(ErrorSubject { kind, id, path });
    p
}

fn single_context(key: &str, value: String) -> (c: Vec<(String, String)>)
    ensures
        context_view(c) == seq![(key@, value@)],
{
    let mut c = Vec::new();
    c.push((key.to_owned(), value));
    assert(context_view(c) =~= seq![(key@, value@)]);
    c
}

fn plain_error(category: ErrorCategory, code: ErrorCode, message: String, retriable: bool) -> (e:
    ProtocolError)
    ensures
        e == (ProtocolError { category, code, message, retriable, payload: None }),
{
    ProtocolError { category, code, message, retriable, payload: None }
}

impl ProtocolError {
    /// A request that failed validation, with no payload.
    pub fn invalid_request(message: &str) -> (e: Self)
        ensures
            e.category == ErrorCategory::Validation,
            e.code == ErrorCode::InvalidRequest,
            e.message@ == message@,
            !e.retriable,
            e.payload is None,
    {
        plain_error(ErrorCategory::Validation, ErrorCode::InvalidRequest, owned(message), false)
    }

    /// A request field that failed validation, described by one validation issue.
    pub fn invalid_field(field: &str, issue: &str, expected: Option<String>) -> (e: Self)
        ensures
            e.category == ErrorCategory::Validation,
            e.code == ErrorCode::InvalidRequest,
            e.message@ == "request validation failed"@,
            !e.retriable,
            e.payload matches Some(p) && {
                &&& p.subject is None
                &&& p.validation@.len() == 1
                &&& p.validation@[0].field@ == field@
                &&& p.validation@[0].issue@ == issue@
                &&& p.validation@[0].expected == expected
                &&& p.retry_after_ms is None
                &&& p.supported_protocol_versions@.len() == 0
                &&& p.context@.len() == 0
            },
    {
        let mut payload = empty_error_payload();
        payload.validation.push(
            ValidationIssue { field: field.to_owned(), issue: issue.to_owned(), expected },
        );
        ProtocolError {
            category: ErrorCategory::Validation,
            code: ErrorCode::InvalidRequest,
            message: owned("request validation failed"),
            retriable: false,
            payload: Some(payload),
        }
    }

    /// A request that carried a protocol version this daemon does not speak.
    pub fn unsupported_protocol_version(found: &str) -> (e: Self)
        ensures
            e.category == ErrorCategory::Validation,
            e.code == ErrorCode::UnsupportedProtocolVersion,
            e.message@ == "unsupported protocol version: "@ + found@,
            !e.retriable,
            e.payload matches Some(p) && {
                &&& p.subject is None
                &&& p.validation@.len() == 0
                &&& p.retry_after_ms is None
                &&& p.supported_protocol_versions@.len() == 1
                &&& p.supported_protocol_versions@[0]@ == "repo-hyperindex.local/v1"@
                &&& context_view(p.context) == seq![("protocol_version"@, found@)]
            },
    {
        let mut payload = empty_error_payload();
        payload.supported_protocol_versions.push(owned("repo-hyperindex.local/v1"));
        payload.context = single_context("protocol_version", owned(found));
        ProtocolError {
            category: ErrorCategory::Validation,
            code: ErrorCode::UnsupportedProtocolVersion,
            message: concat2("unsupported protocol version: ", found),
            retriable: false,
            payload: Some(payload),
        }
    }

    /// An invalid configuration.
    pub fn config_invalid(message: &str) -> (e: Self)
        ensures
            e.category == ErrorCategory::Config,
            e.code == ErrorCode::ConfigInvalid,
            e.message@ == message@,
            !e.retriable,
            e.payload is None,
    {
        plain_error(ErrorCategory::Config, ErrorCode::ConfigInvalid, owned(message), false)
    }

    /// A transport failure; the caller may retry.
    pub fn transport(message: &str) -> (e: Self)
        ensures
            e.category == ErrorCategory::Transport,
            e.code == ErrorCode::Internal,
            e.message@ == message@,
            e.retriable,
            e.payload is None,
    {
        plain_error(ErrorCategory::Transport, ErrorCode::Internal, owned(message), true)
    }

    /// A storage failure; the caller may retry.
    pub fn storage(message: &str) -> (e: Self)
        ensures
            e.category == ErrorCategory::Storage,
            e.code == ErrorCode::Internal,
            e.message@ == message@,
            e.retriable,
            e.payload is None,
    {
        plain_error(ErrorCategory::Storage, ErrorCode::Internal, owned(message), true)
    }

    /// A repository that is already registered.
    pub fn repo_already_exists(message: &str) -> (e: Self)
        ensures
            e.category == ErrorCategory::Repo,
            e.code == ErrorCode::RepoAlreadyExists,
            e.message@ == message@,
            !e.retriable,
            e.payload is None,
    {
        plain_error(ErrorCategory::Repo, ErrorCode::RepoAlreadyExists, owned(message), false)
    }

    /// An area of the daemon that is not implemented yet.
    pub fn not_implemented(area: &str) -> (e: Self)
        ensures
            e.category == ErrorCategory::Daemon,
            e.code == ErrorCode::NotImplemented,
            e.message@ == area@ + " is not implemented in the current scaffold"@,
            !e.retriable,
            e.payload matches Some(p) && {
                &&& p.subject is None
                &&& p.validation@.len() == 0
                &&& p.retry_after_ms is None
                &&& p.supported_protocol_versions@.len() == 0
                &&& context_view(p.context) == seq![("area"@, area@)]
            },
    {
        let mut payload = empty_error_payload();
        payload.context = single_context("area", owned(area));
        ProtocolError {
            category: ErrorCategory::Daemon,
            code: ErrorCode::NotImplemented,
            message: concat2(area, " is not implemented in the current scaffold"),
            retriable: false,
            payload: Some(payload),
        }
    }

    /// A repository id that is not registered.
    pub fn repo_not_found(repo_id: &str) -> (e: Self)
        ensures
            e.category == ErrorCategory::Repo,
            e.code == ErrorCode::RepoNotFound,
            e.message@ == "repo "@ + repo_id@ + " was not found"@,
            !e.retriable,
            e.payload matches Some(p) && subject_payload(
                p,
                ErrorSubjectKind::Repo,
                Some(repo_id@),
                None,
            ) && p.context@.len() == 0,
    {
        ProtocolError {
            category: ErrorCategory::Repo,
            code: ErrorCode::RepoNotFound,
            message: concat3("repo ", repo_id, " was not found"),
            retriable: false,
            payload: Some(subject_error_payload(ErrorSubjectKind::Repo, Some(owned(repo_id)), None)),
        }
    }

    /// A repository whose working state could not be read.
    pub fn repo_state_unavailable(repo_id: &str, repo_root: &str, message: &str) -> (e: Self)
        ensures
            e.category == ErrorCategory::Repo,
            e.code == ErrorCode::RepoStateUnavailable,
            e.message@ == message@,
            !e.retriable,
            e.payload matches Some(p) && subject_payload(
                p,
                ErrorSubjectKind::Repo,
                Some(repo_id@),
                Some(repo_root@),
            ) && context_view(p.context) == seq![("repo_root"@, repo_root@)],
    {
        let mut payload = subject_error_payload(
            ErrorSubjectKind::Repo,
            Some(owned(repo_id)),
            Some(owned(repo_root)),
        );
        payload.context = single_context("repo_root", owned(repo_root));
        ProtocolError {
            category: ErrorCategory::Repo,
            code: ErrorCode::RepoStateUnavailable,
            message: owned(message),
            retriable: false,
            payload: Some(payload),
        }
    }

    /// A snapshot id that is not stored.
    pub fn snapshot_not_found(snapshot_id: &str) -> (e: Self)
        ensures
            e.category == ErrorCategory::Snapshot,
            e.code == ErrorCode::SnapshotNotFound,
            e.message@ == "snapshot "@ + snapshot_id@ + " was not found"@,
            !e.retriable,
            e.payload matches Some(p) && subject_payload(
                p,
                ErrorSubjectKind::Snapshot,
                Some(snapshot_id@),
                None,
            ) && p.context@.len() == 0,
    {
        ProtocolError {
            category: ErrorCategory::Snapshot,
            code: ErrorCode::SnapshotNotFound,
            message: concat3("snapshot ", snapshot_id, " was not found"),
            retriable: false,
            payload: Some(
                subject_error_payload(ErrorSubjectKind::Snapshot, Some(owned(snapshot_id)), None),
            ),
        }
    }

    /// A buffer id that is not set for the repository.
    pub fn buffer_not_found(repo_id: &str, buffer_id: &str) -> (e: Self)
        ensures
            e.category == ErrorCategory::Buffer,
            e.code == ErrorCode::BufferNotFound,
            e.message@ == "buffer "@ + buffer_id@ + " was not found"@,
            !e.retriable,
            e.payload matches Some(p) && subject_payload(
                p,
                ErrorSubjectKind::Buffer,
                Some(buffer_id@),
                None,
            ) && context_view(p.context) == seq![("repo_id"@, repo_id@)],
    {
        let mut payload = subject_error_payload(
            ErrorSubjectKind::Buffer,
            Some(owned(buffer_id)),
            None,
        );
        payload.context = single_context("repo_id", owned(repo_id));
        ProtocolError {
            category: ErrorCategory::Buffer,
            code: ErrorCode::BufferNotFound,
            message: concat3("buffer ", buffer_id, " was not found"),
            retriable: false,
            payload: Some(payload),
        }
    }

    /// A file path with no parse artifact.
    pub fn parse_artifact_not_found(path: &str) -> (e: Self)
        ensures
            e.category == ErrorCategory::Parse,
            e.code == ErrorCode::ParseArtifactNotFound,
            e.message@ == "parse artifact for "@ + path@ + " was not found"@,
            !e.retriable,
            e.payload matches Some(p) && subject_payload(
                p,
                ErrorSubjectKind::ParseArtifact,
                None,
                Some(path@),
            ) && p.context@.len() == 0,
    {
        ProtocolError {
            category: ErrorCategory::Parse,
            code: ErrorCode::ParseArtifactNotFound,
            message: concat3("parse artifact for ", path, " was not found"),
            retriable: false,
            payload: Some(
                subject_error_payload(ErrorSubjectKind::ParseArtifact, None, Some(owned(path))),
            ),
        }
    }

    /// A symbol id that the index does not hold.
    pub fn symbol_not_found(symbol_id: &str) -> (e: Self)
        ensures
            e.category == ErrorCategory::Symbol,
            e.code == ErrorCode::SymbolNotFound,
            e.message@ == "symbol "@ + symbol_id@ + " was not found"@,
            !e.retriable,
            e.payload matches Some(p) && subject_payload(
                p,
                ErrorSubjectKind::Symbol,
                Some(symbol_id@),
                None,
            ) && p.context@.len() == 0,
    {
        ProtocolError {
            category: ErrorCategory::Symbol,
            code: ErrorCode::SymbolNotFound,
            message: concat3("symbol ", symbol_id, " was not found"),
            retriable: false,
            payload: Some(
                subject_error_payload(ErrorSubjectKind::Symbol, Some(owned(symbol_id)), None),
            ),
        }
    }

    /// Semantic retrieval that has no ready build for the snapshot.
    pub fn semantic_not_ready(repo_id: &str, snapshot_id: &str) -> (e: Self)
        ensures
            e.category == ErrorCategory::Semantic,
            e.code == ErrorCode::SemanticNotReady,
            e.message@ == "semantic retrieval is not ready for snapshot "@ + snapshot_id@,
            !e.retriable,
            e.payload matches Some(p) && subject_payload(
                p,
                ErrorSubjectKind::Snapshot,
                Some(snapshot_id@),
                None,
            ) && context_view(p.context) == seq![("repo_id"@, repo_id@)],
    {
        let mut payload = subject_error_payload(
            ErrorSubjectKind::Snapshot,
            Some(owned(snapshot_id)),
            None,
        );
        payload.context = single_context("repo_id", owned(repo_id));
        ProtocolError {
            category: ErrorCategory::Semantic,
            code: ErrorCode::SemanticNotReady,
            message: concat2("semantic retrieval is not ready for snapshot ", snapshot_id),
            retriable: false,
            payload: Some(payload),
        }
    }

    /// A semantic build id that is not stored.
    pub fn semantic_build_not_found(build_id: &str) -> (e: Self)
        ensures
            e.category == ErrorCategory::Semantic,
            e.code == ErrorCode::SemanticBuildNotFound,
            e.message@ == "semantic build "@ + build_id@ + " was not found"@,
            !e.retriable,
            e.payload matches Some(p) && subject_payload(
                p,
                ErrorSubjectKind::SemanticBuild,
                Some(build_id@),
                None,
            ) && p.context@.len() == 0,
    {
        ProtocolError {
            category: ErrorCategory::Semantic,
            code: ErrorCode::SemanticBuildNotFound,
            message: concat3("semantic build ", build_id, " was not found"),
            retriable: false,
            payload: Some(
                subject_error_payload(ErrorSubjectKind::SemanticBuild, Some(owned(build_id)), None),
            ),
        }
    }

    /// A semantic chunk id that is not stored.
    pub fn semantic_chunk_not_found(chunk_id: &str) -> (e: Self)
        ensures
            e.category == ErrorCategory::Semantic,
            e.code == ErrorCode::SemanticChunkNotFound,
            e.message@ == "semantic chunk "@ + chunk_id@ + " was not found"@,
            !e.retriable,
            e.payload matches Some(p) && subject_payload(
                p,
                ErrorSubjectKind::SemanticChunk,
                Some(chunk_id@),
                None,
            ) && p.context@.len() == 0,
    {
        ProtocolError {
            category: ErrorCategory::Semantic,
            code: ErrorCode::SemanticChunkNotFound,
            message: concat3("semantic chunk ", chunk_id, " was not found"),
            retriable: false,
            payload: Some(
                subject_error_payload(ErrorSubjectKind::SemanticChunk, Some(owned(chunk_id)), None),
            ),
        }
    }

    /// A semantic query filter that the store cannot apply.
    pub fn semantic_filter_unsupported(field: &str, issue: &str) -> (e: Self)
        ensures
            e.category == ErrorCategory::Semantic,
            e.code == ErrorCode::SemanticFilterUnsupported,
            e.message@ == "semantic query filter is not supported"@,
            !e.retriable,
            e.payload matches Some(p) && {
                &&& p.subject == Some(
                    ErrorSubject { kind: ErrorSubjectKind::SemanticQuery, id: None, path: None },
                )
                &&& p.validation@.len() == 1
                &&& p.validation@[0].field@ == field@
                &&& p.validation@[0].issue@ == issue@
                &&& p.validation@[0].expected is None
                &&& p.retry_after_ms is None
                &&& p.supported_protocol_versions@.len() == 0
                &&& p.context@.len() == 0
            },
    {
        let mut payload = subject_error_payload(ErrorSubjectKind::SemanticQuery, None, None);
        payload.validation.push(
            ValidationIssue { field: owned(field), issue: owned(issue), expected: None },
        );
        ProtocolError {
            category: ErrorCategory::Semantic,
            code: ErrorCode::SemanticFilterUnsupported,
            message: owned("semantic query filter is not supported"),
            retriable: false,
            payload: Some(payload),
        }
    }

    /// Impact analysis that has no ready build for the snapshot.
    pub fn impact_not_ready(repo_id: &str, snapshot_id: &str, message: &str) -> (e: Self)
        ensures
            e.category == ErrorCategory::Impact,
            e.code == ErrorCode::ImpactNotReady,
            e.message@ == message@,
            !e.retriable,
            e.payload matches Some(p) && subject_payload(p, ErrorSubjectKind::ImpactBuild, None, None)
                && context_view(p.context) == seq![
                ("repo_id"@, repo_id@),
                ("snapshot_id"@, snapshot_id@),
            ],
    {
        let mut payload = subject_error_payload(ErrorSubjectKind::ImpactBuild, None, None);
        let mut context: Vec<(String, String)> = Vec::new();
        let k1 = owned("repo_id");
        let v1 = owned(repo_id);
        let k2 = owned("snapshot_id");
        let v2 = owned(snapshot_id);
        context.push((k1, v1));
        context.push((k2, v2));
        assert(context@ == seq![(k1, v1), (k2, v2)]);
        assert(context_view(context) =~= seq![
            ("repo_id"@, repo_id@),
            ("snapshot_id"@, snapshot_id@),
        ]);
        payload.context = context;
        ProtocolError {
            category: ErrorCategory::Impact,
            code: ErrorCode::ImpactNotReady,
            message: owned(message),
            retriable: false,
            payload: Some(payload),
        }
    }

    /// An impact target that could not be resolved.
    pub fn impact_target_not_found(target_id: &str) -> (e: Self)
        ensures
            e.category == ErrorCategory::Impact,
            e.code == ErrorCode::ImpactTargetNotFound,
            e.message@ == "impact target "@ + target_id@ + " was not found"@,
            !e.retriable,
            e.payload matches Some(p) && subject_payload(
                p,
                ErrorSubjectKind::ImpactTarget,
                Some(target_id@),
                None,
            ) && p.context@.len() == 0,
    {
        ProtocolError {
            category: ErrorCategory::Impact,
            code: ErrorCode::ImpactTargetNotFound,
            message: concat3("impact target ", target_id, " was not found"),
            retriable: false,
            payload: Some(
                subject_error_payload(ErrorSubjectKind::ImpactTarget, Some(owned(target_id)), None),
            ),
        }
    }

    /// An impact result id that is not stored.
    pub fn impact_result_not_found(result_id: &str) -> (e: Self)
        ensures
            e.category == ErrorCategory::Impact,
            e.code == ErrorCode::ImpactResultNotFound,
            e.message@ == "impact result "@ + result_id@ + " was not found"@,
            !e.retriable,
            e.payload matches Some(p) && subject_payload(
                p,
                ErrorSubjectKind::ImpactResult,
                Some(result_id@),
                None,
            ) && p.context@.len() == 0,
    {
        ProtocolError {
            category: ErrorCategory::Impact,
            code: ErrorCode::ImpactResultNotFound,
            message: concat3("impact result ", result_id, " was not found"),
            retriable: false,
            payload: Some(
                subject_error_payload(ErrorSubjectKind::ImpactResult, Some(owned(result_id)), None),
            ),
        }
    }

    /// A shutdown request while one is already running.
    pub fn shutdown_in_progress() -> (e: Self)
        ensures
            e.category == ErrorCategory::Daemon,
            e.code == ErrorCode::ShutdownInProgress,
            e.message@ == "daemon shutdown is already in progress"@,
            !e.retriable,
            e.payload is None,
    {
        plain_error(
            ErrorCategory::Daemon,
            ErrorCode::ShutdownInProgress,
            owned("daemon shutdown is already in progress"),
            false,
        )
    }

    /// An internal failure.
    pub fn internal(message: &str) -> (e: Self)
        ensures
            e.category == ErrorCategory::Internal,
            e.code == ErrorCode::Internal,
            e.message@ == message@,
            !e.retriable,
            e.payload is None,
    {
        plain_error(ErrorCategory::Internal, ErrorCode::Internal, owned(message), false)
    }
}

} // verus!
