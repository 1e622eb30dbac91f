use vstd::prelude::*;

use crate::text::push_str;

verus! {

/// The kinds of background job.
#[derive(Debug, Clone, Copy, PartialEq, Eq, Structural)]
pub enum JobKind {
    RepoRefresh,
    WatchIngest,
    SnapshotCapture,
}

/// The name of a job kind.
pub open spec fn kind_name(k: JobKind) -> Seq<char> {
    match k {
        JobKind::RepoRefresh => "repo_refresh"@,
        JobKind::WatchIngest => "watch_ingest"@,
        JobKind::SnapshotCapture => "snapshot_capture"@,
    }
}

impl JobKind {
    /// The name of this kind.
    pub fn as_str(&self) -> (s: &'static str)
        ensures
            s@ == kind_name(*self),
    {
        match self {
            JobKind::RepoRefresh => "repo_refresh",
            JobKind::WatchIngest => "watch_ingest",
            JobKind::SnapshotCapture => "snapshot_capture",
        }
    }
}

/// Where a job is in its life.
#[derive(Debug, Clone, Copy, PartialEq, Eq, Structural)]
pub enum JobState {
    Pending,
    Running,
    Succeeded,
    Failed,
    Cancelled,
}

/// The name of a job state.
pub open spec fn state_name(s: JobState) -> Seq<char> {
    match s {
        JobState::Pending => "pending"@,
        JobState::Running => "running"@,
        JobState::Succeeded => "succeeded"@,
        JobState::Failed => "failed"@,
        JobState::Cancelled => "cancelled"@,
    }
}

impl JobState {
    /// The name of this state.
    pub fn as_str(&self) -> (s: &'static str)
        ensures
            s@ == state_name(*self),
    {
        match self {
            JobState::Pending => "pending",
            JobState::Running => "running",
            JobState::Succeeded => "succeeded",
            JobState::Failed => "failed",
            JobState::Cancelled => "cancelled",
        }
    }
}

/// One job and its state.
#[derive(Debug, Clone, PartialEq, Eq)]
pub struct JobRecord {
    pub job_id: String,
    pub repo_id: Option<String>,
    pub kind: JobKind,
    pub state: JobState,
}

/// `id:kind:state`, followed by `:repo` when the job belongs to a repository.
pub open spec fn job_label(j: JobRecord) -> Seq<char> {
    let base = j.job_id@ + ":"@ + kind_name(j.kind) + ":"@ + state_name(j.state);
    match j.repo_id {
        Some(r) => base + ":"@ + r@,
        None => base,
    }
}

impl JobRecord {
    /// The job's label.
    pub fn label(&self) -> (s: String)
        ensures
            s@ == job_label(*self),
    {
        let mut s = self.job_id.clone();
        push_str(&mut s, ":");
        push_str(&mut s, self.kind.as_str());
        push_str(&mut s, ":");
        push_str(&mut s, self.state.as_str());
        if let Some(repo_id) = &self.repo_id {
            push_str(&mut s, ":");
            push_str(&mut s, repo_id.as_str());
        }
        s
    }
}

} // verus!
