use hyperindex::scheduler::jobs::{JobKind, JobRecord, JobState};
use hyperindex::scheduler::queue::{format_job_id, SchedulerService};
use hyperindex::scheduler::status::idle_status;

#[test]
fn scheduler_tracks_pending_and_running_jobs() {
    let mut scheduler = SchedulerService::new();
    let job_id = scheduler.enqueue(Some("repo-1"), JobKind::RepoRefresh);
    let pending = scheduler.status();
    assert_eq!(pending.queue_depth, 1);
    assert_eq!(pending.active_jobs.len(), 1);
    assert!(pending.active_jobs[0].contains("repo_refresh"));

    assert!(scheduler.mark_running(&job_id));
    let running = scheduler.status();
    assert_eq!(running.queue_depth, 0);
    assert_eq!(running.active_jobs.len(), 1);
    assert_eq!(
        scheduler.active_job_for_repo("repo-1"),
        Some(running.active_jobs[0].clone())
    );

    assert!(scheduler.mark_succeeded(&job_id));
    let settled = scheduler.status();
    assert_eq!(settled.queue_depth, 0);
    assert!(settled.active_jobs.is_empty());
}

#[test]
fn job_ids_are_zero_padded_and_sequential() {
    let mut scheduler = SchedulerService::new();
    assert_eq!(scheduler.enqueue(None, JobKind::WatchIngest), "job-000001");
    assert_eq!(scheduler.enqueue(None, JobKind::SnapshotCapture), "job-000002");
    assert_eq!(format_job_id(1234567), "job-1234567");
    assert_eq!(format_job_id(0), "job-000000");
}

#[test]
fn job_labels_include_repo_when_present() {
    let with_repo = JobRecord {
        job_id: "job-000001".to_string(),
        repo_id: Some("repo-9".to_string()),
        kind: JobKind::SnapshotCapture,
        state: JobState::Failed,
    };
    assert_eq!(with_repo.label(), "job-000001:snapshot_capture:failed:repo-9");
    let without_repo = JobRecord { repo_id: None, state: JobState::Cancelled, ..with_repo };
    assert_eq!(without_repo.label(), "job-000001:snapshot_capture:cancelled");
    assert_eq!(JobKind::WatchIngest.as_str(), "watch_ingest");
    assert_eq!(JobState::Succeeded.as_str(), "succeeded");
}

#[test]
fn unknown_job_ids_are_not_transitioned() {
    let mut scheduler = SchedulerService::new();
    let job_id = scheduler.enqueue(Some("repo-1"), JobKind::RepoRefresh);
    assert!(!scheduler.mark_failed("job-999999"));
    assert_eq!(scheduler.status().queue_depth, 1);
    assert!(scheduler.mark_failed(&job_id));
    assert_eq!(scheduler.status().active_jobs.len(), 0);
    assert_eq!(scheduler.active_job_for_repo("repo-1"), None);
}

#[test]
fn empty_scheduler_reports_idle() {
    let scheduler = SchedulerService::new();
    assert_eq!(scheduler.status(), idle_status());
    assert_eq!(idle_status().mode, "local");
}

#[test]
fn failing_a_job_never_raises_the_queue_depth() {
    let mut scheduler = SchedulerService::new();
    let first = scheduler.enqueue(Some("repo-1"), JobKind::RepoRefresh);
    let second = scheduler.enqueue(Some("repo-2"), JobKind::WatchIngest);
    assert_eq!(scheduler.status().queue_depth, 2);
    assert!(scheduler.mark_running(&second));
    assert_eq!(scheduler.status().queue_depth, 1);
    assert!(scheduler.mark_failed(&second));
    assert_eq!(scheduler.status().queue_depth, 1);
    assert!(scheduler.mark_failed(&first));
    assert_eq!(scheduler.status().queue_depth, 0);
    assert!(scheduler.status().active_jobs.is_empty());
}

#[test]
fn queue_depth_stays_within_the_active_jobs_and_failing_removes_one() {
    let mut scheduler = SchedulerService::new();
    let first = scheduler.enqueue(Some("repo-1"), JobKind::RepoRefresh);
    scheduler.enqueue(None, JobKind::WatchIngest);
    let third = scheduler.enqueue(None, JobKind::SnapshotCapture);
    assert!(scheduler.mark_running(&third));
    let status = scheduler.status();
    assert_eq!(status.queue_depth, 2);
    assert_eq!(status.active_jobs.len(), 3);
    assert!(scheduler.mark_failed(&first));
    let after = scheduler.status();
    assert_eq!(after.active_jobs.len(), 2);
    assert!(after.active_jobs.iter().all(|label| !label.starts_with(first.as_str())));
    assert!(after.queue_depth as usize <= after.active_jobs.len());
}
