use vstd::prelude::*;

use crate::protocol::status::SchedulerSnapshot;
use crate::scheduler::jobs::{job_label, JobKind, JobRecord, JobState};
use crate::scheduler::status::idle_status;
use crate::text::{decimal, push_decimal, push_str, str_chars, string_push};

verus! {

/// A local queue of background jobs.
#[derive(Debug)]
pub struct SchedulerService {
    next_job_id: u64,
    jobs: Vec<JobRecord>,
}

/// `d` padded on the left with zeros to at least six characters.
pub open spec fn pad6(d: Seq<char>) -> Seq<char> {
    if d.len() < 6 { Seq::new((6 - d.len()) as nat, |i: int| '0') + d } else { d }
}

/// The id of the job numbered `n`: `job-` and `n` in at least six digits.
pub open spec fn job_id_text(n: u64) -> Seq<char> {
    "job-"@ + pad6(decimal(n as nat))
}

/// Whether a job is waiting or running.
pub open spec fn is_active(s: JobState) -> bool {
    s == JobState::Pending || s == JobState::Running
}

/// The number of pending jobs.
pub open spec fn count_pending(jobs: Seq<JobRecord>) -> nat
    decreases jobs.len(),
{
    if jobs.len() == 0 {
        0
    } else {
        count_pending(jobs.drop_last()) + if jobs.last().state == JobState::Pending { 1nat } else { 0 }
    }
}

/// The labels of the active jobs, in order.
pub open spec fn active_labels(jobs: Seq<JobRecord>) -> Seq<Seq<char>>
    decreases jobs.len(),
{
    if jobs.len() == 0 {
        Seq::empty()
    } else {
        let rest = active_labels(jobs.drop_last());
        if is_active(jobs.last().state) { rest.push(job_label(jobs.last())) } else { rest }
    }
}

/// The index of the first job with this id.
pub open spec fn find_job(jobs: Seq<JobRecord>, job_id: Seq<char>) -> Option<int>
    decreases jobs.len(),
{
    if jobs.len() == 0 {
        None
    } else if jobs[0].job_id@ == job_id {
        Some(0)
    } else {
        match find_job(jobs.drop_first(), job_id) {
            Some(i) => Some(i + 1),
            None => None,
        }
    }
}

/// The index of the first active job of this repository.
pub open spec fn find_active_for_repo(jobs: Seq<JobRecord>, repo_id: Seq<char>) -> Option<int>
    decreases jobs.len(),
{
    if jobs.len() == 0 {
        None
    } else if jobs[0].repo_id matches Some(r) && r@ == repo_id && is_active(jobs[0].state) {
        Some(0)
    } else {
        match find_active_for_repo(jobs.drop_first(), repo_id) {
            Some(i) => Some(i + 1),
            None => None,
        }
    }
}

/// The views of a sequence of strings.
pub open spec fn string_views(v: Seq<String>) -> Seq<Seq<char>> {
    v.map_values(|s: String| s@)
}

proof fn lemma_find_job_range(jobs: Seq<JobRecord>, job_id: Seq<char>)
    ensures
        find_job(jobs, job_id) matches Some(i) ==> 0 <= i < jobs.len() && jobs[i].job_id@ == job_id,
        find_job(jobs, job_id) is None ==> forall|k: int| 0 <= k < jobs.len() ==> #[trigger] jobs[k].job_id@ != job_id,
    decreases jobs.len(),
{
    if jobs.len() > 0 {
        lemma_find_job_range(jobs.drop_first(), job_id);
        if !(jobs[0].job_id@ == job_id) {
            assert forall|k: int| 1 <= k < jobs.len() implies jobs[k] == jobs.drop_first()[k - 1] by {}
        }
    }
}

proof fn lemma_find_active_range(jobs: Seq<JobRecord>, repo_id: Seq<char>)
    ensures
        find_active_for_repo(jobs, repo_id) matches Some(i) ==> 0 <= i < jobs.len(),
    decreases jobs.len(),
{
    if jobs.len() > 0 {
        lemma_find_active_range(jobs.drop_first(), repo_id);
    }
}

proof fn lemma_count_pending_bounded(jobs: Seq<JobRecord>)
    ensures
        count_pending(jobs) <= jobs.len(),
    decreases jobs.len(),
{
    if jobs.len() > 0 {
        lemma_count_pending_bounded(jobs.drop_last());
    }
}

impl Default for SchedulerService {
    fn default() -> (s: Self)
        ensures
            s.next_id() == 0,
            s.jobs_view().len() == 0,
    {
        SchedulerService { next_job_id: 0, jobs: Vec::new() }
    }
}

impl SchedulerService {
    /// The number the next job will get.
    pub closed spec fn next_id(&self) -> u64 {
        self.next_job_id
    }

    /// The jobs, in the order they were enqueued.
    pub closed spec fn jobs_view(&self) -> Seq<JobRecord> {
        self.jobs@
    }

    /// An empty scheduler whose first job is numbered 1.
    pub fn new() -> (s: Self)
        ensures
            s.next_id() == 1,
            s.jobs_view().len() == 0,
    {
        SchedulerService { next_job_id: 1, jobs: Vec::new() }
    }

    /// Adds a pending job and returns its id.
    pub fn enqueue(&mut self, repo_id: Option<&str>, kind: JobKind) -> (job_id: String)
        requires
            old(self).next_id() < u64::MAX,
        ensures
            job_id@ == job_id_text(old(self).next_id()),
            final(self).next_id() == old(self).next_id() + 1,
            final(self).jobs_view().len() == old(self).jobs_view().len() + 1,
            final(self).jobs_view().drop_last() == old(self).jobs_view(),
            final(self).jobs_view().last().job_id@ == job_id@,
            opt_str_view(final(self).jobs_view().last().repo_id) == (match repo_id { Some(r) => Some(r@), None => None }),
            final(self).jobs_view().last().kind == kind,
            final(self).jobs_view().last().state == JobState::Pending,
    {
        let job_id = format_job_id(self.next_job_id);
        self.next_job_id = self.next_job_id + 1;
        let repo = match repo_id {
            Some(r) => Some(r.to_owned()),
            None => None,
        };
        let ghost before = self.jobs@;
        self.jobs.push(JobRecord { job_id: job_id.clone(), repo_id: repo, kind, state: JobState::Pending });
        assert(self.jobs@.drop_last() =~= before);
        job_id
    }

    /// Marks a job running; false when no job has this id.
    pub fn mark_running(&mut self, job_id: &str) -> (found: bool)
        ensures
            transitioned(old(self).jobs_view(), final(self).jobs_view(), job_id@, JobState::Running, found),
            final(self).next_id() == old(self).next_id(),
    {
        self.transition(job_id, JobState::Running)
    }

    /// Marks a job succeeded; false when no job has this id.
    pub fn mark_succeeded(&mut self, job_id: &str) -> (found: bool)
        ensures
            transitioned(old(self).jobs_view(), final(self).jobs_view(), job_id@, JobState::Succeeded, found),
            final(self).next_id() == old(self).next_id(),
    {
        self.transition(job_id, JobState::Succeeded)
    }

    /// Marks a job failed; false when no job has this id.
    pub fn mark_failed(&mut self, job_id: &str) -> (found: bool)
        ensures
            transitioned(old(self).jobs_view(), final(self).jobs_view(), job_id@, JobState::Failed, found),
            final(self).next_id() == old(self).next_id(),
    {
        self.transition(job_id, JobState::Failed)
    }

    /// The label of the first pending or running job of a repository.
    pub fn active_job_for_repo(&self, repo_id: &str) -> (r: Option<String>)
        ensures
            match find_active_for_repo(self.jobs_view(), repo_id@) {
                Some(i) => r matches Some(s) && s@ == job_label(self.jobs_view()[i]),
                None => r is None,
            },
    {
        let ghost jobs = self.jobs@;
        let wanted = repo_id.to_owned();
        let mut i: usize = 0;
        assert(jobs.subrange(0, jobs.len() as int) =~= jobs);
        while i < self.jobs.len()
            invariant
                0 <= i <= jobs.len(),
                jobs == self.jobs@,
                wanted@ == repo_id@,
                find_active_for_repo(jobs, repo_id@) == (match find_active_for_repo(jobs.subrange(i as int, jobs.len() as int), repo_id@) {
                    Some(k) => Some(k + i),
                    None => None,
                }),
            decreases jobs.len() - i,
        {
            let ghost rest = jobs.subrange(i as int, jobs.len() as int);
            assert(rest[0] == jobs[i as int]);
            assert(rest.drop_first() =~= jobs.subrange(i + 1, jobs.len() as int));
            let job = &self.jobs[i];
            let same_repo = match &job.repo_id {
                Some(r) => *r == wanted,
                None => false,
            };
            if same_repo && (job.state == JobState::Pending || job.state == JobState::Running) {
                return Some(job.label());
            }
            i = i + 1;
        }
        None
    }

    /// The scheduler's status: idle when it has no jobs, else the number of pending jobs
    /// and the labels of the pending and running ones.
    pub fn status(&self) -> (s: SchedulerSnapshot)
        ensures
            s.mode@ == "local"@,
            s.queue_depth == count_pending(self.jobs_view()),
            string_views(s.active_jobs@) == active_labels(self.jobs_view()),
            s.queue_depth <= s.active_jobs@.len(),
    {
        proof {
            law_depth_within_active(self.jobs_view());
        }
        if self.jobs.len() == 0 {
            let s = idle_status();
            assert(string_views(s.active_jobs@) =~= Seq::<Seq<char>>::empty());
            return s;
        }
        let mut depth: usize = 0;
        let mut active: Vec<String> = Vec::new();
        let mut i: usize = 0;
        while i < self.jobs.len()
            invariant
                0 <= i <= self.jobs@.len(),
                depth == count_pending(self.jobs@.subrange(0, i as int)),
                string_views(active@) == active_labels(self.jobs@.subrange(0, i as int)),
            decreases self.jobs@.len() - i,
        {
            assert(self.jobs@.subrange(0, i + 1).drop_last() =~= self.jobs@.subrange(0, i as int));
            proof {
                lemma_count_pending_bounded(self.jobs@.subrange(0, i as int));
            }
            let job = &self.jobs[i];
            if job.state == JobState::Pending {
                depth = depth + 1;
            }
            if job.state == JobState::Pending || job.state == JobState::Running {
                let ghost before = active@;
                let label = job.label();
                active.push(label);
                assert(string_views(active@) =~= string_views(before).push(label@));
            }
            i = i + 1;
        }
        assert(self.jobs@.subrange(0, self.jobs@.len() as int) =~= self.jobs@);
        SchedulerSnapshot { mode: "local".to_owned(), queue_depth: depth, active_jobs: active }
    }

    fn transition(&mut self, job_id: &str, state: JobState) -> (found: bool)
        ensures
            transitioned(old(self).jobs_view(), final(self).jobs_view(), job_id@, state, found),
            final(self).next_id() == old(self).next_id(),
    {
        match find_job_index(&self.jobs, job_id) {
            Some(i) => {
                let ghost jobs = self.jobs@;
                proof {
                    lemma_find_job_range(jobs, job_id@);
                }
                let job = self.jobs.remove(i);
                let updated = JobRecord { job_id: job.job_id, repo_id: job.repo_id, kind: job.kind, state };
                self.jobs.insert(i, updated);
                assert(self.jobs@ =~= jobs.update(i as int, JobRecord { state, ..jobs[i as int] }));
                true
            },
            None => false,
        }
    }
}

fn find_job_index(jobs: &Vec<JobRecord>, job_id: &str) -> (r: Option<usize>)
    ensures
        match r {
            Some(i) => find_job(jobs@, job_id@) == Some(i as int),
            None => find_job(jobs@, job_id@) is None,
        },
{
    let ghost js = jobs@;
    let wanted = job_id.to_owned();
    let mut i: usize = 0;
    assert(js.subrange(0, js.len() as int) =~= js);
    while i < jobs.len()
        invariant
            0 <= i <= js.len(),
            js == jobs@,
            wanted@ == job_id@,
            find_job(js, job_id@) == (match find_job(js.subrange(i as int, js.len() as int), job_id@) {
                Some(k) => Some(k + i),
                None => None,
            }),
        decreases js.len() - i,
    {
        let ghost rest = js.subrange(i as int, js.len() as int);
        assert(rest[0] == js[i as int]);
        assert(rest.drop_first() =~= js.subrange(i + 1, js.len() as int));
        if jobs[i].job_id == wanted {
            return Some(i);
        }
        i = i + 1;
    }
    None
}

/// The view of an optional string.
pub open spec fn opt_str_view(o: Option<String>) -> Option<Seq<char>> {
    match o {
        Some(s) => Some(s@),
        None => None,
    }
}

/// Whether `after` is `before` with the first job of this id moved to `state` (`found`),
/// or unchanged when no job has this id.
pub open spec fn transitioned(before: Seq<JobRecord>, after: Seq<JobRecord>, job_id: Seq<char>, state: JobState, found: bool) -> bool {
    match find_job(before, job_id) {
        Some(i) => found && after == before.update(i, JobRecord { state, ..before[i] }),
        None => !found && after == before,
    }
}

/// The id of the job numbered `n`.
pub fn format_job_id(n: u64) -> (s: String)
    ensures
        s@ == job_id_text(n),
{
    let mut digits = String::new();
    push_decimal(&mut digits, n);
    let len = str_chars(digits.as_str()).len();
    let mut s = String::new();
    push_str(&mut s, "job-");
    let mut pad: usize = 0;
    while len < 6 && pad < 6 - len
        invariant
            len as nat == decimal(n as nat).len(),
            digits@ == decimal(n as nat),
            len < 6 ==> pad <= 6 - len,
            len >= 6 ==> pad == 0,
            s@ == "job-"@ + Seq::new(pad as nat, |i: int| '0'),
        decreases 6 - pad,
    {
        string_push(&mut s, '0');
        assert(s@ =~= "job-"@ + Seq::new((pad + 1) as nat, |i: int| '0'));
        pad = pad + 1;
    }
    push_str(&mut s, digits.as_str());
    proof {
        if decimal(n as nat).len() >= 6 {
            assert(Seq::new(0nat, |i: int| '0') =~= Seq::<char>::empty());
        }
    }
    assert(s@ =~= job_id_text(n));
    s
}

/// A job that was just enqueued can be found by its id, so marking it succeeds.
pub proof fn law_enqueued_job_is_found(before: Seq<JobRecord>, after: Seq<JobRecord>, job_id: Seq<char>)
    requires
        after.len() == before.len() + 1,
        after.drop_last() == before,
        after.last().job_id@ == job_id,
    ensures
        find_job(after, job_id) is Some,
{
    lemma_find_job_range(after, job_id);
    if find_job(after, job_id) is None {
        assert(after[after.len() - 1].job_id@ != job_id);
    }
}

/// Enqueuing a pending job raises the queue depth by one and adds its label, last, to the
/// active jobs.
pub proof fn law_enqueue_adds_pending(before: Seq<JobRecord>, after: Seq<JobRecord>)
    requires
        after.len() == before.len() + 1,
        after.drop_last() == before,
        after.last().state == JobState::Pending,
    ensures
        count_pending(after) == count_pending(before) + 1,
        active_labels(after) == active_labels(before).push(job_label(after.last())),
{
}

/// A state change never adds or removes jobs, and never changes the jobs' ids.
pub proof fn law_transition_keeps_jobs(before: Seq<JobRecord>, after: Seq<JobRecord>, job_id: Seq<char>, state: JobState, found: bool)
    requires
        transitioned(before, after, job_id, state, found),
    ensures
        after.len() == before.len(),
        forall|i: int| 0 <= i < before.len() ==> #[trigger] after[i].job_id == before[i].job_id,
        found <==> exists|i: int| 0 <= i < before.len() && #[trigger] before[i].job_id@ == job_id,
{
    lemma_find_job_range(before, job_id);
}

proof fn lemma_count_pending_update(s: Seq<JobRecord>, i: int, x: JobRecord)
    requires
        0 <= i < s.len(),
        x.state != JobState::Pending,
    ensures
        count_pending(s.update(i, x)) <= count_pending(s),
    decreases s.len(),
{
    let u = s.update(i, x);
    if i == s.len() - 1 {
        assert(u.drop_last() =~= s.drop_last());
    } else {
        lemma_count_pending_update(s.drop_last(), i, x);
        assert(u.drop_last() =~= s.drop_last().update(i, x));
    }
}

/// Moving a job to any state but pending (failed, succeeded, running) never raises the
/// queue depth.
pub proof fn law_leaving_pending_never_raises_depth(before: Seq<JobRecord>, after: Seq<JobRecord>, job_id: Seq<char>,
    state: JobState, found: bool)
    requires
        transitioned(before, after, job_id, state, found),
        state != JobState::Pending,
    ensures
        count_pending(after) <= count_pending(before),
{
    lemma_find_job_range(before, job_id);
    if let Some(i) = find_job(before, job_id) {
        lemma_count_pending_update(before, i, JobRecord { state, ..before[i] });
    }
}

/// The queue depth never exceeds the number of active jobs: every pending job is active.
pub proof fn law_depth_within_active(jobs: Seq<JobRecord>)
    ensures
        count_pending(jobs) <= active_labels(jobs).len(),
    decreases jobs.len(),
{
    if jobs.len() > 0 {
        law_depth_within_active(jobs.drop_last());
    }
}

proof fn lemma_active_update(s: Seq<JobRecord>, i: int, x: JobRecord)
    requires
        0 <= i < s.len(),
        !is_active(x.state),
    ensures
        active_labels(s.update(i, x)).len() + (if is_active(s[i].state) { 1int } else { 0 })
            == active_labels(s).len(),
    decreases s.len(),
{
    let u = s.update(i, x);
    if i == s.len() - 1 {
        assert(u.drop_last() =~= s.drop_last());
    } else {
        lemma_active_update(s.drop_last(), i, x);
        assert(u.drop_last() =~= s.drop_last().update(i, x));
    }
}

/// Failing a job takes it out of the active jobs: when some job has the id, the first
/// such job becomes failed and the active list loses one entry if that job was pending or
/// running (and keeps its length otherwise); when none has it, nothing changes.
pub proof fn law_failed_job_leaves_active(before: Seq<JobRecord>, after: Seq<JobRecord>, job_id: Seq<char>, found: bool)
    requires
        transitioned(before, after, job_id, JobState::Failed, found),
    ensures
        !found ==> after == before,
        found ==> exists|i: int| 0 <= i < before.len() && #[trigger] before[i].job_id@ == job_id
            && after[i].state == JobState::Failed
            && active_labels(after).len() + (if is_active(before[i].state) { 1int } else { 0 })
                == active_labels(before).len(),
{
    lemma_find_job_range(before, job_id);
    if let Some(i) = find_job(before, job_id) {
        let x = JobRecord { state: JobState::Failed, ..before[i] };
        lemma_active_update(before, i, x);
        assert(before[i].job_id@ == job_id);
    }
}

} // verus!
