use vstd::prelude::*;

use crate::protocol::status::SchedulerSnapshot;

verus! {

/// The status of a scheduler with no jobs.
pub fn idle_status() -> (s: SchedulerSnapshot)
    ensures
        s.mode@ == "local"@,
        s.queue_depth == 0,
        s.active_jobs@.len() == 0,
{
    SchedulerSnapshot { mode: "local".to_owned(), queue_depth: 0, active_jobs: Vec::new() }
}

} // verus!
