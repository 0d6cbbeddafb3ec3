use vstd::prelude::*;
use crate::models::{Job, JobStatus};

verus! {

/// What one execution of a job's task came to.
pub enum Outcome {
    Success,
    Failure(String),
}

/// What the retry policy makes of an execution.
#[derive(Debug, Clone, Copy, PartialEq, Eq, Structural)]
pub enum Decision {
    /// The job is done.
    Complete,
    /// The job goes back in the queue with this retry count.
    Requeue(i32),
    /// The job has spent its retries and fails for good with this retry count.
    Fail(i32),
}

/// The policy as a function of the job's counters and whether the run succeeded:
/// a failure is retried while the incremented count stays within `max_retries`.
pub open spec fn decision_spec(retry_count: int, max_retries: int, succeeded: bool) -> Decision {
    if succeeded {
        Decision::Complete
    } else if retry_count + 1 <= max_retries {
        Decision::Requeue((retry_count + 1) as i32)
    } else {
        Decision::Fail((retry_count + 1) as i32)
    }
}

/// Decides the next status of a job that has just been executed.
pub fn decide(retry_count: i32, max_retries: i32, succeeded: bool) -> (d: Decision)
    requires
        0 <= retry_count <= max_retries < i32::MAX,
    ensures
        d == decision_spec(retry_count as int, max_retries as int, succeeded),
{
    if succeeded {
        Decision::Complete
    } else if retry_count < max_retries {
        Decision::Requeue(retry_count + 1)
    } else {
        Decision::Fail(retry_count + 1)
    }
}

impl Outcome {
    pub open spec fn succeeded_spec(&self) -> bool {
        self is Success
    }

    pub fn succeeded(&self) -> (r: bool)
        ensures
            r == self.succeeded_spec(),
    {
        match self {
            Outcome::Success => true,
            Outcome::Failure(_) => false,
        }
    }
}

/// The later of two times.
pub open spec fn later(a: i64, b: i64) -> i64 {
    if a >= b { a } else { b }
}

/// A held job once the outcome of its run at time `now` is applied.
pub open spec fn after_outcome(j: Job, outcome: Outcome, now: i64) -> Job {
    match decision_spec(j.retry_count as int, j.max_retries as int, outcome is Success) {
        Decision::Complete => Job {
            status: JobStatus::Completed,
            completed_at: Some(later(now, j.started_at.unwrap())),
            ..j
        },
        Decision::Requeue(n) => Job {
            status: JobStatus::Queued,
            retry_count: n,
            started_at: None,
            failed_reason: None,
            ..j
        },
        Decision::Fail(n) => Job {
            status: JobStatus::Failed,
            retry_count: n,
            failed_reason: Some(outcome->Failure_0),
            ..j
        },
    }
}

/// Applies the outcome of a run that ended at time `now` to the job that was
/// held for it. A completion time is never earlier than the start time.
pub fn apply_outcome(job: &Job, outcome: Outcome, now: i64) -> (r: Job)
    requires
        job.wf(),
        job.status == JobStatus::Processing,
    ensures
        r == after_outcome(*job, outcome, now),
        r.wf(),
{
    let mut next = job.duplicate();
    let succeeded = outcome.succeeded();
    match decide(job.retry_count, job.max_retries, succeeded) {
        Decision::Complete => {
            let started = match job.started_at {
                Some(t) => t,
                None => now,
            };
            next.status = JobStatus::Completed;
            next.completed_at = Some(if now >= started { now } else { started });
        },
        Decision::Requeue(n) => {
            next.status = JobStatus::Queued;
            next.retry_count = n;
            next.started_at = None;
            next.failed_reason = None;
        },
        Decision::Fail(n) => {
            let reason = match outcome {
                Outcome::Failure(reason) => reason,
                Outcome::Success => String::new(),
            };
            next.status = JobStatus::Failed;
            next.retry_count = n;
            next.failed_reason = Some(reason);
        },
    }
    next
}

} // verus!
