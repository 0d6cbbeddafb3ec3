use vstd::prelude::*;
use crate::models::Job;
use crate::retry::Outcome;

verus! {

/// Milliseconds a worker sleeps after finding nothing to claim.
pub const IDLE_MS: u64 = 500;

/// Milliseconds a worker backs off after the store failed a claim.
pub const BACKOFF_MS: u64 = 1000;

/// Seconds the stand-in task runs before it reports.
pub const TASK_SECS: u64 = 5;

/// Percent of stand-in task runs that fail.
pub const FAILURE_PERCENT: u32 = 30;

/// What the stand-in task reports when it fails.
pub open spec fn failure_reason() -> Seq<char> {
    "Simulated random failure"@
}

/// What a claim attempt came to.
pub enum ClaimResult {
    Claimed(Job),
    Empty,
    StorageError,
}

/// The next thing a worker loop does.
#[derive(Debug, Clone, Copy, PartialEq, Eq, Structural)]
pub enum WorkerAction {
    /// Leave the loop: shutdown was signalled.
    Exit,
    /// Try to claim the next job.
    Claim,
    /// Run the task of the job with this id, then record its outcome.
    Execute(i64),
    /// Sleep this many milliseconds, then go round again.
    Sleep(u64),
}

/// At the top of each round: a signalled shutdown ends the loop, as nothing
/// is held between rounds; otherwise the worker claims.
pub fn on_round(shutdown_signalled: bool) -> (a: WorkerAction)
    ensures
        shutdown_signalled ==> a == WorkerAction::Exit,
        !shutdown_signalled ==> a == WorkerAction::Claim,
{
    if shutdown_signalled {
        WorkerAction::Exit
    } else {
        WorkerAction::Claim
    }
}

/// After a claim: run what was claimed, idle when nothing was queued, and
/// back off when the store failed.
pub fn on_claim(result: &ClaimResult) -> (a: WorkerAction)
    ensures
        match *result {
            ClaimResult::Claimed(j) => a == WorkerAction::Execute(j.id),
            ClaimResult::Empty => a == WorkerAction::Sleep(IDLE_MS),
            ClaimResult::StorageError => a == WorkerAction::Sleep(BACKOFF_MS),
        },
{
    match result {
        ClaimResult::Claimed(j) => WorkerAction::Execute(j.id),
        ClaimResult::Empty => WorkerAction::Sleep(IDLE_MS),
        ClaimResult::StorageError => WorkerAction::Sleep(BACKOFF_MS),
    }
}

/// The stand-in task's outcome for a draw in `0..100`: the lowest
/// `FAILURE_PERCENT` draws fail.
pub fn simulated_outcome(draw: u32) -> (o: Outcome)
    requires
        draw < 100,
    ensures
        draw < FAILURE_PERCENT ==> o is Failure && o->Failure_0@ == failure_reason(),
        draw >= FAILURE_PERCENT ==> o is Success,
{
    if draw < FAILURE_PERCENT {
        proof {
            reveal_strlit("Simulated random failure");
        }
        Outcome::Failure("Simulated random failure".to_string())
    } else {
        Outcome::Success
    }
}

/// Relies on rand's `random`: a value drawn from the thread-local generator.
/// Nothing is promised of which value comes.
pub assume_specification<T>[ rand::random::<T> ]() -> (r: T)
    where
        rand::distributions::Standard: rand::distributions::Distribution<T>,
;

/// Runs the stand-in task's dice: a uniform draw decides success or failure.
pub fn run_simulated_task() -> (o: Outcome)
    ensures
        o is Failure ==> o->Failure_0@ == failure_reason(),
{
    let r: u32 = rand::random::<u32>();
    simulated_outcome(r % 100)
}

/// How many times a worker tries to write an outcome before it gives up.
pub const OUTCOME_WRITE_ATTEMPTS: u32 = 3;

/// After the store failed to record an outcome on attempt `attempt` (counted
/// from 1): whether to try again.
pub fn retry_outcome_write(attempt: u32) -> (again: bool)
    ensures
        again == (attempt < OUTCOME_WRITE_ATTEMPTS),
{
    attempt < OUTCOME_WRITE_ATTEMPTS
}

} // verus!
