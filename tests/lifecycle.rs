use job_queue::api::{get_job, lookup_reply, submit_job, submit_reply, Reply};
use job_queue::clock::{get_current_timestamp, timestamp_from};
use job_queue::models::{JobRequest, JobStatus, DEFAULT_MAX_RETRIES};
use job_queue::retry::{decide, Decision, Outcome};
use job_queue::store::{MemoryStore, StoreError};

fn fail() -> Outcome {
    Outcome::Failure("boom".to_string())
}

#[test]
fn submit_then_get_is_queued() {
    let mut store = MemoryStore::new();
    let job = store.submit("x".to_string(), 100).unwrap();
    let got = store.get_by_id(job.id).unwrap();
    assert_eq!(got.status, JobStatus::Queued);
    assert_eq!(got.retry_count, 0);
    assert_eq!(got.started_at, None);
    assert_eq!(got.completed_at, None);
    assert_eq!(got.failed_reason, None);
    assert_eq!(got.name, "x");
    assert_eq!(got.created_at, 100);
    assert_eq!(got.max_retries, DEFAULT_MAX_RETRIES);
}

#[test]
fn ids_are_assigned_in_order() {
    let mut store = MemoryStore::new();
    let a = store.submit("a".to_string(), 1).unwrap();
    let b = store.submit("b".to_string(), 2).unwrap();
    assert_eq!(a.id, 1);
    assert_eq!(b.id, 2);
    assert_eq!(store.len(), 2);
}

#[test]
fn unknown_id_is_not_found() {
    let mut store = MemoryStore::new();
    store.submit("a".to_string(), 1).unwrap();
    assert!(store.get_by_id(0).is_none());
    assert!(store.get_by_id(2).is_none());
    assert!(store.get_by_id(-5).is_none());
}

#[test]
fn four_failures_fail_the_job() {
    let mut store = MemoryStore::new();
    let job = store.submit("build".to_string(), 10).unwrap();
    assert_eq!(job.max_retries, 3);
    for attempt in 1..=3 {
        let claimed = store.claim_next(10 + attempt).unwrap();
        assert_eq!(claimed.id, job.id);
        let after = store.record_outcome(job.id, fail(), 11 + attempt).unwrap();
        assert_eq!(after.status, JobStatus::Queued);
        assert_eq!(after.retry_count, attempt as i32);
        assert_eq!(after.started_at, None);
        assert_eq!(after.failed_reason, None);
    }
    store.claim_next(20).unwrap();
    let last = store.record_outcome(job.id, fail(), 21).unwrap();
    assert_eq!(last.status, JobStatus::Failed);
    assert_eq!(last.retry_count, 4);
    assert_eq!(last.failed_reason, Some("boom".to_string()));
    assert!(store.claim_next(22).is_none());
}

#[test]
fn success_completes_the_job() {
    let mut store = MemoryStore::new();
    let job = store.submit("deploy".to_string(), 5).unwrap();
    let claimed = store.claim_next(7).unwrap();
    assert_eq!(claimed.status, JobStatus::Processing);
    assert_eq!(claimed.started_at, Some(7));
    let done = store.record_outcome(job.id, Outcome::Success, 9).unwrap();
    assert_eq!(done.status, JobStatus::Completed);
    assert_eq!(done.completed_at, Some(9));
    assert!(done.completed_at.unwrap() >= done.started_at.unwrap());
}

#[test]
fn completion_time_never_precedes_start() {
    let mut store = MemoryStore::new();
    let job = store.submit("deploy".to_string(), 5).unwrap();
    store.claim_next(50).unwrap();
    let done = store.record_outcome(job.id, Outcome::Success, 40).unwrap();
    assert_eq!(done.completed_at, Some(50));
}

#[test]
fn failing_job_does_not_block_another() {
    let mut store = MemoryStore::new();
    let one = store.submit("one".to_string(), 1).unwrap();
    let two = store.submit("two".to_string(), 2).unwrap();
    let a = store.claim_next(3).unwrap();
    let b = store.claim_next(3).unwrap();
    assert_eq!(a.id, one.id);
    assert_eq!(b.id, two.id);
    let two_done = store.record_outcome(two.id, Outcome::Success, 4).unwrap();
    assert_eq!(two_done.status, JobStatus::Completed);
    let mut now = 4;
    let mut last = store.record_outcome(one.id, fail(), now).unwrap();
    while last.status == JobStatus::Queued {
        now += 1;
        let c = store.claim_next(now).unwrap();
        assert_eq!(c.id, one.id);
        last = store.record_outcome(one.id, fail(), now).unwrap();
    }
    assert_eq!(last.status, JobStatus::Failed);
    assert_eq!(last.retry_count, 4);
    let two_again = store.get_by_id(two.id).unwrap();
    assert_eq!(two_again.status, JobStatus::Completed);
    assert_eq!(two_again.completed_at, Some(4));
}

#[test]
fn concurrent_claims_are_distinct() {
    let mut store = MemoryStore::new();
    for i in 0..3 {
        store.submit(format!("job{}", i), i).unwrap();
    }
    let mut ids = Vec::new();
    for _ in 0..5 {
        if let Some(j) = store.claim_next(10) {
            ids.push(j.id);
        }
    }
    assert_eq!(ids, vec![1, 2, 3]);
}

#[test]
fn claims_take_the_oldest_queued_first() {
    let mut store = MemoryStore::new();
    store.submit("a".to_string(), 1).unwrap();
    store.submit("b".to_string(), 2).unwrap();
    store.claim_next(3).unwrap();
    store.record_outcome(1, fail(), 4).unwrap();
    assert_eq!(store.claim_next(5).unwrap().id, 1);
    assert_eq!(store.claim_next(5).unwrap().id, 2);
}

#[test]
fn empty_store_claims_nothing() {
    let mut store = MemoryStore::new();
    assert!(store.claim_next(1).is_none());
}

#[test]
fn terminal_jobs_are_not_changed() {
    let mut store = MemoryStore::new();
    let job = store.submit("x".to_string(), 1).unwrap();
    store.claim_next(2).unwrap();
    store.record_outcome(job.id, Outcome::Success, 3).unwrap();
    assert_eq!(store.record_outcome(job.id, fail(), 4).err(), Some(StoreError::NotClaimed));
    let kept = store.get_by_id(job.id).unwrap();
    assert_eq!(kept.status, JobStatus::Completed);
    assert_eq!(kept.completed_at, Some(3));
    assert_eq!(kept.retry_count, 0);
}

#[test]
fn outcome_needs_a_claimed_job() {
    let mut store = MemoryStore::new();
    let job = store.submit("x".to_string(), 1).unwrap();
    assert_eq!(store.record_outcome(job.id, Outcome::Success, 2).err(), Some(StoreError::NotClaimed));
    assert_eq!(store.record_outcome(99, Outcome::Success, 2).err(), Some(StoreError::NotFound));
}

#[test]
fn retry_policy_boundaries() {
    assert_eq!(decide(0, 3, true), Decision::Complete);
    assert_eq!(decide(0, 3, false), Decision::Requeue(1));
    assert_eq!(decide(2, 3, false), Decision::Requeue(3));
    assert_eq!(decide(3, 3, false), Decision::Fail(4));
    assert_eq!(decide(0, 0, false), Decision::Fail(1));
}

#[test]
fn status_literals() {
    assert_eq!(JobStatus::Queued.as_str(), "Queued");
    assert_eq!(JobStatus::Processing.as_str(), "Processing");
    assert_eq!(JobStatus::Completed.as_str(), "Completed");
    assert_eq!(JobStatus::Failed.as_str(), "Failed");
    assert_eq!(JobStatus::from_text(&"Completed".to_string()), Some(JobStatus::Completed));
    assert_eq!(JobStatus::from_text(&"Queued".to_string()), Some(JobStatus::Queued));
    assert_eq!(JobStatus::from_text(&"queued".to_string()), None);
    assert_eq!(JobStatus::from_text(&String::new()), None);
    assert!(JobStatus::Failed.is_terminal());
    assert!(!JobStatus::Processing.is_terminal());
}

#[test]
fn replies_carry_status_codes() {
    let mut store = MemoryStore::new();
    let reply = submit_job(&mut store, JobRequest { name: "x".to_string() }, 1);
    assert_eq!(reply.status_code(), 200);
    match get_job(&store, 1) {
        Reply::Found(j) => assert_eq!(j.name, "x"),
        _ => panic!("job 1 should be found"),
    }
    assert_eq!(get_job(&store, 2).status_code(), 404);
    assert_eq!(submit_reply(Err(StoreError::Unavailable)).status_code(), 500);
    assert_eq!(lookup_reply(Err(StoreError::Unavailable)).status_code(), 500);
    assert_eq!(lookup_reply(Ok(None)).status_code(), 404);
}

#[test]
fn timestamps() {
    assert_eq!(timestamp_from(None), 0);
    assert_eq!(timestamp_from(Some(1_700_000_000)), 1_700_000_000);
    assert_eq!(timestamp_from(Some(u64::MAX)), i64::MAX);
    assert!(get_current_timestamp() > 1_600_000_000);
}

#[test]
fn well_formedness_of_records() {
    let mut store = MemoryStore::new();
    let job = store.submit("x".to_string(), 1).unwrap();
    assert!(job.is_well_formed());
    let held = store.claim_next(2).unwrap();
    assert!(held.is_well_formed());
    let mut broken = held.duplicate();
    broken.completed_at = Some(3);
    assert!(!broken.is_well_formed());
    let mut over = job.duplicate();
    over.retry_count = 4;
    assert!(!over.is_well_formed());
    let failed = {
        let mut s = MemoryStore::new();
        let j = s.submit("y".to_string(), 1).unwrap();
        let mut last = None;
        for t in 0..4 {
            s.claim_next(t).unwrap();
            last = Some(s.record_outcome(j.id, Outcome::Failure("no".to_string()), t).unwrap());
        }
        last.unwrap()
    };
    assert_eq!(failed.status, JobStatus::Failed);
    assert!(failed.is_well_formed());
}
