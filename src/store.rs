use vstd::prelude::*;
use crate::models::{Job, JobStatus, DEFAULT_MAX_RETRIES};
use crate::retry::{after_outcome, apply_outcome, Outcome};

verus! {

/// Why a store operation did not go through.
#[derive(Debug, Clone, Copy, PartialEq, Eq, Structural)]
pub enum StoreError {
    /// No id is left to hand out.
    Full,
    /// No job has this id.
    NotFound,
    /// The job is not held by a worker, so it has no outcome to record.
    NotClaimed,
    /// The storage behind the store failed the operation.
    Unavailable,
}

/// The most jobs a store can hold: ids run from 1 to this bound.
pub const MAX_JOBS: usize = 0x7fff_ffff;

/// The job with id `id`, if any: ids are handed out as 1, 2, 3, ...
pub open spec fn lookup(s: Seq<Job>, id: int) -> Option<Job> {
    if 1 <= id <= s.len() {
        Some(s[id - 1])
    } else {
        None
    }
}

/// A job as it is created: queued, with no attempts made.
pub open spec fn fresh_job(id: int, name: Seq<char>, now: i64, j: Job) -> bool {
    &&& j.id == id
    &&& j.name@ == name
    &&& j.status == JobStatus::Queued
    &&& j.retry_count == 0
    &&& j.max_retries == DEFAULT_MAX_RETRIES
    &&& j.created_at == now
    &&& j.started_at is None
    &&& j.completed_at is None
    &&& j.failed_reason is None
}

/// The index of the oldest queued job, if one is queued.
pub open spec fn first_queued(s: Seq<Job>) -> Option<int> {
    if exists|i: int| 0 <= i < s.len() && s[i].status == JobStatus::Queued {
        Some(choose|i: int|
            0 <= i < s.len() && s[i].status == JobStatus::Queued
            && forall|k: int| 0 <= k < i ==> s[k].status != JobStatus::Queued)
    } else {
        None
    }
}

/// A job once a worker has claimed it at time `now`.
pub open spec fn claimed(j: Job, now: i64) -> Job {
    Job { status: JobStatus::Processing, started_at: Some(now), ..j }
}

/// One claim on the store: the oldest queued job turns to `Processing`.
pub open spec fn claim_step(s: Seq<Job>, now: i64) -> (Seq<Job>, Option<int>) {
    match first_queued(s) {
        Some(i) => (s.update(i, claimed(s[i], now)), Some(s[i].id as int)),
        None => (s, None),
    }
}

/// The id of a job handed back, if one was.
pub open spec fn id_of(r: Option<Job>) -> Option<int> {
    match r {
        Some(j) => Some(j.id as int),
        None => None,
    }
}

/// No job that was terminal in `before` differs in `after`, and none is gone.
pub open spec fn terminal_kept(before: Seq<Job>, after: Seq<Job>) -> bool {
    &&& before.len() <= after.len()
    &&& forall|i: int| 0 <= i < before.len() && (#[trigger] before[i]).status.is_terminal_spec()
        ==> after[i] == before[i]
}

/// The jobs in a store, each well formed and with id one more than its index.
pub open spec fn store_wf(s: Seq<Job>) -> bool {
    &&& s.len() <= MAX_JOBS
    &&& forall|i: int| 0 <= i < s.len() ==> (#[trigger] s[i]).wf() && s[i].id == i + 1
}

/// The in-process job store: every job ever submitted, kept in order of id
/// behind whatever lock the caller holds.
pub struct MemoryStore {
    jobs: Vec<Job>,
}

impl View for MemoryStore {
    type V = Seq<Job>;

    closed spec fn view(&self) -> Seq<Job> {
        self.jobs@
    }
}

impl MemoryStore {
    pub closed spec fn wf(&self) -> bool {
        store_wf(self.jobs@)
    }

    pub proof fn lemma_wf(&self)
        requires
            self.wf(),
        ensures
            store_wf(self@),
    {
    }

    pub fn new() -> (r: MemoryStore)
        ensures
            r.wf(),
            r@ == Seq::<Job>::empty(),
    {
        MemoryStore { jobs: Vec::new() }
    }

    pub fn len(&self) -> (r: usize)
        ensures
            r == self@.len(),
    {
        self.jobs.len()
    }

    /// Adds a queued job named `name`, created at `now`, under the next id.
    pub fn submit(&mut self, name: String, now: i64) -> (r: Result<Job, StoreError>)
        requires
            old(self).wf(),
        ensures
            final(self).wf(),
            terminal_kept(old(self)@, final(self)@),
            old(self)@.len() >= MAX_JOBS <==> r is Err,
            r is Err ==> r == Err::<Job, StoreError>(StoreError::Full) && final(self)@ == old(self)@,
            r is Ok ==> fresh_job(old(self)@.len() as int + 1, name@, now, r->Ok_0)
                && final(self)@ == old(self)@.push(r->Ok_0),
    {
        let n = self.jobs.len();
        if n >= MAX_JOBS {
            return Err(StoreError::Full);
        }
        let job = Job {
            id: (n + 1) as i64,
            name,
            status: JobStatus::Queued,
            retry_count: 0,
            max_retries: DEFAULT_MAX_RETRIES,
            created_at: now,
            started_at: None,
            completed_at: None,
            failed_reason: None,
        };
        let out = job.duplicate();
        self.jobs.push(job);
        proof {
            assert(self.jobs@[n as int] == out);
        }
        Ok(out)
    }

    /// The job with id `id`, if there is one.
    pub fn get_by_id(&self, id: i64) -> (r: Option<Job>)
        requires
            self.wf(),
        ensures
            r == lookup(self@, id as int),
    {
        if id < 1 || id as u64 > self.jobs.len() as u64 {
            return None;
        }
        Some(self.jobs[(id - 1) as usize].duplicate())
    }

    /// Claims the oldest queued job for the caller: it turns to `Processing`
    /// with `started_at` set to `now`, and is handed back. With no job
    /// queued nothing changes and `None` comes back.
    pub fn claim_next(&mut self, now: i64) -> (r: Option<Job>)
        requires
            old(self).wf(),
        ensures
            final(self).wf(),
            terminal_kept(old(self)@, final(self)@),
            (final(self)@, id_of(r)) == claim_step(old(self)@, now),
            r is None <==> first_queued(old(self)@) is None,
            r is Some ==> lookup(final(self)@, r->Some_0.id as int) == r,
    {
        let ghost s = self.jobs@;
        let n = self.jobs.len();
        let mut i: usize = 0;
        while i < n
            invariant
                n == s.len(),
                store_wf(s),
                s == old(self)@,
                self.jobs@ == s,
                0 <= i <= n,
                forall|k: int| 0 <= k < i ==> s[k].status != JobStatus::Queued,
            decreases n - i,
        {
            if self.jobs[i].status == JobStatus::Queued {
                proof {
                    let c = choose|c: int|
                        0 <= c < s.len() && s[c].status == JobStatus::Queued
                        && forall|k: int| 0 <= k < c ==> s[k].status != JobStatus::Queued;
                    assert(0 <= i < s.len() && s[i as int].status == JobStatus::Queued
                        && forall|k: int| 0 <= k < i ==> s[k].status != JobStatus::Queued);
                    if c < i {
                        assert(s[c].status != JobStatus::Queued);
                    }
                    if c > i {
                        assert(s[i as int].status != JobStatus::Queued);
                    }
                    assert(first_queued(s) == Some(i as int));
                }
                let mut job = self.jobs[i].duplicate();
                job.status = JobStatus::Processing;
                job.started_at = Some(now);
                let out = job.duplicate();
                self.jobs.set(i, job);
                proof {
                    assert(out == claimed(s[i as int], now));
                    assert(self.jobs@ == s.update(i as int, claimed(s[i as int], now)));
                    assert forall|k: int| 0 <= k < self.jobs@.len() implies
                        (#[trigger] self.jobs@[k]).wf() && self.jobs@[k].id == k + 1 by {
                        if k != i {
                            assert(self.jobs@[k] == s[k]);
                        }
                    }
                    assert(claim_step(s, now) == (self.jobs@, Some(out.id as int)));
                    assert(id_of(Some(out)) == Some(out.id as int));
                    assert forall|k: int| 0 <= k < s.len() && (#[trigger] s[k]).status.is_terminal_spec()
                        implies self.jobs@[k] == s[k] by {
                        if k == i {
                            assert(!s[k].status.is_terminal_spec());
                        }
                    }
                }
                return Some(out);
            }
            i = i + 1;
        }
        proof {
            assert(first_queued(s) is None);
        }
        None
    }

    /// Records how the run of the held job `id` went, at time `now`: success
    /// completes it; a failure re-queues it while its incremented retry count
    /// stays within `max_retries`, and fails it for good otherwise.
    pub fn record_outcome(&mut self, id: i64, outcome: Outcome, now: i64) -> (r: Result<Job, StoreError>)
        requires
            old(self).wf(),
        ensures
            final(self).wf(),
            terminal_kept(old(self)@, final(self)@),
            lookup(old(self)@, id as int) is None ==> r == Err::<Job, StoreError>(StoreError::NotFound),
            lookup(old(self)@, id as int) is Some
                && lookup(old(self)@, id as int)->Some_0.status != JobStatus::Processing
                ==> r == Err::<Job, StoreError>(StoreError::NotClaimed),
            r is Err ==> final(self)@ == old(self)@,
            lookup(old(self)@, id as int) is Some
                && lookup(old(self)@, id as int)->Some_0.status == JobStatus::Processing ==> {
                &&& r is Ok
                &&& r->Ok_0 == after_outcome(old(self)@[id - 1], outcome, now)
                &&& final(self)@ == old(self)@.update(id - 1, r->Ok_0)
            },
    {
        let ghost s = self.jobs@;
        if id < 1 || id as u64 > self.jobs.len() as u64 {
            return Err(StoreError::NotFound);
        }
        let i = (id - 1) as usize;
        if self.jobs[i].status != JobStatus::Processing {
            return Err(StoreError::NotClaimed);
        }
        let job = apply_outcome(&self.jobs[i], outcome, now);
        let out = job.duplicate();
        self.jobs.set(i, job);
        proof {
            assert forall|k: int| 0 <= k < self.jobs@.len() implies
                (#[trigger] self.jobs@[k]).wf() && self.jobs@[k].id == k + 1 by {
                if k != i {
                    assert(self.jobs@[k] == s[k]);
                }
            }
        }
        Ok(out)
    }
}

} // verus!
