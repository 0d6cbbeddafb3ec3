use vstd::prelude::*;

verus! {

/// Retries a job gets unless it asks for another number.
pub const DEFAULT_MAX_RETRIES: i32 = 3;

/// Where a job stands in its lifecycle.
#[derive(Debug, Clone, Copy, PartialEq, Eq, Structural)]
pub enum JobStatus {
    Queued,
    Processing,
    Completed,
    Failed,
}

impl JobStatus {
    pub open spec fn is_terminal_spec(self) -> bool {
        self == JobStatus::Completed || self == JobStatus::Failed
    }

    /// `Completed` and `Failed` are final: nothing about such a job changes again.
    pub fn is_terminal(&self) -> (r: bool)
        ensures
            r == self.is_terminal_spec(),
    {
        match self {
            JobStatus::Completed | JobStatus::Failed => true,
            _ => false,
        }
    }

    /// The literal under which the status is persisted.
    pub fn as_str(&self) -> (r: &'static str)
        ensures
            r@ == status_text(*self),
    {
        match self {
            JobStatus::Queued => "Queued",
            JobStatus::Processing => "Processing",
            JobStatus::Completed => "Completed",
            JobStatus::Failed => "Failed",
        }
    }
}

impl JobStatus {
    /// Reads a persisted status literal back; anything else is `None`.
    pub fn from_text(s: &String) -> (r: Option<JobStatus>)
        ensures
            r is Some ==> status_text(r->Some_0) == s@,
            r is None ==> forall|st: JobStatus| status_text(st) != s@,
    {
        proof {
            reveal_strlit("Queued");
            reveal_strlit("Processing");
            reveal_strlit("Completed");
            reveal_strlit("Failed");
        }
        if *s == "Queued".to_owned() {
            Some(JobStatus::Queued)
        } else if *s == "Processing".to_owned() {
            Some(JobStatus::Processing)
        } else if *s == "Completed".to_owned() {
            Some(JobStatus::Completed)
        } else if *s == "Failed".to_owned() {
            Some(JobStatus::Failed)
        } else {
            proof {
                assert forall|st: JobStatus| status_text(st) != s@ by {
                    match st {
                        JobStatus::Queued => {},
                        JobStatus::Processing => {},
                        JobStatus::Completed => {},
                        JobStatus::Failed => {},
                    }
                }
            }
            None
        }
    }
}

pub open spec fn status_text(s: JobStatus) -> Seq<char> {
    match s {
        JobStatus::Queued => "Queued"@,
        JobStatus::Processing => "Processing"@,
        JobStatus::Completed => "Completed"@,
        JobStatus::Failed => "Failed"@,
    }
}

/// One submitted unit of work and everything recorded about it.
pub struct Job {
    pub id: i64,
    pub name: String,
    pub status: JobStatus,
    pub retry_count: i32,
    pub max_retries: i32,
    /// Unix seconds.
    pub created_at: i64,
    pub started_at: Option<i64>,
    pub completed_at: Option<i64>,
    pub failed_reason: Option<String>,
}

/// The body of a submission: the job's name.
pub struct JobRequest {
    pub name: String,
}

impl Job {
    /// What holds of a job in every state it can reach: the retry bound
    /// while it is not failed, a start time while it is claimed, and the
    /// terminal records written exactly in the terminal states.
    pub open spec fn wf(&self) -> bool {
        &&& 0 <= self.retry_count
        &&& 0 <= self.max_retries < i32::MAX
        &&& self.status != JobStatus::Failed ==> self.retry_count <= self.max_retries
        &&& self.status == JobStatus::Failed ==> self.retry_count == self.max_retries + 1
        &&& (self.status == JobStatus::Queued) ==> self.started_at is None
        &&& (self.status == JobStatus::Processing) ==> self.started_at is Some
        &&& (self.status == JobStatus::Completed) <==> self.completed_at is Some
        &&& (self.status == JobStatus::Completed) ==> (self.started_at is Some
            && self.completed_at.unwrap() >= self.started_at.unwrap())
        &&& (self.status == JobStatus::Failed) <==> self.failed_reason is Some
    }

    /// Whether the job is in a state that the lifecycle can reach; a record
    /// read back from outside storage can be checked with this.
    pub fn is_well_formed(&self) -> (r: bool)
        ensures
            r == self.wf(),
    {
        let queued = matches!(self.status, JobStatus::Queued);
        let processing = matches!(self.status, JobStatus::Processing);
        let completed = matches!(self.status, JobStatus::Completed);
        let failed = matches!(self.status, JobStatus::Failed);
        let counters = 0 <= self.retry_count && 0 <= self.max_retries && self.max_retries < i32::MAX
            && (failed || self.retry_count <= self.max_retries)
            && (!failed || self.retry_count as i64 == self.max_retries as i64 + 1);
        let times = match (self.started_at, self.completed_at) {
            (Some(s), Some(c)) => completed && c >= s && !queued,
            (None, Some(_)) => false,
            (Some(_), None) => !completed && !queued,
            (None, None) => !completed && !processing,
        };
        counters && times && (failed == self.failed_reason.is_some())
    }

    /// A field-by-field copy.
    pub fn duplicate(&self) -> (r: Job)
        ensures
            r == *self,
    {
        let failed_reason = match &self.failed_reason {
            Some(s) => Some(s.clone()),
            None => None,
        };
        Job {
            id: self.id,
            name: self.name.clone(),
            status: self.status,
            retry_count: self.retry_count,
            max_retries: self.max_retries,
            created_at: self.created_at,
            started_at: self.started_at,
            completed_at: self.completed_at,
            failed_reason,
        }
    }
}

} // verus!
