use vstd::prelude::*;
use crate::models::{Job, JobRequest};
use crate::store::{fresh_job, lookup, MemoryStore, StoreError};

verus! {

/// The answer to a client's request.
pub enum Reply {
    /// The job record.
    Found(Job),
    /// No job has the id asked for.
    NotFound,
    /// The store failed; nothing was created.
    ServerError,
}

impl Reply {
    /// The HTTP status that carries the reply.
    pub fn status_code(&self) -> (c: u16)
        ensures
            self is Found ==> c == 200,
            self is NotFound ==> c == 404,
            self is ServerError ==> c == 500,
    {
        match self {
            Reply::Found(_) => 200,
            Reply::NotFound => 404,
            Reply::ServerError => 500,
        }
    }
}

/// The reply to a submission: the new job, or a server error when the store
/// could not create it.
pub fn submit_reply(r: Result<Job, StoreError>) -> (reply: Reply)
    ensures
        r is Ok ==> reply == Reply::Found(r->Ok_0),
        r is Err ==> reply is ServerError,
{
    match r {
        Ok(job) => Reply::Found(job),
        Err(_) => Reply::ServerError,
    }
}

/// The reply to a lookup: the job, not found for an unknown id, or a server
/// error when the store failed.
pub fn lookup_reply(r: Result<Option<Job>, StoreError>) -> (reply: Reply)
    ensures
        r is Ok && r->Ok_0 is Some ==> reply == Reply::Found(r->Ok_0->Some_0),
        r is Ok && r->Ok_0 is None ==> reply is NotFound,
        r is Err ==> reply is ServerError,
{
    match r {
        Ok(Some(job)) => Reply::Found(job),
        Ok(None) => Reply::NotFound,
        Err(_) => Reply::ServerError,
    }
}

/// Creates a queued job from a request, at time `now`.
pub fn submit_job(store: &mut MemoryStore, req: JobRequest, now: i64) -> (reply: Reply)
    requires
        old(store).wf(),
    ensures
        final(store).wf(),
        reply is ServerError <==> final(store)@ == old(store)@,
        reply is ServerError <==> old(store)@.len() >= crate::store::MAX_JOBS,
        !(reply is NotFound),
        reply is Found ==> fresh_job(old(store)@.len() as int + 1, req.name@, now, reply->Found_0)
            && final(store)@ == old(store)@.push(reply->Found_0),
{
    submit_reply(store.submit(req.name, now))
}

/// Looks a job up by id.
pub fn get_job(store: &MemoryStore, id: i64) -> (reply: Reply)
    requires
        store.wf(),
    ensures
        lookup(store@, id as int) is Some ==> reply == Reply::Found(lookup(store@, id as int)->Some_0),
        lookup(store@, id as int) is None ==> reply is NotFound,
{
    lookup_reply(Ok(store.get_by_id(id)))
}

} // verus!
