//! A background job queue: jobs are submitted by name, claimed one at a time
//! by workers, executed, and then completed, re-queued for another attempt,
//! or failed for good once their retries are spent.

pub mod api;
pub mod clock;
pub mod models;
pub mod retry;
pub mod store;
pub mod laws;
pub mod worker;
pub mod shutdown;
