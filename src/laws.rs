use vstd::prelude::*;
use crate::models::{Job, JobStatus};
use crate::store::{claim_step, claimed, first_queued, fresh_job, lookup, terminal_kept, MemoryStore};

verus! {

/// How many jobs are queued.
pub open spec fn count_queued(s: Seq<Job>) -> nat
    decreases s.len(),
{
    if s.len() == 0 {
        0
    } else {
        count_queued(s.drop_last()) + if s.last().status == JobStatus::Queued { 1nat } else { 0nat }
    }
}

/// The ids that `w` claims in a row hand out, starting from `s`; a claim that
/// finds nothing queued hands out nothing.
pub open spec fn claims(s: Seq<Job>, w: nat, now: i64) -> Seq<int>
    decreases w,
{
    if w == 0 {
        Seq::empty()
    } else {
        let (t, r) = claim_step(s, now);
        match r {
            Some(id) => seq![id] + claims(t, (w - 1) as nat, now),
            None => claims(t, (w - 1) as nat, now),
        }
    }
}

/// Each job's id is one more than its index.
pub open spec fn ids_in_order(s: Seq<Job>) -> bool {
    forall|k: int| 0 <= k < s.len() ==> (#[trigger] s[k]).id == k + 1
}

/// A job that is not failed has not spent more than its retries: this holds
/// of every job in every store that the store's operations produce.
pub proof fn lemma_retry_bound(store: &MemoryStore)
    requires
        store.wf(),
    ensures
        forall|i: int| 0 <= i < store@.len() && (#[trigger] store@[i]).status != JobStatus::Failed
            ==> store@[i].retry_count <= store@[i].max_retries,
{
    store.lemma_wf();
    assert forall|i: int| 0 <= i < store@.len() && (#[trigger] store@[i]).status != JobStatus::Failed
        implies store@[i].retry_count <= store@[i].max_retries by {
        assert(store@[i].wf());
    }
}

/// A job read back right after it was submitted is queued, with no retries
/// and no start time: what `submit` adds is what `get_by_id` finds.
pub proof fn lemma_submit_then_lookup(before: Seq<Job>, after: Seq<Job>, job: Job, name: Seq<char>, now: i64)
    requires
        fresh_job(before.len() as int + 1, name, now, job),
        after == before.push(job),
    ensures
        lookup(after, job.id as int) == Some(job),
        job.status == JobStatus::Queued,
        job.retry_count == 0,
        job.started_at is None,
{
}

/// A completed or failed job stays exactly as it is over any run of store
/// operations, each of which keeps terminal jobs.
pub proof fn lemma_terminal_kept_chain(a: Seq<Job>, b: Seq<Job>, c: Seq<Job>)
    requires
        terminal_kept(a, b),
        terminal_kept(b, c),
    ensures
        terminal_kept(a, c),
{
    assert forall|i: int| 0 <= i < a.len() && (#[trigger] a[i]).status.is_terminal_spec()
        implies c[i] == a[i] by {
        assert(b[i] == a[i]);
    }
}

proof fn lemma_first_queued(s: Seq<Job>)
    ensures
        first_queued(s) is None <==> count_queued(s) == 0,
        first_queued(s) is Some ==> {
            let i = first_queued(s)->Some_0;
            0 <= i < s.len() && s[i].status == JobStatus::Queued
        },
    decreases s.len(),
{
    if exists|i: int| 0 <= i < s.len() && s[i].status == JobStatus::Queued {
        let i = choose|i: int| 0 <= i < s.len() && s[i].status == JobStatus::Queued;
        let m = lemma_least_queued(s, i);
        lemma_count_positive(s, i);
    } else {
        lemma_count_zero(s);
    }
}

proof fn lemma_least_queued(s: Seq<Job>, i: int) -> (m: int)
    requires
        0 <= i < s.len(),
        s[i].status == JobStatus::Queued,
    ensures
        0 <= m <= i,
        s[m].status == JobStatus::Queued,
        forall|k: int| 0 <= k < m ==> s[k].status != JobStatus::Queued,
    decreases i,
{
    if exists|k: int| 0 <= k < i && s[k].status == JobStatus::Queued {
        let k = choose|k: int| 0 <= k < i && s[k].status == JobStatus::Queued;
        lemma_least_queued(s, k)
    } else {
        i
    }
}

proof fn lemma_count_positive(s: Seq<Job>, i: int)
    requires
        0 <= i < s.len(),
        s[i].status == JobStatus::Queued,
    ensures
        count_queued(s) > 0,
    decreases s.len(),
{
    if i < s.len() - 1 {
        assert(s.drop_last()[i] == s[i]);
        lemma_count_positive(s.drop_last(), i);
    }
}

proof fn lemma_count_zero(s: Seq<Job>)
    requires
        forall|i: int| 0 <= i < s.len() ==> s[i].status != JobStatus::Queued,
    ensures
        count_queued(s) == 0,
    decreases s.len(),
{
    if s.len() > 0 {
        assert forall|i: int| 0 <= i < s.drop_last().len() implies
            s.drop_last()[i].status != JobStatus::Queued by {
            assert(s.drop_last()[i] == s[i]);
        }
        lemma_count_zero(s.drop_last());
    }
}

proof fn lemma_count_claim(s: Seq<Job>, i: int, x: Job)
    requires
        0 <= i < s.len(),
        s[i].status == JobStatus::Queued,
        x.status != JobStatus::Queued,
    ensures
        count_queued(s.update(i, x)) + 1 == count_queued(s),
    decreases s.len(),
{
    let t = s.update(i, x);
    if i == s.len() - 1 {
        assert(t.drop_last() =~= s.drop_last());
    } else {
        assert(t.drop_last() =~= s.drop_last().update(i, x));
        lemma_count_claim(s.drop_last(), i, x);
    }
}

proof fn lemma_cons_distinct(id: int, rest: Seq<int>)
    requires
        rest.no_duplicates(),
        forall|j: int| 0 <= j < rest.len() ==> rest[j] != id,
    ensures
        (seq![id] + rest).no_duplicates(),
{
    let c = seq![id] + rest;
    assert forall|a: int, b: int| 0 <= a < b < c.len() implies c[a] != c[b] by {
        assert(c[b] == rest[b - 1]);
        if a > 0 {
            assert(c[a] == rest[a - 1]);
        }
    }
}

proof fn lemma_claim_one(s: Seq<Job>, i: int, now: i64)
    requires
        ids_in_order(s),
        first_queued(s) == Some(i),
        0 <= i < s.len(),
        s[i].status == JobStatus::Queued,
    ensures
        ids_in_order(claim_step(s, now).0),
        claim_step(s, now).1 == Some(i + 1),
        claim_step(s, now).0[i].status == JobStatus::Processing,
        claim_step(s, now).0.len() == s.len(),
        forall|k: int| 0 <= k < s.len() && k != i ==> claim_step(s, now).0[k] == s[k],
        count_queued(claim_step(s, now).0) + 1 == count_queued(s),
{
    let t = claim_step(s, now).0;
    lemma_count_claim(s, i, claimed(s[i], now));
    assert(s[i].id == i + 1);
    assert forall|k: int| 0 <= k < t.len() implies (#[trigger] t[k]).id == k + 1 by {
        assert(s[k].id == k + 1);
    }
}

#[verifier::rlimit(60)]
proof fn lemma_claims(s: Seq<Job>, w: nat, now: i64)
    requires
        ids_in_order(s),
    ensures
        claims(s, w, now).len() == if w <= count_queued(s) { w } else { count_queued(s) },
        claims(s, w, now).no_duplicates(),
        forall|j: int| 0 <= j < claims(s, w, now).len() ==> {
            let id = #[trigger] claims(s, w, now)[j];
            lookup(s, id) is Some && lookup(s, id)->Some_0.status == JobStatus::Queued
        },
    decreases w,
{
    if w > 0 {
        lemma_first_queued(s);
        let t = claim_step(s, now).0;
        if let Some(i) = first_queued(s) {
            lemma_claim_one(s, i, now);
            lemma_claims(t, (w - 1) as nat, now);
            let rest = claims(t, (w - 1) as nat, now);
            let id = i + 1;
            assert(claims(s, w, now) == seq![id] + rest);
            assert forall|j: int| 0 <= j < rest.len() implies rest[j] != id && {
                let x = #[trigger] rest[j];
                lookup(s, x) is Some && lookup(s, x)->Some_0.status == JobStatus::Queued
            } by {
                let x = rest[j];
                assert(lookup(t, x)->Some_0.status == JobStatus::Queued);
                assert(t[x - 1] == s[x - 1]);
            }
            lemma_cons_distinct(id, rest);
            let c = claims(s, w, now);
            assert forall|j: int| 0 <= j < c.len() implies {
                let x = #[trigger] c[j];
                lookup(s, x) is Some && lookup(s, x)->Some_0.status == JobStatus::Queued
            } by {
                if j > 0 {
                    assert(c[j] == rest[j - 1]);
                }
            }
        } else {
            lemma_claims(t, (w - 1) as nat, now);
        }
    }
}

/// However many workers race for queued jobs, each claim hands out a job of
/// its own: `w` claims against a store with `q` queued jobs hand out
/// `min(w, q)` ids, no id twice, each of a job that was queued.
pub proof fn lemma_claims_distinct(store: &MemoryStore, w: nat, now: i64)
    requires
        store.wf(),
    ensures
        claims(store@, w, now).len() == if w <= count_queued(store@) { w } else { count_queued(store@) },
        claims(store@, w, now).no_duplicates(),
        forall|j: int| 0 <= j < claims(store@, w, now).len() ==> {
            let id = #[trigger] claims(store@, w, now)[j];
            lookup(store@, id) is Some && lookup(store@, id)->Some_0.status == JobStatus::Queued
        },
{
    store.lemma_wf();
    lemma_claims(store@, w, now);
}

} // verus!
