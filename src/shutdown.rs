use vstd::prelude::*;

verus! {

/// Milliseconds the pool waits for its workers to leave after shutdown.
pub const DRAIN_TIMEOUT_MS: u64 = 30_000;

/// A one-shot shutdown trigger: once set it stays set, and setting it again
/// does nothing.
pub struct ShutdownSignal {
    triggered: bool,
}

impl ShutdownSignal {
    pub closed spec fn is_set(&self) -> bool {
        self.triggered
    }

    pub fn new() -> (r: ShutdownSignal)
        ensures
            !r.is_set(),
    {
        ShutdownSignal { triggered: false }
    }

    /// Sets the signal; true only for the call that set it.
    pub fn trigger(&mut self) -> (first: bool)
        ensures
            final(self).is_set(),
            first == !old(self).is_set(),
    {
        let first = !self.triggered;
        self.triggered = true;
        first
    }

    pub fn is_triggered(&self) -> (r: bool)
        ensures
            r == self.is_set(),
    {
        self.triggered
    }
}

/// Where a drain stands.
pub enum DrainStatus {
    /// Some workers are still running and there is time left.
    Waiting,
    /// Every worker has left: a clean shutdown.
    Clean,
    /// Time ran out; these workers, by index, had not left.
    Forced(Vec<usize>),
}

/// The indices of the workers that have not left, in order.
pub open spec fn stragglers(exited: Seq<bool>) -> Seq<usize>
    decreases exited.len(),
{
    if exited.len() == 0 {
        Seq::empty()
    } else {
        let rest = stragglers(exited.drop_last());
        if exited.last() { rest } else { rest.push((exited.len() - 1) as usize) }
    }
}

pub open spec fn all_exited(exited: Seq<bool>) -> bool {
    forall|i: int| 0 <= i < exited.len() ==> exited[i]
}

/// Judges a drain that has run `elapsed_ms` of its `timeout_ms`, given which
/// workers have reported that they left.
pub fn drain_status(exited: &Vec<bool>, elapsed_ms: u64, timeout_ms: u64) -> (r: DrainStatus)
    ensures
        all_exited(exited@) <==> r is Clean,
        !all_exited(exited@) && elapsed_ms < timeout_ms <==> r is Waiting,
        r is Forced ==> r->Forced_0@ == stragglers(exited@),
{
    let mut pending: Vec<usize> = Vec::new();
    let mut i: usize = 0;
    while i < exited.len()
        invariant
            0 <= i <= exited@.len(),
            pending@ == stragglers(exited@.take(i as int)),
            pending@.len() == 0 <==> all_exited(exited@.take(i as int)),
        decreases exited@.len() - i,
    {
        let ghost before = exited@.take(i as int);
        proof {
            assert(exited@.take(i + 1).drop_last() =~= before);
        }
        if !exited[i] {
            pending.push(i);
            proof {
                assert(!exited@.take(i + 1)[i as int]);
            }
        } else {
            proof {
                let now_seen = exited@.take(i + 1);
                if all_exited(before) {
                    assert forall|k: int| 0 <= k < i + 1 implies #[trigger] now_seen[k] by {
                        if k < i {
                            assert(now_seen[k] == before[k]);
                        }
                    }
                }
                if all_exited(now_seen) {
                    assert forall|k: int| 0 <= k < i implies #[trigger] before[k] by {
                        assert(now_seen[k] == before[k]);
                    }
                }
            }
        }
        i = i + 1;
    }
    proof {
        assert(exited@.take(exited@.len() as int) =~= exited@);
    }
    if pending.len() == 0 {
        DrainStatus::Clean
    } else if elapsed_ms < timeout_ms {
        DrainStatus::Waiting
    } else {
        DrainStatus::Forced(pending)
    }
}

} // verus!
