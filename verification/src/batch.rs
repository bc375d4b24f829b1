//! Batch bookkeeping: collecting the accepted records of a batch, the shared
//! attempt/found counters, the discovery limit, and the reporting interval.
//!
//! The counters are modelled here as plain fields mutated through methods
//! whose contracts pin the increments down exactly; the surrounding process
//! holds them in atomics and mirrors these steps.

use crate::address::TronAddress;
use vstd::prelude::*;

verus! {

/// The values held by the `Some` entries of a batch's results, in order.
pub open spec fn somes_of(results: Seq<Option<TronAddress>>) -> Seq<TronAddress>
    decreases results.len(),
{
    if results.len() == 0 {
        Seq::empty()
    } else if results.first() is Some {
        seq![results.first().unwrap()] + somes_of(results.drop_first())
    } else {
        somes_of(results.drop_first())
    }
}

/// Keeps the accepted records of one batch, in the order the batch produced
/// them, dropping the attempts that yielded nothing.
pub fn collect_found(results: Vec<Option<TronAddress>>) -> (found: Vec<TronAddress>)
    ensures
        found@ == somes_of(results@),
{
    let ghost all = results@;
    let mut rest = results;
    let mut found: Vec<TronAddress> = Vec::new();
    while rest.len() > 0
        invariant
            somes_of(all) == found@ + somes_of(rest@),
        decreases rest@.len(),
    {
        let ghost before = rest@;
        let next = rest.remove(0);
        proof {
            assert(before.remove(0) =~= before.drop_first());
        }
        match next {
            Some(rec) => {
                proof {
                    assert(somes_of(before) == seq![rec] + somes_of(rest@));
                }
                found.push(rec);
            },
            None => {
                proof {
                    assert(somes_of(before) == somes_of(rest@));
                }
            },
        }
    }
    proof {
        assert(somes_of(all) =~= found@);
    }
    found
}

/// A batch cannot accept more records than it made attempts.
pub proof fn lemma_somes_len_le(results: Seq<Option<TronAddress>>)
    ensures
        somes_of(results).len() <= results.len(),
    decreases results.len(),
{
    if results.len() > 0 {
        lemma_somes_len_le(results.drop_first());
    }
}

/// How often (in attempts) a progress snapshot is due.
pub const REPORT_INTERVAL: u64 = 500000;

/// A progress snapshot is due exactly at positive multiples of the
/// reporting interval.
pub fn should_report(attempts: u64) -> (r: bool)
    ensures
        r == (attempts > 0 && attempts % REPORT_INTERVAL == 0),
{
    attempts > 0 && attempts % REPORT_INTERVAL == 0
}

/// The stop condition the sink raises: a positive limit that the found
/// count has reached.  A limit of zero never stops.
pub fn limit_reached(limit: u64, found: u64) -> (r: bool)
    ensures
        r == (limit > 0 && found >= limit),
{
    limit > 0 && found >= limit
}

/// The process-lifetime shared state: the configured limit and the two
/// monotonically increasing counters.
pub struct MinerState {
    /// Discovery limit; zero means unlimited.
    pub limit: u64,
    /// Attempts made so far.
    pub attempts: u64,
    /// Records durably written so far.
    pub found: u64,
}

impl MinerState {
    /// The sink has asked the scheduler to stop.
    pub open spec fn stop_now(self) -> bool {
        self.limit > 0 && self.found >= self.limit
    }

    pub fn new(limit: u64) -> (s: MinerState)
        ensures
            s.limit == limit,
            s.attempts == 0,
            s.found == 0,
    {
        MinerState { limit, attempts: 0, found: 0 }
    }

    /// One generation attempt was made: the attempt counter advances by
    /// exactly one and never moves otherwise.
    pub fn note_attempt(&mut self)
        requires
            old(self).attempts < u64::MAX,
        ensures
            final(self).attempts == old(self).attempts + 1,
            final(self).found == old(self).found,
            final(self).limit == old(self).limit,
    {
        self.attempts = self.attempts + 1;
    }

    /// A batch's accepted records were all durably written: the found
    /// counter advances by exactly their number, never decreasing, and the
    /// result says whether the limit is now reached.
    pub fn note_written(&mut self, count: u64) -> (stop: bool)
        requires
            old(self).found + count <= u64::MAX,
        ensures
            final(self).found == old(self).found + count,
            final(self).found >= old(self).found,
            final(self).attempts == old(self).attempts,
            final(self).limit == old(self).limit,
            stop == final(self).stop_now(),
    {
        self.found = self.found + count;
        self.limit > 0 && self.found >= self.limit
    }
}

/// One scheduler step after a batch's attempts have all finished: keep the
/// accepted records in order, count every one of them as written, and say
/// whether the limit is now reached.  The batch that crosses the limit is
/// still processed whole; no later batch starts once `stop` is true.
pub fn process_batch(state: &mut MinerState, results: Vec<Option<TronAddress>>) -> (r: (
    Vec<TronAddress>,
    bool,
))
    requires
        old(state).found + results@.len() <= u64::MAX,
    ensures
        r.0@ == somes_of(results@),
        final(state).found == old(state).found + r.0@.len(),
        final(state).found >= old(state).found,
        final(state).attempts == old(state).attempts,
        final(state).limit == old(state).limit,
        r.1 == final(state).stop_now(),
{
    proof {
        lemma_somes_len_le(results@);
    }
    let records = collect_found(results);
    let stop = state.note_written(records.len() as u64);
    (records, stop)
}

/// The attempt count contributed by `workers` workers of `per_worker`
/// attempts each, summed worker by worker.
pub open spec fn total_attempts(workers: nat, per_worker: nat) -> nat
    decreases workers,
{
    if workers == 0 {
        0
    } else {
        total_attempts((workers - 1) as nat, per_worker) + per_worker
    }
}

/// However the workers' increments interleave, each adds one per attempt, so
/// the final attempt counter is exactly `workers * per_worker`.
pub proof fn lemma_attempts_total(workers: nat, per_worker: nat)
    ensures
        total_attempts(workers, per_worker) == workers * per_worker,
    decreases workers,
{
    if workers > 0 {
        lemma_attempts_total((workers - 1) as nat, per_worker);
        assert((workers - 1) * per_worker + per_worker == workers * per_worker)
            by (nonlinear_arith)
            requires
                workers >= 1,
        ;
    } else {
        assert(0 * per_worker == 0) by (nonlinear_arith);
    }
}

} // verus!
