//! A model of one whole measurement run: the globally ordered events of a
//! pool of workers sharing the byte counter and the two barriers. The
//! barrier semantics appear once, in the validity predicate; the ordering
//! guarantees of the run are proved from it.

use vstd::prelude::*;
use crate::cycle::spec_counter_after;

verus! {

/// One event of a measurement run, in global time order.
pub enum RunEvent {
    /// Worker `w` arrived at the start barrier (connected or already
    /// failed).
    ArriveStart { w: nat },
    /// The start barrier released all parties.
    StartReleased,
    /// Worker `w` credited `delta` bytes to the shared counter.
    Credit { w: nat, delta: nat },
    /// Worker `w` arrived at the end barrier, never to touch the counter
    /// again.
    ArriveEnd { w: nat },
    /// The orchestrator read the final counter, after the end barrier
    /// released it.
    FinalRead,
}

pub open spec fn is_credit(e: RunEvent) -> bool {
    e is Credit
}

pub open spec fn credit_worker(e: RunEvent) -> nat {
    match e {
        RunEvent::Credit { w, .. } => w,
        _ => 0,
    }
}

/// Bytes an event moves the shared counter by.
pub open spec fn spec_event_delta(e: RunEvent) -> nat {
    match e {
        RunEvent::Credit { delta, .. } => delta,
        _ => 0,
    }
}

/// Worker `w` has an arrival at the start barrier strictly before `i`.
pub open spec fn arrives_start_before(t: Seq<RunEvent>, i: int, w: nat) -> bool {
    exists|k: int| 0 <= k < i && t[k] == (RunEvent::ArriveStart { w })
}

/// Worker `w` has an arrival at the end barrier strictly before `i`.
pub open spec fn arrives_end_before(t: Seq<RunEvent>, i: int, w: nat) -> bool {
    exists|k: int| 0 <= k < i && t[k] == (RunEvent::ArriveEnd { w })
}

/// The start barrier released at some point strictly before `i`.
pub open spec fn released_before(t: Seq<RunEvent>, i: int) -> bool {
    exists|k: int| 0 <= k < i && t[k] is StartReleased
}

/// What makes an event sequence a possible run of `n` workers. Each
/// clause mirrors either a barrier's rendezvous contract or the shape of
/// a worker's own code: credits come from workers of the pool, only in
/// the window between the start barrier's release and the worker's own
/// arrival at the end barrier, the start barrier releases only once every
/// worker has arrived, and the orchestrator reads only once every worker
/// has arrived at the end barrier.
pub open spec fn valid_run(t: Seq<RunEvent>, n: nat) -> bool {
    &&& forall|i: int|
        0 <= i < t.len() && #[trigger] t[i] is StartReleased ==> forall|w: nat|
            w < n ==> arrives_start_before(t, i, w)
    &&& forall|i: int| 0 <= i < t.len() && is_credit(#[trigger] t[i]) ==> released_before(t, i)
    &&& forall|i: int| 0 <= i < t.len() && is_credit(#[trigger] t[i]) ==> credit_worker(t[i]) < n
    &&& forall|i: int, j: int|
        0 <= i < t.len() && 0 <= j < t.len() && is_credit(#[trigger] t[j]) && #[trigger] t[i]
            == (RunEvent::ArriveEnd { w: credit_worker(t[j]) }) ==> j < i
    &&& forall|i: int|
        0 <= i < t.len() && #[trigger] t[i] is FinalRead ==> forall|w: nat|
            w < n ==> arrives_end_before(t, i, w)
}

/// The shared counter's value just before event `i`, starting from
/// `init`.
pub open spec fn spec_counter_at(init: nat, t: Seq<RunEvent>, i: int) -> nat {
    spec_counter_after(init, t.take(i).map_values(|e: RunEvent| spec_event_delta(e)))
}

/// The counter's value once the whole run is over.
pub open spec fn spec_run_total(init: nat, t: Seq<RunEvent>) -> nat {
    spec_counter_at(init, t, t.len() as int)
}

/// Each event moves the counter by exactly its delta.
pub proof fn lemma_counter_at_step(init: nat, t: Seq<RunEvent>, i: int)
    requires
        0 <= i < t.len(),
    ensures
        spec_counter_at(init, t, i + 1) == spec_counter_at(init, t, i) + spec_event_delta(t[i]),
{
    let f = |e: RunEvent| spec_event_delta(e);
    assert(t.take(i + 1) =~= t.take(i).push(t[i]));
    assert(t.take(i + 1).map_values(f) =~= t.take(i).map_values(f).push(f(t[i])));
    crate::cycle::lemma_counter_after_push(init, t.take(i).map_values(f), f(t[i]));
}

/// If nothing from `i` on credits anything, the counter is already at its
/// final value at `i`.
pub proof fn lemma_counter_settled(init: nat, t: Seq<RunEvent>, i: int)
    requires
        0 <= i <= t.len(),
        forall|j: int| i <= j < t.len() ==> !is_credit(#[trigger] t[j]),
    ensures
        spec_run_total(init, t) == spec_counter_at(init, t, i),
    decreases t.len() - i,
{
    if i < t.len() {
        lemma_counter_at_step(init, t, i);
        lemma_counter_settled(init, t, i + 1);
    } else {
        assert(t.take(i) =~= t);
    }
}

/// Start-barrier law: a credited operation happens only after every
/// worker of the pool — connected or already failed — has arrived at the
/// start barrier, so the measurement epoch has a common start.
pub proof fn lemma_no_credit_before_full_arrival(t: Seq<RunEvent>, n: nat, i: int)
    requires
        valid_run(t, n),
        0 <= i < t.len(),
        is_credit(t[i]),
    ensures
        forall|w: nat| w < n ==> arrives_start_before(t, i, w),
{
    assert(released_before(t, i));
    let r = choose|r: int| 0 <= r < i && t[r] is StartReleased;
    assert forall|w: nat| w < n implies arrives_start_before(t, i, w) by {
        assert(arrives_start_before(t, r, w));
        let k = choose|k: int| 0 <= k < r && t[k] == (RunEvent::ArriveStart { w });
        assert(0 <= k < i && t[k] == (RunEvent::ArriveStart { w }));
    }
}

/// End-barrier law: the orchestrator's read observes every credit of the
/// run — no worker mutates the counter at or after the read, so the read
/// equals the run's final total.
pub proof fn lemma_final_read_sees_all(init: nat, t: Seq<RunEvent>, n: nat, i: int)
    requires
        valid_run(t, n),
        0 <= i < t.len(),
        t[i] is FinalRead,
    ensures
        spec_counter_at(init, t, i) == spec_run_total(init, t),
{
    assert forall|j: int| i <= j < t.len() implies !is_credit(#[trigger] t[j]) by {
        if is_credit(t[j]) {
            let w = credit_worker(t[j]);
            assert(w < n);
            assert(arrives_end_before(t, i, w));
            let k = choose|k: int| 0 <= k < i && t[k] == (RunEvent::ArriveEnd { w });
            assert(j < k);
        }
    }
    lemma_counter_settled(init, t, i);
}

/// Worker `w` never credits anything in this run.
pub open spec fn worker_credits_nothing(t: Seq<RunEvent>, w: nat) -> bool {
    forall|j: int|
        0 <= j < t.len() ==> !(is_credit(#[trigger] t[j]) && credit_worker(t[j]) == w)
}

/// All-failed law: in a run where no worker of the pool ever credits a
/// byte — as when every worker fails connection establishment — the
/// counter ends at its initial value, and any final read observes exactly
/// that.
pub proof fn lemma_all_failed_run(init: nat, t: Seq<RunEvent>, n: nat)
    requires
        valid_run(t, n),
        forall|w: nat| w < n ==> worker_credits_nothing(t, w),
    ensures
        spec_run_total(init, t) == init,
{
    assert forall|j: int| 0 <= j < t.len() implies !is_credit(#[trigger] t[j]) by {
        if is_credit(t[j]) {
            let w = credit_worker(t[j]);
            assert(w < n);
            assert(worker_credits_nothing(t, w));
        }
    }
    lemma_counter_settled(init, t, 0);
    assert(t.take(0).map_values(|e: RunEvent| spec_event_delta(e)) =~= Seq::<nat>::empty());
}

} // verus!
