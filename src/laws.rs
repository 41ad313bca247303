//! Properties of sequences of registrations, stated over transport models.

use vstd::prelude::*;

use crate::listener::UListener;
use crate::status::UStatus;
use crate::transport::{delivered, model_wf, registration, TransportModel};

verus! {

/// `states[i + 1]` follows from `states[i]` by registering `listeners[i]`,
/// which returned `results[i]`.
pub open spec fn registration_run<L>(
    states: Seq<TransportModel<L>>,
    listeners: Seq<L>,
    results: Seq<Result<u32, UStatus>>,
) -> bool {
    &&& states.len() == listeners.len() + 1
    &&& results.len() == listeners.len()
    &&& forall|i: int|
        0 <= i < listeners.len() ==> #[trigger] registration(
            states[i],
            listeners[i],
            results[i],
            states[i + 1],
        )
}

/// The model of a transport that has just been created.
pub open spec fn fresh<L>(m: TransportModel<L>) -> bool {
    m.issued == 0 && m.bindings == Map::<u32, L>::empty()
}

proof fn lemma_step_preserves_wf<L>(
    pre: TransportModel<L>,
    listener: L,
    r: Result<u32, UStatus>,
    post: TransportModel<L>,
)
    requires
        model_wf(pre),
        registration(pre, listener, r, post),
    ensures
        model_wf(post),
        pre.issued <= post.issued,
        r is Ok ==> r->Ok_0 as nat == pre.issued + 1 && post.bindings.contains_key(r->Ok_0)
            && post.bindings[r->Ok_0] == listener,
        forall|k: u32|
            pre.bindings.contains_key(k) ==> #[trigger] post.bindings.contains_key(k)
                && post.bindings[k] == pre.bindings[k],
{
}

/// What holds of the first `j` steps of a run from a valid model.
proof fn lemma_run_prefix<L>(
    states: Seq<TransportModel<L>>,
    listeners: Seq<L>,
    results: Seq<Result<u32, UStatus>>,
    j: int,
)
    requires
        registration_run(states, listeners, results),
        model_wf(states[0]),
        0 <= j <= listeners.len(),
    ensures
        model_wf(states[j]),
        states[j].capacity == states[0].capacity,
        states[j].trampolines == states[0].trampolines,
        forall|i: int| 0 <= i <= j ==> #[trigger] states[i].issued <= states[j].issued,
        forall|i: int|
            0 <= i < j && #[trigger] results[i] is Ok ==> {
                &&& results[i]->Ok_0 as nat == states[i].issued + 1
                &&& states[i + 1].issued == states[i].issued + 1
                &&& states[j].bindings.contains_key(results[i]->Ok_0)
                &&& states[j].bindings[results[i]->Ok_0] == listeners[i]
            },
    decreases j,
{
    if j > 0 {
        lemma_run_prefix(states, listeners, results, j - 1);
        let k = j - 1;
        assert(registration(states[k], listeners[k], results[k], states[k + 1]));
        lemma_step_preserves_wf(states[j - 1], listeners[j - 1], results[j - 1], states[j]);
        assert forall|i: int| 0 <= i < j && #[trigger] results[i] is Ok implies {
            &&& results[i]->Ok_0 as nat == states[i].issued + 1
            &&& states[i + 1].issued == states[i].issued + 1
            &&& states[j].bindings.contains_key(results[i]->Ok_0)
            &&& states[j].bindings[results[i]->Ok_0] == listeners[i]
        } by {
            if i < j - 1 {
                assert(states[j - 1].bindings.contains_key(results[i]->Ok_0));
            }
        }
    }
}

/// Every listener that a run bound to a slot still receives, at the end of
/// the run, each payload fired at that slot's entry point, unchanged: the
/// entry point delivers exactly that listener's report for the payload.
pub proof fn lemma_bound_listener_receives<L: UListener>(
    states: Seq<TransportModel<L>>,
    listeners: Seq<L>,
    results: Seq<Result<u32, UStatus>>,
    i: int,
    payload: u32,
)
    requires
        registration_run(states, listeners, results),
        model_wf(states[0]),
        0 <= i < listeners.len(),
        results[i] is Ok,
    ensures
        delivered(states[listeners.len() as int].bindings, results[i]->Ok_0, payload) == Some(
            listeners[i].reported(payload),
        ),
{
    lemma_run_prefix(states, listeners, results, listeners.len() as int);
}

/// Two registrations of one run never return the same slot.
pub proof fn lemma_slots_distinct<L>(
    states: Seq<TransportModel<L>>,
    listeners: Seq<L>,
    results: Seq<Result<u32, UStatus>>,
    i: int,
    j: int,
)
    requires
        registration_run(states, listeners, results),
        model_wf(states[0]),
        0 <= i < listeners.len(),
        0 <= j < listeners.len(),
        i != j,
        results[i] is Ok,
        results[j] is Ok,
    ensures
        results[i]->Ok_0 != results[j]->Ok_0,
{
    let n = listeners.len() as int;
    lemma_run_prefix(states, listeners, results, n);
    if i < j {
        lemma_run_prefix(states, listeners, results, j);
        assert(states[i + 1].issued <= states[j].issued);
    } else {
        lemma_run_prefix(states, listeners, results, i);
        assert(states[j + 1].issued <= states[i].issued);
    }
}

/// The outcome of each step of a run from a fresh model whose entry points
/// cover every slot the capacity allows.
proof fn lemma_fresh_run_prefix<L>(
    states: Seq<TransportModel<L>>,
    listeners: Seq<L>,
    results: Seq<Result<u32, UStatus>>,
    j: int,
)
    requires
        registration_run(states, listeners, results),
        model_wf(states[0]),
        fresh(states[0]),
        states[0].capacity < states[0].trampolines,
        0 <= j <= listeners.len(),
    ensures
        states[j].issued == if j <= states[0].capacity {
            j as nat
        } else {
            states[0].capacity
        },
        forall|i: int|
            0 <= i < j ==> if i < states[0].capacity {
                #[trigger] results[i] == Ok::<u32, UStatus>((i + 1) as u32)
            } else {
                &&& results[i] == Err::<u32, UStatus>(UStatus::CapacityExceeded)
                &&& states[i + 1].bindings == states[i].bindings
            },
    decreases j,
{
    if j > 0 {
        lemma_fresh_run_prefix(states, listeners, results, j - 1);
        lemma_run_prefix(states, listeners, results, j - 1);
        let k = j - 1;
        assert(registration(states[k], listeners[k], results[k], states[k + 1]));
    }
}

/// From a fresh transport whose entry points cover its capacity, each of the
/// first `capacity` registrations succeeds, the `i`-th (from zero) with slot
/// `i + 1`, and that slot stays bound to its listener.
pub proof fn lemma_registrations_within_capacity<L>(
    states: Seq<TransportModel<L>>,
    listeners: Seq<L>,
    results: Seq<Result<u32, UStatus>>,
    i: int,
)
    requires
        registration_run(states, listeners, results),
        model_wf(states[0]),
        fresh(states[0]),
        states[0].capacity < states[0].trampolines,
        listeners.len() <= states[0].capacity,
        0 <= i < listeners.len(),
    ensures
        results[i] == Ok::<u32, UStatus>((i + 1) as u32),
        states[listeners.len() as int].bindings.contains_key((i + 1) as u32),
        states[listeners.len() as int].bindings[(i + 1) as u32] == listeners[i],
{
    let n = listeners.len() as int;
    lemma_fresh_run_prefix(states, listeners, results, n);
    lemma_run_prefix(states, listeners, results, n);
    assert(results[i] is Ok);
}

/// From a fresh transport whose entry points cover its capacity, the
/// registration that follows `capacity` successful ones fails with
/// `CapacityExceeded` and leaves every binding as it was, so the first
/// `capacity` listeners stay bound to their slots.
pub proof fn lemma_capacity_exceeded<L>(
    states: Seq<TransportModel<L>>,
    listeners: Seq<L>,
    results: Seq<Result<u32, UStatus>>,
    i: int,
)
    requires
        registration_run(states, listeners, results),
        model_wf(states[0]),
        fresh(states[0]),
        states[0].capacity < states[0].trampolines,
        listeners.len() == states[0].capacity + 1,
        0 <= i < states[0].capacity,
    ensures
        results[states[0].capacity as int] == Err::<u32, UStatus>(UStatus::CapacityExceeded),
        states[listeners.len() as int].bindings == states[states[0].capacity as int].bindings,
        results[i] == Ok::<u32, UStatus>((i + 1) as u32),
        states[listeners.len() as int].bindings.contains_key((i + 1) as u32),
        states[listeners.len() as int].bindings[(i + 1) as u32] == listeners[i],
{
    let n = listeners.len() as int;
    let c = states[0].capacity as int;
    lemma_fresh_run_prefix(states, listeners, results, n);
    lemma_run_prefix(states, listeners, results, n);
    assert(results[c] == Err::<u32, UStatus>(UStatus::CapacityExceeded));
    assert(results[i] is Ok);
}

/// Firing the entry point of a slot that was never issued (slot `0`, or one
/// past the identifiers issued so far) is a no-op: nothing is delivered.
pub proof fn lemma_unissued_slot_is_noop<L: UListener>(
    m: TransportModel<L>,
    slot: u32,
    payload: u32,
)
    requires
        model_wf(m),
        slot == 0 || slot > m.issued,
    ensures
        delivered(m.bindings, slot, payload) == None::<int>,
{
}

} // verus!
