//! The cooperative executor: polls one operation until it is ready, once for
//! each response of the hardware abstraction layer, without waiting between
//! polls.

use vstd::prelude::*;
use crate::fut::{
    lemma_poll_is_transitions, runtime_after_poll, spec_taken_byte, spec_wire_byte, wire_byte, Future,
    HalResponse, Poll, SerialRx, SerialTx,
};
use crate::runtime::{Runtime, Waker};

verus! {

/// The notifier of the executor. It is inert: the executor polls again
/// without being told to.
pub open spec fn spec_my_waker() -> Waker {
    Waker { data: 0 }
}

/// The notifier of the executor.
pub fn my_waker() -> (waker: Waker)
    ensures
        waker == spec_my_waker(),
{
    Waker { data: 0 }
}

/// The operation after the first `polls` responses have been polled in.
pub open spec fn state_after<F: Future>(f: F, responses: Seq<HalResponse>, polls: nat) -> F
    decreases polls,
{
    if polls == 0 {
        f
    } else {
        state_after(f, responses, (polls - 1) as nat).spec_next(responses[polls - 1])
    }
}

/// What the poll with the response at `index` reports, after those before it.
pub open spec fn poll_at<F: Future>(f: F, responses: Seq<HalResponse>, index: int) -> Poll<F::Output> {
    state_after(f, responses, index as nat).spec_poll(responses[index])
}

/// The runtime after the first `polls` responses have been polled in with
/// the notifier `waker`.
pub open spec fn runtime_after<F: Future>(
    f: F,
    rt: Runtime,
    waker: Waker,
    responses: Seq<HalResponse>,
    polls: nat,
) -> Runtime
    decreases polls,
{
    if polls == 0 {
        rt
    } else {
        runtime_after_poll(
            runtime_after(f, rt, waker, responses, (polls - 1) as nat),
            state_after(f, responses, (polls - 1) as nat).spec_suspends(responses[polls - 1]),
            waker,
        )
    }
}

/// The bytes, in order, that have gone out on the wire once the first
/// `polls` responses have been polled in.
pub open spec fn wire_after<F: Future>(f: F, responses: Seq<HalResponse>, polls: nat) -> Seq<u8>
    decreases polls,
{
    if polls == 0 {
        Seq::empty()
    } else {
        let before = wire_after(f, responses, (polls - 1) as nat);
        let request = state_after(f, responses, (polls - 1) as nat).spec_request();
        match spec_wire_byte(request, responses[polls - 1]) {
            Some(byte) => before.push(byte),
            None => before,
        }
    }
}

/// The bytes, in order, that have come in once the first `polls` responses
/// have been polled in.
pub open spec fn taken_after<F: Future>(f: F, responses: Seq<HalResponse>, polls: nat) -> Seq<u8>
    decreases polls,
{
    if polls == 0 {
        Seq::empty()
    } else {
        let before = taken_after(f, responses, (polls - 1) as nat);
        let request = state_after(f, responses, (polls - 1) as nat).spec_request();
        match spec_taken_byte(request, responses[polls - 1]) {
            Some(byte) => before.push(byte),
            None => before,
        }
    }
}

/// How many of the first `polls` polls report `Ready`.
pub open spec fn ready_count<F: Future>(f: F, responses: Seq<HalResponse>, polls: nat) -> nat
    decreases polls,
{
    if polls == 0 {
        0
    } else if poll_at(f, responses, polls - 1) is Ready {
        ready_count(f, responses, (polls - 1) as nat) + 1
    } else {
        ready_count(f, responses, (polls - 1) as nat)
    }
}

/// Whether some poll over `responses` reports `Ready`.
pub open spec fn completes<F: Future>(f: F, responses: Seq<HalResponse>) -> bool {
    exists|index: int| 0 <= index < responses.len() && #[trigger] poll_at(f, responses, index) is Ready
}

/// What a run of the executor leaves.
pub struct Completion<T> {
    /// The value of the operation, where it completed.
    pub output: Option<T>,
    /// How many times the operation was polled.
    pub polls: usize,
    /// The bytes that went out on the wire, in order.
    pub wire: Vec<u8>,
}

/// Polls `f` with one response after the other, each poll right after the
/// one before, until a poll reports `Ready` or the responses are used up.
/// The first `Ready` ends the run with its value: no poll follows it. An
/// operation that is still pending after the last response leaves no value.
pub fn block_on<F: Future>(f: &mut F, rt: &mut Runtime, responses: &[HalResponse]) -> (done: Completion<
    F::Output,
>)
    ensures
        done.polls <= responses.len(),
        forall|index: int|
            0 <= index < done.polls - 1 ==> #[trigger] poll_at(*old(f), responses@, index) is Pending,
        match done.output {
            Some(value) => done.polls >= 1 && poll_at(*old(f), responses@, done.polls - 1)
                == Poll::Ready(value),
            None => done.polls == responses.len() && forall|index: int|
                0 <= index < responses.len() ==> #[trigger] poll_at(*old(f), responses@, index) is Pending,
        },
        done.output.is_some() == completes(*old(f), responses@),
        ready_count(*old(f), responses@, done.polls as nat) == if done.output.is_some() {
            1nat
        } else {
            0nat
        },
        *final(f) == state_after(*old(f), responses@, done.polls as nat),
        *final(rt) == runtime_after(*old(f), *old(rt), spec_my_waker(), responses@, done.polls as nat),
        done.wire@ == wire_after(*old(f), responses@, done.polls as nat),
        old(rt).wf() ==> final(rt).wf(),
{
    let ghost start = *f;
    let ghost start_rt = *rt;
    let waker = my_waker();
    let mut wire: Vec<u8> = Vec::new();
    let mut polls: usize = 0;
    while polls < responses.len()
        invariant
            polls <= responses.len(),
            start == *old(f),
            start_rt == *old(rt),
            waker == spec_my_waker(),
            *f == state_after(start, responses@, polls as nat),
            *rt == runtime_after(start, start_rt, waker, responses@, polls as nat),
            wire@ == wire_after(start, responses@, polls as nat),
            ready_count(start, responses@, polls as nat) == 0,
            forall|index: int| 0 <= index < polls ==> #[trigger] poll_at(start, responses@, index) is Pending,
            start_rt.wf() ==> rt.wf(),
        decreases responses.len() - polls,
    {
        let request = f.request();
        let response = responses[polls];
        let poll = f.poll(response, &waker, rt);
        match wire_byte(&request, &response) {
            Some(byte) => {
                wire.push(byte);
            },
            None => {},
        }
        polls = polls + 1;
        match poll {
            Poll::Ready(value) => {
                assert(poll_at(start, responses@, polls - 1) == Poll::Ready(value));
                return Completion { output: Some(value), polls, wire };
            },
            Poll::Pending => {
                assert(poll_at(start, responses@, polls - 1) is Pending);
            },
        }
    }
    Completion { output: None, polls, wire }
}

/// Polling keeps the slot invariant, whatever the operation and whatever the
/// responses.
pub proof fn lemma_polls_keep_invariant<F: Future>(
    f: F,
    rt: Runtime,
    waker: Waker,
    responses: Seq<HalResponse>,
    polls: nat,
)
    requires
        rt.wf(),
    ensures
        runtime_after(f, rt, waker, responses, polls).wf(),
    decreases polls,
{
    if polls > 0 {
        let before = (polls - 1) as nat;
        lemma_polls_keep_invariant(f, rt, waker, responses, before);
        lemma_poll_is_transitions(
            runtime_after(f, rt, waker, responses, before),
            state_after(f, responses, before).spec_suspends(responses[polls - 1]),
            waker,
        );
    }
}

/// Busy-poll liveness of a receive. Where the first byte arrives with the
/// response at `index`, every poll before it reports `Pending` and the poll
/// at `index` reports the byte: the executor returns it after `index + 1`
/// polls.
pub proof fn lemma_receive_completes(op: SerialRx, responses: Seq<HalResponse>, index: int, byte: u8)
    requires
        0 <= index < responses.len(),
        responses[index].spec_received() == Some(byte),
        forall|k: int| 0 <= k < index ==> (#[trigger] responses[k]).spec_received().is_none(),
    ensures
        poll_at(op, responses, index) == Poll::<u8>::Ready(byte),
        forall|k: int| 0 <= k < index ==> #[trigger] poll_at(op, responses, k) is Pending,
        completes(op, responses),
        ready_count(op, responses, (index + 1) as nat) == 1,
{
    assert forall|k: int| 0 <= k <= index implies #[trigger] state_after(op, responses, k as nat) == op by {
        lemma_receive_stays(op, responses, k as nat);
    }
    lemma_count_pending(op, responses, index as nat);
}

/// Busy-poll liveness of a transmit. Where the transmit register first
/// accepts a byte with the response at `index`, every poll before it reports
/// `Pending` and the poll at `index` reports completion: the executor
/// returns after `index + 1` polls.
pub proof fn lemma_transmit_completes(op: SerialTx, responses: Seq<HalResponse>, index: int)
    requires
        0 <= index < responses.len(),
        responses[index].spec_accepted(),
        forall|k: int| 0 <= k < index ==> !(#[trigger] responses[k]).spec_accepted(),
    ensures
        poll_at(op, responses, index) == Poll::<()>::Ready(()),
        forall|k: int| 0 <= k < index ==> #[trigger] poll_at(op, responses, k) is Pending,
        completes(op, responses),
        ready_count(op, responses, (index + 1) as nat) == 1,
{
    assert forall|k: int| 0 <= k <= index implies #[trigger] state_after(op, responses, k as nat) == op by {
        lemma_transmit_stays(op, responses, k as nat);
    }
    lemma_count_pending(op, responses, index as nat);
}

/// A receive is the same operation after any number of polls.
pub proof fn lemma_receive_stays(op: SerialRx, responses: Seq<HalResponse>, polls: nat)
    ensures
        state_after(op, responses, polls) == op,
    decreases polls,
{
    if polls > 0 {
        lemma_receive_stays(op, responses, (polls - 1) as nat);
    }
}

/// A transmit is the same operation, with the same byte, after any number of
/// polls.
pub proof fn lemma_transmit_stays(op: SerialTx, responses: Seq<HalResponse>, polls: nat)
    ensures
        state_after(op, responses, polls) == op,
    decreases polls,
{
    if polls > 0 {
        lemma_transmit_stays(op, responses, (polls - 1) as nat);
    }
}

/// Polls that all report `Pending` count no `Ready`.
pub proof fn lemma_count_pending<F: Future>(f: F, responses: Seq<HalResponse>, polls: nat)
    requires
        forall|k: int| 0 <= k < polls ==> #[trigger] poll_at(f, responses, k) is Pending,
    ensures
        ready_count(f, responses, polls) == 0,
    decreases polls,
{
    if polls > 0 {
        lemma_count_pending(f, responses, (polls - 1) as nat);
    }
}

} // verus!
