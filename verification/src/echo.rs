//! The echo task: receive a byte, transmit it between two bracket
//! characters, and start over, forever.

use vstd::prelude::*;
use core::convert::Infallible;
use crate::executor::{block_on, poll_at, runtime_after, spec_my_waker, state_after, taken_after, wire_after};
use crate::fut::{Future, HalRequest, HalResponse, Poll, Serial};
use crate::runtime::{Direction, Runtime, Waker};

verus! {

/// The byte that is transmitted before each echoed byte: `>`.
pub const OPEN: u8 = 0x3e;

/// The byte that is transmitted after each echoed byte: `<`.
pub const CLOSE: u8 = 0x3c;

/// The echo task, by the step of the cycle that it is waiting in.
#[derive(Clone, Copy, Debug, PartialEq, Eq, Structural)]
pub enum BracketedEcho {
    /// Waiting to receive the next byte.
    Receiving,
    /// Holding a received byte, waiting to transmit `>`.
    Opening(u8),
    /// Waiting to transmit the received byte.
    Echoing(u8),
    /// Waiting to transmit `<`.
    Closing(u8),
}

/// The wire image of `input`: each byte between `>` and `<`, in order.
pub open spec fn framed(input: Seq<u8>) -> Seq<u8>
    decreases input.len(),
{
    if input.len() == 0 {
        Seq::empty()
    } else {
        framed(input.drop_last()) + seq![OPEN, input.last(), CLOSE]
    }
}

/// The echo task at its start.
pub fn bracketed_echo() -> (task: BracketedEcho)
    ensures
        task == BracketedEcho::Receiving,
{
    BracketedEcho::Receiving
}

impl Future for BracketedEcho {
    type Output = Infallible;

    open spec fn spec_request(&self) -> HalRequest {
        match *self {
            BracketedEcho::Receiving => HalRequest::TryReceive,
            BracketedEcho::Opening(_) => HalRequest::TryTransmit(OPEN),
            BracketedEcho::Echoing(byte) => HalRequest::TryTransmit(byte),
            BracketedEcho::Closing(_) => HalRequest::TryTransmit(CLOSE),
        }
    }

    open spec fn spec_poll(&self, response: HalResponse) -> Poll<Infallible> {
        Poll::Pending
    }

    open spec fn spec_next(&self, response: HalResponse) -> BracketedEcho {
        match *self {
            BracketedEcho::Receiving => match response.spec_received() {
                Some(byte) => BracketedEcho::Opening(byte),
                None => BracketedEcho::Receiving,
            },
            BracketedEcho::Opening(byte) => if response.spec_accepted() {
                BracketedEcho::Echoing(byte)
            } else {
                BracketedEcho::Opening(byte)
            },
            BracketedEcho::Echoing(byte) => if response.spec_accepted() {
                BracketedEcho::Closing(byte)
            } else {
                BracketedEcho::Echoing(byte)
            },
            BracketedEcho::Closing(byte) => if response.spec_accepted() {
                BracketedEcho::Receiving
            } else {
                BracketedEcho::Closing(byte)
            },
        }
    }

    open spec fn spec_suspends(&self, response: HalResponse) -> Option<Direction> {
        match *self {
            BracketedEcho::Receiving => match response.spec_received() {
                Some(_) => None,
                None => Some(Direction::Receive),
            },
            _ => if response.spec_accepted() {
                None
            } else {
                Some(Direction::Transmit)
            },
        }
    }

    fn request(&self) -> (request: HalRequest) {
        match *self {
            BracketedEcho::Receiving => Serial.rx().request(),
            BracketedEcho::Opening(_) => Serial.tx(OPEN).request(),
            BracketedEcho::Echoing(byte) => Serial.tx(byte).request(),
            BracketedEcho::Closing(_) => Serial.tx(CLOSE).request(),
        }
    }

    /// Polls the operation of the current step. Where that operation is
    /// ready the task moves on to the next step, and is never ready itself.
    fn poll(&mut self, response: HalResponse, waker: &Waker, rt: &mut Runtime) -> (poll: Poll<Infallible>) {
        match *self {
            BracketedEcho::Receiving => {
                let mut op = Serial.rx();
                match op.poll(response, waker, rt) {
                    Poll::Ready(byte) => {
                        *self = BracketedEcho::Opening(byte);
                    },
                    Poll::Pending => {},
                }
            },
            BracketedEcho::Opening(byte) => {
                let mut op = Serial.tx(OPEN);
                match op.poll(response, waker, rt) {
                    Poll::Ready(_) => {
                        *self = BracketedEcho::Echoing(byte);
                    },
                    Poll::Pending => {},
                }
            },
            BracketedEcho::Echoing(byte) => {
                let mut op = Serial.tx(byte);
                match op.poll(response, waker, rt) {
                    Poll::Ready(_) => {
                        *self = BracketedEcho::Closing(byte);
                    },
                    Poll::Pending => {},
                }
            },
            BracketedEcho::Closing(byte) => {
                let mut op = Serial.tx(CLOSE);
                match op.poll(response, waker, rt) {
                    Poll::Ready(_) => {
                        *self = BracketedEcho::Receiving;
                    },
                    Poll::Pending => {},
                }
            },
        }
        Poll::Pending
    }
}

/// Runs the echo task over `responses` and returns the bytes that went out
/// on the wire. The task is polled once for every response: it never
/// completes.
pub fn do_futures(rt: &mut Runtime, responses: &[HalResponse]) -> (wire: Vec<u8>)
    ensures
        wire@ == wire_after(BracketedEcho::Receiving, responses@, responses@.len()),
        *final(rt) == runtime_after(
            BracketedEcho::Receiving,
            *old(rt),
            spec_my_waker(),
            responses@,
            responses@.len(),
        ),
        old(rt).wf() ==> final(rt).wf(),
        state_after(BracketedEcho::Receiving, responses@, responses@.len()) is Receiving ==> wire@
            == framed(taken_after(BracketedEcho::Receiving, responses@, responses@.len())),
{
    let mut task = bracketed_echo();
    let done = block_on(&mut task, rt, responses);
    proof {
        if done.output.is_some() {
            assert(poll_at(BracketedEcho::Receiving, responses@, done.polls - 1) is Pending);
        }
        lemma_echo_ordering(responses@, responses@.len());
    }
    done.wire
}

/// Echo ordering. Whatever the hardware answers and however long it makes
/// the task wait, the bytes on the wire are the received bytes, each between
/// `>` and `<`, in the order of their arrival: in full whenever the task is
/// waiting to receive, and up to the step that the task is waiting in while
/// a cycle is under way. No byte of one cycle stands among those of another.
pub proof fn lemma_echo_ordering(responses: Seq<HalResponse>, polls: nat)
    requires
        polls <= responses.len(),
    ensures
        ({
            let input = taken_after(BracketedEcho::Receiving, responses, polls);
            let wire = wire_after(BracketedEcho::Receiving, responses, polls);
            match state_after(BracketedEcho::Receiving, responses, polls) {
                BracketedEcho::Receiving => wire == framed(input),
                BracketedEcho::Opening(byte) => {
                    &&& input.len() > 0
                    &&& input.last() == byte
                    &&& wire == framed(input.drop_last())
                },
                BracketedEcho::Echoing(byte) => {
                    &&& input.len() > 0
                    &&& input.last() == byte
                    &&& wire == framed(input.drop_last()).push(OPEN)
                },
                BracketedEcho::Closing(byte) => {
                    &&& input.len() > 0
                    &&& input.last() == byte
                    &&& wire == framed(input.drop_last()).push(OPEN).push(byte)
                },
            }
        }),
    decreases polls,
{
    if polls > 0 {
        let before = (polls - 1) as nat;
        lemma_echo_ordering(responses, before);
        let input = taken_after(BracketedEcho::Receiving, responses, before);
        let wire = wire_after(BracketedEcho::Receiving, responses, before);
        let response = responses[polls - 1];
        match state_after(BracketedEcho::Receiving, responses, before) {
            BracketedEcho::Receiving => {
                match response.spec_received() {
                    Some(byte) => {
                        assert(input.push(byte).drop_last() =~= input);
                    },
                    None => {},
                }
            },
            BracketedEcho::Opening(byte) => {},
            BracketedEcho::Echoing(byte) => {},
            BracketedEcho::Closing(byte) => {
                if response.spec_accepted() {
                    assert(framed(input.drop_last()).push(OPEN).push(byte).push(CLOSE) =~= framed(
                        input.drop_last(),
                    ) + seq![OPEN, byte, CLOSE]);
                }
            },
        }
    }
}

/// The wire image of an input is three bytes for each byte, and the bytes of
/// the `index`-th cycle are `>`, the `index`-th input byte and `<`.
pub proof fn lemma_framed_layout(input: Seq<u8>, index: int)
    requires
        0 <= index < input.len(),
    ensures
        framed(input).len() == 3 * input.len(),
        framed(input)[3 * index] == OPEN,
        framed(input)[3 * index + 1] == input[index],
        framed(input)[3 * index + 2] == CLOSE,
    decreases input.len(),
{
    lemma_framed_len(input);
    lemma_framed_len(input.drop_last());
    if index < input.len() - 1 {
        lemma_framed_layout(input.drop_last(), index);
    }
}

/// The wire image of an input is three bytes for each byte.
pub proof fn lemma_framed_len(input: Seq<u8>)
    ensures
        framed(input).len() == 3 * input.len(),
    decreases input.len(),
{
    if input.len() > 0 {
        lemma_framed_len(input.drop_last());
    }
}

/// While the echo task is suspended and the hardware does not change,
/// polling it again leaves it suspended in the same step, with the same
/// notifier in the same slot and the same interrupt armed.
pub proof fn lemma_echo_retry_idempotent(task: BracketedEcho, response: HalResponse, waker: Waker, rt: Runtime)
    requires
        task.spec_suspends(response).is_some(),
    ensures
        task.spec_next(response) == task,
        task.spec_next(response).spec_suspends(response) == task.spec_suspends(response),
        crate::fut::runtime_after_poll(
            crate::fut::runtime_after_poll(rt, task.spec_suspends(response), waker),
            task.spec_suspends(response),
            waker,
        ) == crate::fut::runtime_after_poll(rt, task.spec_suspends(response), waker),
{
    crate::runtime::lemma_suspend_idempotent(rt, task.spec_suspends(response).unwrap(), waker);
}

} // verus!
