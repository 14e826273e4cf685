//! The asynchronous serial operations: receive one byte, transmit one byte.
//! Each attempt to resume an operation consumes the response of exactly one
//! call into the hardware abstraction layer.

use vstd::prelude::*;
use crate::runtime::{Direction, Runtime, Transition, Waker};

verus! {

/// What one attempt to resume an operation reports.
#[derive(Debug, PartialEq, Eq)]
pub enum Poll<T> {
    /// The operation is complete, with its value.
    Ready(T),
    /// The operation cannot complete yet.
    Pending,
}

/// A non-blocking call into the hardware abstraction layer.
#[derive(Clone, Copy, Debug, PartialEq, Eq, Structural)]
pub enum HalRequest {
    /// Take a byte out of the receive buffer, if one is there.
    TryReceive,
    /// Put this byte into the transmit register, if it is empty.
    TryTransmit(u8),
}

/// What the hardware abstraction layer answered to a request.
#[derive(Clone, Copy, Debug, PartialEq, Eq)]
pub enum HalResponse {
    /// The answer to `TryReceive`: the byte, or nothing yet.
    Received(Option<u8>),
    /// The answer to `TryTransmit`: accepted, or the register is still full.
    Transmitted(Result<(), ()>),
}

impl HalResponse {
    /// The byte that this response delivers. A response to a transmit request
    /// delivers none.
    pub open spec fn spec_received(self) -> Option<u8> {
        match self {
            HalResponse::Received(byte) => byte,
            HalResponse::Transmitted(_) => None,
        }
    }

    /// Whether this response says that a byte was accepted for transmission.
    /// A response to a receive request does not.
    pub open spec fn spec_accepted(self) -> bool {
        match self {
            HalResponse::Received(_) => false,
            HalResponse::Transmitted(result) => result.is_ok(),
        }
    }

    /// The byte that this response delivers.
    pub fn received(&self) -> (byte: Option<u8>)
        ensures
            byte == self.spec_received(),
    {
        match self {
            HalResponse::Received(byte) => *byte,
            HalResponse::Transmitted(_) => None,
        }
    }

    /// Whether this response says that a byte was accepted for transmission.
    pub fn accepted(&self) -> (ok: bool)
        ensures
            ok == self.spec_accepted(),
    {
        match self {
            HalResponse::Received(_) => false,
            HalResponse::Transmitted(result) => result.is_ok(),
        }
    }
}

/// The byte that goes out on the wire when `request` is answered by
/// `response`: the byte of a transmit request that was accepted.
pub open spec fn spec_wire_byte(request: HalRequest, response: HalResponse) -> Option<u8> {
    match request {
        HalRequest::TryTransmit(byte) => if response.spec_accepted() {
            Some(byte)
        } else {
            None
        },
        HalRequest::TryReceive => None,
    }
}

/// The byte that comes in when `request` is answered by `response`: the byte
/// that a receive request was answered with.
pub open spec fn spec_taken_byte(request: HalRequest, response: HalResponse) -> Option<u8> {
    match request {
        HalRequest::TryReceive => response.spec_received(),
        HalRequest::TryTransmit(_) => None,
    }
}

/// The byte that goes out on the wire when `request` is answered by
/// `response`.
pub fn wire_byte(request: &HalRequest, response: &HalResponse) -> (byte: Option<u8>)
    ensures
        byte == spec_wire_byte(*request, *response),
{
    match request {
        HalRequest::TryTransmit(byte) => if response.accepted() {
            Some(*byte)
        } else {
            None
        },
        HalRequest::TryReceive => None,
    }
}

/// The runtime after one attempt to resume an operation: unchanged where the
/// operation did not suspend, else with the notifier stored and the interrupt
/// armed.
pub open spec fn runtime_after_poll(rt: Runtime, suspends: Option<Direction>, waker: Waker) -> Runtime {
    match suspends {
        Some(direction) => rt.after_suspend(direction, waker),
        None => rt,
    }
}

/// What a poll does to the runtime, as transitions: one suspension, or none.
pub open spec fn poll_transitions(suspends: Option<Direction>, waker: Waker) -> Seq<Transition> {
    match suspends {
        Some(direction) => seq![Transition::Suspend(direction, waker)],
        None => Seq::empty(),
    }
}

/// A poll changes the runtime by its transitions and in no other way, so it
/// keeps the slot invariant.
pub proof fn lemma_poll_is_transitions(rt: Runtime, suspends: Option<Direction>, waker: Waker)
    ensures
        runtime_after_poll(rt, suspends, waker) == rt.apply_all(poll_transitions(suspends, waker)),
        rt.wf() ==> runtime_after_poll(rt, suspends, waker).wf(),
{
    let transitions = poll_transitions(suspends, waker);
    match suspends {
        Some(direction) => {
            assert(transitions.skip(1).len() == 0);
            assert(rt.apply(transitions[0]).apply_all(transitions.skip(1)) == rt.after_suspend(
                direction,
                waker,
            ));
            crate::runtime::lemma_suspend_keeps_invariant(rt, direction, waker);
        },
        None => {},
    }
}

/// An operation that is resumed by polling. Each poll is handed the response
/// to the request that the operation names.
pub trait Future: Sized {
    /// The value of the completed operation.
    type Output;

    /// The request whose response the next poll consumes.
    spec fn spec_request(&self) -> HalRequest;

    /// What a poll with this response reports.
    spec fn spec_poll(&self, response: HalResponse) -> Poll<Self::Output>;

    /// The operation after a poll with this response.
    spec fn spec_next(&self, response: HalResponse) -> Self;

    /// The direction in which a poll with this response suspends, if it does.
    spec fn spec_suspends(&self, response: HalResponse) -> Option<Direction>;

    /// The request whose response the next poll consumes.
    fn request(&self) -> (request: HalRequest)
        ensures
            request == self.spec_request(),
    ;

    /// One attempt to resume the operation with the response to its request.
    /// Where it suspends, a copy of `waker` goes into the slot of its
    /// direction and the interrupt of that direction is armed.
    fn poll(&mut self, response: HalResponse, waker: &Waker, rt: &mut Runtime) -> (poll: Poll<
        Self::Output,
    >)
        ensures
            poll == old(self).spec_poll(response),
            *final(self) == old(self).spec_next(response),
            *final(rt) == runtime_after_poll(*old(rt), old(self).spec_suspends(response), *waker),
            old(rt).wf() ==> final(rt).wf(),
    ;
}

/// The serial line, from which the two operations are made.
#[derive(Clone, Copy, Debug, PartialEq, Eq, Structural)]
pub struct Serial;

/// The operation that receives one byte.
#[derive(Clone, Copy, Debug, PartialEq, Eq, Structural)]
pub struct SerialRx;

/// The operation that transmits the byte it holds.
#[derive(Clone, Copy, Debug, PartialEq, Eq, Structural)]
pub struct SerialTx(pub u8);

impl Serial {
    /// An operation that transmits `byte`.
    pub fn tx(&self, byte: u8) -> (op: SerialTx)
        ensures
            op == SerialTx(byte),
    {
        SerialTx(byte)
    }

    /// An operation that receives one byte.
    pub fn rx(&self) -> (op: SerialRx)
        ensures
            op == SerialRx,
    {
        SerialRx
    }
}

impl Future for SerialRx {
    type Output = u8;

    open spec fn spec_request(&self) -> HalRequest {
        HalRequest::TryReceive
    }

    open spec fn spec_poll(&self, response: HalResponse) -> Poll<u8> {
        match response.spec_received() {
            Some(byte) => Poll::Ready(byte),
            None => Poll::Pending,
        }
    }

    open spec fn spec_next(&self, response: HalResponse) -> SerialRx {
        *self
    }

    open spec fn spec_suspends(&self, response: HalResponse) -> Option<Direction> {
        match response.spec_received() {
            Some(_) => None,
            None => Some(Direction::Receive),
        }
    }

    fn request(&self) -> (request: HalRequest) {
        HalRequest::TryReceive
    }

    /// With a byte received, reports it and leaves the runtime as it is.
    /// Without one, stores the notifier in the receive slot, arms the
    /// receive-complete interrupt and reports `Pending`.
    fn poll(&mut self, response: HalResponse, waker: &Waker, rt: &mut Runtime) -> (poll: Poll<u8>) {
        match response.received() {
            Some(byte) => Poll::Ready(byte),
            None => {
                rt.suspend(Direction::Receive, waker);
                Poll::Pending
            },
        }
    }
}

impl Future for SerialTx {
    type Output = ();

    open spec fn spec_request(&self) -> HalRequest {
        HalRequest::TryTransmit(self.0)
    }

    open spec fn spec_poll(&self, response: HalResponse) -> Poll<()> {
        if response.spec_accepted() {
            Poll::Ready(())
        } else {
            Poll::Pending
        }
    }

    open spec fn spec_next(&self, response: HalResponse) -> SerialTx {
        *self
    }

    open spec fn spec_suspends(&self, response: HalResponse) -> Option<Direction> {
        if response.spec_accepted() {
            None
        } else {
            Some(Direction::Transmit)
        }
    }

    fn request(&self) -> (request: HalRequest) {
        HalRequest::TryTransmit(self.0)
    }

    /// With the byte accepted, reports completion and leaves the runtime as
    /// it is. With the transmit register full, stores the notifier in the
    /// transmit slot, arms the transmit-buffer-empty interrupt and reports
    /// `Pending`.
    fn poll(&mut self, response: HalResponse, waker: &Waker, rt: &mut Runtime) -> (poll: Poll<()>) {
        if response.accepted() {
            Poll::Ready(())
        } else {
            rt.suspend(Direction::Transmit, waker);
            Poll::Pending
        }
    }
}

/// Polling a pending receive again, with the hardware unchanged, reports
/// `Pending` again and changes nothing: the operation is the same, the same
/// notifier is in the slot and the same interrupt is armed.
pub proof fn lemma_rx_retry_idempotent(op: SerialRx, response: HalResponse, waker: Waker, rt: Runtime)
    requires
        op.spec_poll(response) is Pending,
    ensures
        op.spec_next(response) == op,
        op.spec_next(response).spec_poll(response) is Pending,
        op.spec_suspends(response) == Some(Direction::Receive),
        runtime_after_poll(
            runtime_after_poll(rt, op.spec_suspends(response), waker),
            op.spec_next(response).spec_suspends(response),
            waker,
        ) == runtime_after_poll(rt, op.spec_suspends(response), waker),
{
    crate::runtime::lemma_suspend_idempotent(rt, Direction::Receive, waker);
}

/// Polling a pending transmit again, with the hardware unchanged, reports
/// `Pending` again and changes nothing: the operation is the same, the same
/// notifier is in the slot and the same interrupt is armed.
pub proof fn lemma_tx_retry_idempotent(op: SerialTx, response: HalResponse, waker: Waker, rt: Runtime)
    requires
        op.spec_poll(response) is Pending,
    ensures
        op.spec_next(response) == op,
        op.spec_next(response).spec_poll(response) is Pending,
        op.spec_suspends(response) == Some(Direction::Transmit),
        runtime_after_poll(
            runtime_after_poll(rt, op.spec_suspends(response), waker),
            op.spec_next(response).spec_suspends(response),
            waker,
        ) == runtime_after_poll(rt, op.spec_suspends(response), waker),
{
    crate::runtime::lemma_suspend_idempotent(rt, Direction::Transmit, waker);
}

} // verus!
