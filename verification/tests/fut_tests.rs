use avr_echo::echo::{bracketed_echo, do_futures, BracketedEcho, CLOSE, OPEN};
use avr_echo::executor::{block_on, my_waker};
use avr_echo::fut::{wire_byte, Future, HalRequest, HalResponse, Poll, Serial, SerialRx, SerialTx};
use avr_echo::runtime::{rx_interrupt_handler, tx_empty_interrupt_handler, Runtime, Waker};

const NO_DATA: HalResponse = HalResponse::Received(None);
const FULL: HalResponse = HalResponse::Transmitted(Err(()));
const SENT: HalResponse = HalResponse::Transmitted(Ok(()));

fn got(byte: u8) -> HalResponse {
    HalResponse::Received(Some(byte))
}

#[test]
fn serial_makes_the_operations() {
    assert_eq!(Serial.tx(0x41), SerialTx(0x41));
    assert_eq!(Serial.rx(), SerialRx);
    assert_eq!(Serial.rx().request(), HalRequest::TryReceive);
    assert_eq!(Serial.tx(0x41).request(), HalRequest::TryTransmit(0x41));
}

#[test]
fn receive_ready_leaves_the_runtime_alone() {
    let mut rt = Runtime::new();
    let mut op = Serial.rx();
    assert_eq!(op.poll(got(0x61), &my_waker(), &mut rt), Poll::Ready(0x61));
    assert_eq!(rt, Runtime::new());
}

#[test]
fn receive_pending_stores_and_arms() {
    let mut rt = Runtime::new();
    let mut op = Serial.rx();
    let waker = Waker { data: 5 };
    assert_eq!(op.poll(NO_DATA, &waker, &mut rt), Poll::Pending);
    assert_eq!(rt, Runtime { rx_waker: Some(waker), tx_waker: None, ucsr0b: 0x80 });
}

#[test]
fn transmit_ready_leaves_the_runtime_alone() {
    let mut rt = Runtime::new();
    let mut op = Serial.tx(0x42);
    assert_eq!(op.poll(SENT, &my_waker(), &mut rt), Poll::Ready(()));
    assert_eq!(rt, Runtime::new());
    assert_eq!(op, SerialTx(0x42));
}

#[test]
fn transmit_pending_stores_and_arms() {
    let mut rt = Runtime::new();
    let mut op = Serial.tx(0x42);
    let waker = Waker { data: 6 };
    assert_eq!(op.poll(FULL, &waker, &mut rt), Poll::Pending);
    assert_eq!(rt, Runtime { rx_waker: None, tx_waker: Some(waker), ucsr0b: 0x20 });
}

#[test]
fn response_of_the_other_kind_completes_nothing() {
    let mut rt = Runtime::new();
    assert_eq!(Serial.rx().poll(SENT, &my_waker(), &mut rt), Poll::Pending);
    assert_eq!(Serial.tx(1).poll(got(1), &my_waker(), &mut rt), Poll::Pending);
    assert_eq!(got(9).received(), Some(9));
    assert_eq!(SENT.received(), None);
    assert!(SENT.accepted());
    assert!(!FULL.accepted());
    assert!(!got(9).accepted());
}

#[test]
fn retry_is_idempotent() {
    let waker = Waker { data: 3 };
    let mut rt = Runtime::new();
    let mut op = Serial.rx();
    assert_eq!(op.poll(NO_DATA, &waker, &mut rt), Poll::Pending);
    let once = rt;
    assert_eq!(op.poll(NO_DATA, &waker, &mut rt), Poll::Pending);
    assert_eq!(rt, once);

    let mut rt = Runtime::new();
    let mut op = Serial.tx(0x30);
    assert_eq!(op.poll(FULL, &waker, &mut rt), Poll::Pending);
    let once = rt;
    assert_eq!(op.poll(FULL, &waker, &mut rt), Poll::Pending);
    assert_eq!(rt, once);
    assert_eq!(op, SerialTx(0x30));
}

#[test]
fn wire_byte_is_the_accepted_byte() {
    assert_eq!(wire_byte(&HalRequest::TryTransmit(0x3e), &SENT), Some(0x3e));
    assert_eq!(wire_byte(&HalRequest::TryTransmit(0x3e), &FULL), None);
    assert_eq!(wire_byte(&HalRequest::TryReceive, &got(1)), None);
    assert_eq!(wire_byte(&HalRequest::TryReceive, &SENT), None);
}

#[test]
fn executor_notifier_is_inert_null() {
    assert_eq!(my_waker(), Waker { data: 0 });
}

#[test]
fn block_on_returns_at_the_first_ready() {
    let mut rt = Runtime::new();
    let mut op = Serial.rx();
    let done = block_on(&mut op, &mut rt, &[NO_DATA, NO_DATA, got(0x7a), got(0x7b)]);
    assert_eq!(done.output, Some(0x7a));
    assert_eq!(done.polls, 3);
    assert_eq!(done.wire, Vec::<u8>::new());
    // The operation suspended on the way: the notifier is still registered.
    assert_eq!(rt, Runtime { rx_waker: Some(my_waker()), tx_waker: None, ucsr0b: 0x80 });
}

#[test]
fn block_on_ready_at_once_takes_one_poll() {
    let mut rt = Runtime::new();
    let mut op = Serial.tx(0x55);
    let done = block_on(&mut op, &mut rt, &[SENT, SENT]);
    assert_eq!(done.output, Some(()));
    assert_eq!(done.polls, 1);
    assert_eq!(done.wire, vec![0x55]);
    assert_eq!(rt, Runtime::new());
}

#[test]
fn block_on_without_ready_uses_every_response() {
    let mut rt = Runtime::new();
    let mut op = Serial.tx(0x55);
    let done = block_on(&mut op, &mut rt, &[FULL, FULL, FULL]);
    assert_eq!(done.output, None);
    assert_eq!(done.polls, 3);
    assert_eq!(done.wire, Vec::<u8>::new());
    let done = block_on(&mut op, &mut rt, &[]);
    assert_eq!(done.output, None);
    assert_eq!(done.polls, 0);
}

#[test]
fn echo_task_steps_through_one_cycle() {
    let mut rt = Runtime::new();
    let waker = my_waker();
    let mut task = bracketed_echo();
    assert_eq!(task, BracketedEcho::Receiving);
    assert_eq!(task.request(), HalRequest::TryReceive);
    assert_eq!(task.poll(NO_DATA, &waker, &mut rt), Poll::Pending);
    assert_eq!(task, BracketedEcho::Receiving);
    assert_eq!(rt.rx_waker, Some(waker));
    assert_eq!(rx_interrupt_handler(&mut rt), Some(waker));
    assert_eq!(task.poll(got(0x78), &waker, &mut rt), Poll::Pending);
    assert_eq!(task, BracketedEcho::Opening(0x78));
    assert_eq!(task.request(), HalRequest::TryTransmit(OPEN));
    assert_eq!(task.poll(SENT, &waker, &mut rt), Poll::Pending);
    assert_eq!(task, BracketedEcho::Echoing(0x78));
    assert_eq!(task.request(), HalRequest::TryTransmit(0x78));
    assert_eq!(task.poll(FULL, &waker, &mut rt), Poll::Pending);
    assert_eq!(task, BracketedEcho::Echoing(0x78));
    assert_eq!(rt.tx_waker, Some(waker));
    assert_eq!(rt.ucsr0b, 0x20);
    assert_eq!(tx_empty_interrupt_handler(&mut rt), Some(waker));
    assert_eq!(rt, Runtime::new());
    assert_eq!(task.poll(SENT, &waker, &mut rt), Poll::Pending);
    assert_eq!(task, BracketedEcho::Closing(0x78));
    assert_eq!(task.request(), HalRequest::TryTransmit(CLOSE));
    assert_eq!(task.poll(SENT, &waker, &mut rt), Poll::Pending);
    assert_eq!(task, BracketedEcho::Receiving);
    assert_eq!(rt, Runtime::new());
}

#[test]
fn echo_brackets_each_byte_in_order() {
    let mut rt = Runtime::new();
    let responses = [
        NO_DATA,
        got(b'a'),
        SENT,
        FULL,
        FULL,
        SENT,
        SENT,
        NO_DATA,
        NO_DATA,
        got(b'b'),
        FULL,
        SENT,
        SENT,
        FULL,
        SENT,
        got(0x00),
        SENT,
        SENT,
        SENT,
        got(0xff),
        SENT,
        SENT,
        SENT,
    ];
    let wire = do_futures(&mut rt, &responses);
    assert_eq!(wire, b">a<>b<>\x00<>\xff<".to_vec());
    assert!(rt.is_wf());
}

#[test]
fn echo_stops_mid_cycle_where_the_responses_end() {
    let mut rt = Runtime::new();
    assert_eq!(do_futures(&mut rt, &[]), Vec::<u8>::new());
    assert_eq!(do_futures(&mut rt, &[got(b'q')]), Vec::<u8>::new());
    assert_eq!(do_futures(&mut rt, &[got(b'q'), SENT]), vec![b'>']);
    assert_eq!(do_futures(&mut rt, &[got(b'q'), SENT, SENT]), vec![b'>', b'q']);
    assert_eq!(do_futures(&mut rt, &[got(b'q'), SENT, SENT, SENT]), vec![b'>', b'q', b'<']);
    // A byte that arrives while a cycle is under way is not taken.
    assert_eq!(do_futures(&mut rt, &[got(b'q'), got(b'r'), SENT]), vec![b'>']);
}

#[test]
fn bracket_bytes() {
    assert_eq!(OPEN, b'>');
    assert_eq!(CLOSE, b'<');
}
