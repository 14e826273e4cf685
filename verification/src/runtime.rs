//! The runtime context: the two completion notifier slots and the image of
//! the serial control register that holds the interrupt-enable bits, with
//! the interrupt service routines that drain a slot and disarm its interrupt.

use vstd::prelude::*;
use crate::register::{bits_clear, bits_set, set_bit, unset_bit, RXCIE0, UDRIE0};

verus! {

/// A completion notifier: an opaque handle that stands for the request to
/// poll a suspended operation again.
#[derive(Clone, Copy, Debug, PartialEq, Eq, Structural)]
pub struct Waker {
    pub data: usize,
}

/// One of the two directions of serial transfer.
#[derive(Clone, Copy, Debug, PartialEq, Eq, Structural)]
pub enum Direction {
    Receive,
    Transmit,
}

impl Direction {
    /// The interrupt-enable bit of this direction.
    pub open spec fn spec_enable_bit(self) -> u8 {
        match self {
            Direction::Receive => RXCIE0,
            Direction::Transmit => UDRIE0,
        }
    }

    /// The interrupt-enable bit of this direction.
    pub fn enable_bit(&self) -> (mask: u8)
        ensures
            mask == self.spec_enable_bit(),
    {
        match self {
            Direction::Receive => RXCIE0,
            Direction::Transmit => UDRIE0,
        }
    }
}

/// The state shared between the polling loop and the interrupt service
/// routines.
#[derive(Clone, Copy, Debug, PartialEq, Eq, Structural)]
pub struct Runtime {
    /// The notifier of the suspended receive operation, if there is one.
    pub rx_waker: Option<Waker>,
    /// The notifier of the suspended transmit operation, if there is one.
    pub tx_waker: Option<Waker>,
    /// The serial control register that holds both interrupt-enable bits.
    pub ucsr0b: u8,
}

/// A change of the shared state: an operation suspends, or an interrupt fires.
#[derive(Clone, Copy, Debug, PartialEq, Eq, Structural)]
pub enum Transition {
    Suspend(Direction, Waker),
    Interrupt(Direction),
}

impl Runtime {
    /// The notifier slot of a direction.
    pub open spec fn slot(self, direction: Direction) -> Option<Waker> {
        match direction {
            Direction::Receive => self.rx_waker,
            Direction::Transmit => self.tx_waker,
        }
    }

    /// Whether the interrupt of a direction is armed.
    pub open spec fn armed(self, direction: Direction) -> bool {
        bits_set(self.ucsr0b, direction.spec_enable_bit())
    }

    /// The slot invariant: a slot holds a notifier exactly when the interrupt
    /// of its direction is armed.
    pub open spec fn wf(self) -> bool {
        &&& self.rx_waker.is_some() <==> self.armed(Direction::Receive)
        &&& self.tx_waker.is_some() <==> self.armed(Direction::Transmit)
    }

    /// The state right after boot: both slots empty, the control register zero.
    pub open spec fn booted() -> Runtime {
        Runtime { rx_waker: None, tx_waker: None, ucsr0b: 0 }
    }

    /// The state after an operation of `direction` has suspended with `waker`:
    /// the notifier is in the slot and the interrupt-enable bit is ORed in.
    pub open spec fn after_suspend(self, direction: Direction, waker: Waker) -> Runtime {
        match direction {
            Direction::Receive => Runtime {
                rx_waker: Some(waker),
                tx_waker: self.tx_waker,
                ucsr0b: self.ucsr0b | RXCIE0,
            },
            Direction::Transmit => Runtime {
                rx_waker: self.rx_waker,
                tx_waker: Some(waker),
                ucsr0b: self.ucsr0b | UDRIE0,
            },
        }
    }

    /// The first half of a suspension: the notifier is in the slot, the
    /// interrupt is not yet armed.
    pub open spec fn after_store(self, direction: Direction, waker: Waker) -> Runtime {
        match direction {
            Direction::Receive => Runtime {
                rx_waker: Some(waker),
                tx_waker: self.tx_waker,
                ucsr0b: self.ucsr0b,
            },
            Direction::Transmit => Runtime {
                rx_waker: self.rx_waker,
                tx_waker: Some(waker),
                ucsr0b: self.ucsr0b,
            },
        }
    }

    /// The second half of a suspension: the interrupt-enable bit is ORed in.
    pub open spec fn after_arm(self, direction: Direction) -> Runtime {
        Runtime {
            rx_waker: self.rx_waker,
            tx_waker: self.tx_waker,
            ucsr0b: self.ucsr0b | direction.spec_enable_bit(),
        }
    }

    /// The state after the interrupt of `direction` has been serviced: where
    /// the slot held a notifier it is empty and the interrupt-enable bit is
    /// XORed out; where it was empty nothing changes.
    pub open spec fn after_interrupt(self, direction: Direction) -> Runtime {
        match direction {
            Direction::Receive => if self.rx_waker.is_some() {
                Runtime { rx_waker: None, tx_waker: self.tx_waker, ucsr0b: self.ucsr0b ^ RXCIE0 }
            } else {
                self
            },
            Direction::Transmit => if self.tx_waker.is_some() {
                Runtime { rx_waker: self.rx_waker, tx_waker: None, ucsr0b: self.ucsr0b ^ UDRIE0 }
            } else {
                self
            },
        }
    }

    /// The state after one transition.
    pub open spec fn apply(self, transition: Transition) -> Runtime {
        match transition {
            Transition::Suspend(direction, waker) => self.after_suspend(direction, waker),
            Transition::Interrupt(direction) => self.after_interrupt(direction),
        }
    }

    /// The state after a sequence of transitions, first to last.
    pub open spec fn apply_all(self, transitions: Seq<Transition>) -> Runtime
        decreases transitions.len(),
    {
        if transitions.len() == 0 {
            self
        } else {
            self.apply(transitions[0]).apply_all(transitions.skip(1))
        }
    }

    /// The runtime as boot leaves it: no notifier pending, no interrupt armed.
    pub fn new() -> (rt: Runtime)
        ensures
            rt == Runtime::booted(),
            rt.rx_waker.is_none(),
            rt.tx_waker.is_none(),
            !rt.armed(Direction::Receive),
            !rt.armed(Direction::Transmit),
            rt.wf(),
    {
        assert(0u8 & 0x80u8 != 0x80u8) by (bit_vector);
        assert(0u8 & 0x20u8 != 0x20u8) by (bit_vector);
        Runtime { rx_waker: None, tx_waker: None, ucsr0b: 0 }
    }

    /// Whether the slot invariant holds.
    pub fn is_wf(&self) -> (ok: bool)
        ensures
            ok == self.wf(),
    {
        self.rx_waker.is_some() == (self.ucsr0b & RXCIE0 == RXCIE0)
            && self.tx_waker.is_some() == (self.ucsr0b & UDRIE0 == UDRIE0)
    }

    /// Suspends an operation of `direction`: stores a copy of `waker` in the
    /// slot, then arms the interrupt.
    pub fn suspend(&mut self, direction: Direction, waker: &Waker)
        ensures
            *final(self) == old(self).after_suspend(direction, *waker),
            final(self).slot(direction) == Some(*waker),
            final(self).armed(direction),
            old(self).wf() ==> final(self).wf(),
    {
        proof {
            lemma_suspend_keeps_invariant(*self, direction, *waker);
        }
        match direction {
            Direction::Receive => {
                self.rx_waker = Some(*waker);
                enable_serial_rx_interrupt(self);
            },
            Direction::Transmit => {
                self.tx_waker = Some(*waker);
                enable_serial_tx_empty_interrupt(self);
            },
        }
    }
}

/// Arms the receive-complete interrupt.
pub fn enable_serial_rx_interrupt(rt: &mut Runtime)
    ensures
        final(rt).ucsr0b == old(rt).ucsr0b | RXCIE0,
        final(rt).rx_waker == old(rt).rx_waker,
        final(rt).tx_waker == old(rt).tx_waker,
        final(rt).armed(Direction::Receive),
        final(rt).armed(Direction::Transmit) == old(rt).armed(Direction::Transmit),
{
    proof {
        crate::register::lemma_enable_bits_independent(rt.ucsr0b);
    }
    rt.ucsr0b = set_bit(rt.ucsr0b, RXCIE0);
}

/// Disarms the receive-complete interrupt by XOR: it is to be called only
/// while that interrupt is armed.
pub fn disable_serial_rx_interrupt(rt: &mut Runtime)
    ensures
        final(rt).ucsr0b == old(rt).ucsr0b ^ RXCIE0,
        final(rt).rx_waker == old(rt).rx_waker,
        final(rt).tx_waker == old(rt).tx_waker,
        old(rt).armed(Direction::Receive) ==> !final(rt).armed(Direction::Receive),
        final(rt).armed(Direction::Transmit) == old(rt).armed(Direction::Transmit),
{
    proof {
        crate::register::lemma_enable_bits_independent(rt.ucsr0b);
        lemma_single_bit_clear(rt.ucsr0b ^ RXCIE0);
    }
    rt.ucsr0b = unset_bit(rt.ucsr0b, RXCIE0);
}

/// Arms the transmit-buffer-empty interrupt.
pub fn enable_serial_tx_empty_interrupt(rt: &mut Runtime)
    ensures
        final(rt).ucsr0b == old(rt).ucsr0b | UDRIE0,
        final(rt).rx_waker == old(rt).rx_waker,
        final(rt).tx_waker == old(rt).tx_waker,
        final(rt).armed(Direction::Transmit),
        final(rt).armed(Direction::Receive) == old(rt).armed(Direction::Receive),
{
    proof {
        crate::register::lemma_enable_bits_independent(rt.ucsr0b);
    }
    rt.ucsr0b = set_bit(rt.ucsr0b, UDRIE0);
}

/// Disarms the transmit-buffer-empty interrupt by XOR: it is to be called
/// only while that interrupt is armed.
pub fn disable_serial_tx_empty_interrupt(rt: &mut Runtime)
    ensures
        final(rt).ucsr0b == old(rt).ucsr0b ^ UDRIE0,
        final(rt).rx_waker == old(rt).rx_waker,
        final(rt).tx_waker == old(rt).tx_waker,
        old(rt).armed(Direction::Transmit) ==> !final(rt).armed(Direction::Transmit),
        final(rt).armed(Direction::Receive) == old(rt).armed(Direction::Receive),
{
    proof {
        crate::register::lemma_enable_bits_independent(rt.ucsr0b);
        lemma_single_bit_clear(rt.ucsr0b ^ UDRIE0);
    }
    rt.ucsr0b = unset_bit(rt.ucsr0b, UDRIE0);
}

/// The receive-complete interrupt service routine: drains the receive slot
/// and, where it held a notifier, disarms the receive-complete interrupt.
/// Returns the notifier that is to be invoked; with an empty slot it does
/// nothing.
pub fn rx_interrupt_handler(rt: &mut Runtime) -> (woken: Option<Waker>)
    ensures
        woken == old(rt).rx_waker,
        *final(rt) == old(rt).after_interrupt(Direction::Receive),
        final(rt).rx_waker.is_none(),
        final(rt).tx_waker == old(rt).tx_waker,
        woken.is_none() ==> *final(rt) == *old(rt),
        old(rt).wf() ==> final(rt).wf() && bits_clear(final(rt).ucsr0b, RXCIE0),
{
    proof {
        lemma_interrupt_keeps_invariant(*rt, Direction::Receive);
    }
    let woken = rt.rx_waker.take();
    if woken.is_some() {
        disable_serial_rx_interrupt(rt);
    }
    woken
}

/// The transmit-buffer-empty interrupt service routine: drains the transmit
/// slot and, where it held a notifier, disarms the transmit-buffer-empty
/// interrupt. Returns the notifier that is to be invoked; with an empty slot
/// it does nothing.
pub fn tx_empty_interrupt_handler(rt: &mut Runtime) -> (woken: Option<Waker>)
    ensures
        woken == old(rt).tx_waker,
        *final(rt) == old(rt).after_interrupt(Direction::Transmit),
        final(rt).tx_waker.is_none(),
        final(rt).rx_waker == old(rt).rx_waker,
        woken.is_none() ==> *final(rt) == *old(rt),
        old(rt).wf() ==> final(rt).wf() && bits_clear(final(rt).ucsr0b, UDRIE0),
{
    proof {
        lemma_interrupt_keeps_invariant(*rt, Direction::Transmit);
    }
    let woken = rt.tx_waker.take();
    if woken.is_some() {
        disable_serial_tx_empty_interrupt(rt);
    }
    woken
}

/// An interrupt-enable bit is either set or clear.
pub proof fn lemma_single_bit_clear(value: u8)
    ensures
        bits_clear(value, RXCIE0) <==> !bits_set(value, RXCIE0),
        bits_clear(value, UDRIE0) <==> !bits_set(value, UDRIE0),
{
    assert((value & 0x80u8 == 0) <==> !(value & 0x80u8 == 0x80u8)) by (bit_vector);
    assert((value & 0x20u8 == 0) <==> !(value & 0x20u8 == 0x20u8)) by (bit_vector);
}

/// Suspending an operation keeps the slot invariant, leaves the slot of the
/// direction full and its interrupt armed.
pub proof fn lemma_suspend_keeps_invariant(rt: Runtime, direction: Direction, waker: Waker)
    ensures
        rt.after_suspend(direction, waker).slot(direction) == Some(waker),
        rt.after_suspend(direction, waker).armed(direction),
        rt.wf() ==> rt.after_suspend(direction, waker).wf(),
{
    let v = rt.ucsr0b;
    crate::register::lemma_enable_bits_independent(v);
    assert((v | 0x80u8) & 0x80u8 == 0x80u8) by (bit_vector);
    assert((v | 0x20u8) & 0x20u8 == 0x20u8) by (bit_vector);
}

/// Servicing an interrupt keeps the slot invariant, leaves the slot of the
/// direction empty and its interrupt disarmed.
pub proof fn lemma_interrupt_keeps_invariant(rt: Runtime, direction: Direction)
    ensures
        rt.after_interrupt(direction).slot(direction).is_none(),
        rt.wf() ==> rt.after_interrupt(direction).wf(),
        rt.wf() ==> !rt.after_interrupt(direction).armed(direction),
        rt.wf() ==> bits_clear(rt.after_interrupt(direction).ucsr0b, direction.spec_enable_bit()),
{
    let v = rt.ucsr0b;
    crate::register::lemma_enable_bits_independent(v);
    lemma_single_bit_clear(v);
    lemma_single_bit_clear(v ^ RXCIE0);
    lemma_single_bit_clear(v ^ UDRIE0);
    assert(v & 0x80u8 == 0x80u8 ==> (v ^ 0x80u8) & 0x80u8 == 0) by (bit_vector);
    assert(v & 0x20u8 == 0x20u8 ==> (v ^ 0x20u8) & 0x20u8 == 0) by (bit_vector);
}

/// The slot invariant holds after every interleaving of suspensions and
/// interrupts that starts in a state in which it holds.
pub proof fn lemma_slot_invariant(rt: Runtime, transitions: Seq<Transition>)
    requires
        rt.wf(),
    ensures
        rt.apply_all(transitions).wf(),
    decreases transitions.len(),
{
    if transitions.len() > 0 {
        match transitions[0] {
            Transition::Suspend(direction, waker) => {
                lemma_suspend_keeps_invariant(rt, direction, waker);
            },
            Transition::Interrupt(direction) => {
                lemma_interrupt_keeps_invariant(rt, direction);
            },
        }
        lemma_slot_invariant(rt.apply(transitions[0]), transitions.skip(1));
    }
}

/// Boot leaves both slots empty and no interrupt armed, and from there the
/// slot invariant holds after every interleaving of suspensions and
/// interrupts.
pub proof fn lemma_boot_clears_state(transitions: Seq<Transition>)
    ensures
        Runtime::booted().rx_waker.is_none(),
        Runtime::booted().tx_waker.is_none(),
        !Runtime::booted().armed(Direction::Receive),
        !Runtime::booted().armed(Direction::Transmit),
        Runtime::booted().wf(),
        Runtime::booted().apply_all(transitions).wf(),
{
    assert(0u8 & 0x80u8 != 0x80u8) by (bit_vector);
    assert(0u8 & 0x20u8 != 0x20u8) by (bit_vector);
    lemma_slot_invariant(Runtime::booted(), transitions);
}

/// Suspending twice with the same notifier is the same as suspending once.
pub proof fn lemma_suspend_idempotent(rt: Runtime, direction: Direction, waker: Waker)
    ensures
        rt.after_suspend(direction, waker).after_suspend(direction, waker) == rt.after_suspend(
            direction,
            waker,
        ),
{
    crate::register::lemma_set_idempotent(rt.ucsr0b, RXCIE0);
    crate::register::lemma_set_idempotent(rt.ucsr0b, UDRIE0);
}

/// The gap between the two halves of a suspension. Storing the notifier and
/// then arming the interrupt make one suspension; an interrupt that is
/// serviced between the two takes the notifier and leaves the interrupt armed
/// over an empty slot, so the slot invariant is lost and with it the wakeup.
pub proof fn lemma_interrupt_between_store_and_arm(rt: Runtime, direction: Direction, waker: Waker)
    ensures
        rt.after_store(direction, waker).after_arm(direction) == rt.after_suspend(direction, waker),
        rt.after_store(direction, waker).after_interrupt(direction).after_arm(direction).slot(
            direction,
        ).is_none(),
        rt.after_store(direction, waker).after_interrupt(direction).after_arm(direction).armed(
            direction,
        ),
        !rt.after_store(direction, waker).after_interrupt(direction).after_arm(direction).wf(),
{
    let v = rt.ucsr0b;
    assert(((v ^ 0x80u8) | 0x80u8) & 0x80u8 == 0x80u8) by (bit_vector);
    assert(((v ^ 0x20u8) | 0x20u8) & 0x20u8 == 0x20u8) by (bit_vector);
}

} // verus!
