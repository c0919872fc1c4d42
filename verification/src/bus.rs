//! Arbitration of the one bus that both sensors hang on.
//!
//! The bus hands out one transaction handle at a time. Every grant and every
//! return is recorded in a ghost trace of wire-level events, and the bus's
//! invariant says that this trace is serial: a transaction that began is ended
//! before any other begins.

use crate::reading::SensorError;
use vstd::prelude::*;

verus! {

/// The two devices on the bus.
#[derive(Clone, Copy, Debug, PartialEq, Eq, Structural)]
pub enum Device {
    AirQuality,
    Climate,
}

/// A wire-level event: a device's transaction begins or ends.
pub enum BusEvent {
    Begin(Device),
    End(Device),
}

/// The right to run one transaction. It is handed out by `SharedBus::acquire`
/// and given back to `SharedBus::release`.
#[derive(Debug)]
pub struct TransactionHandle {
    device: Device,
}

impl TransactionHandle {
    /// The device this transaction belongs to.
    pub closed spec fn spec_device(&self) -> Device {
        self.device
    }

    /// The device this transaction belongs to.
    pub fn device(&self) -> (device: Device)
        ensures
            device == self.spec_device(),
    {
        self.device
    }
}

/// Whether event `next` may stand directly after event `first`: a `Begin` is
/// followed by the `End` of the same device, an `End` by some `Begin`.
pub open spec fn may_follow(first: BusEvent, next: BusEvent) -> bool {
    match first {
        BusEvent::Begin(d) => next == BusEvent::End(d),
        BusEvent::End(_) => next is Begin,
    }
}

/// A trace is serial when it starts with a `Begin` and every event may follow
/// the one before it: transactions stand one after the other, each complete
/// before the next begins (the last one may still be open).
pub open spec fn serial(trace: Seq<BusEvent>) -> bool {
    &&& trace.len() > 0 ==> trace[0] is Begin
    &&& forall|i: int, j: int|
        0 <= i && j == i + 1 && j < trace.len() ==> may_follow(
            #[trigger] trace[i],
            #[trigger] trace[j],
        )
}

/// The device whose transaction is open at the end of a trace, if any.
pub open spec fn open_transaction(trace: Seq<BusEvent>) -> Option<Device> {
    if trace.len() == 0 {
        None
    } else {
        match trace.last() {
            BusEvent::Begin(d) => Some(d),
            BusEvent::End(_) => None,
        }
    }
}

/// Beginning a transaction on a serial trace that leaves none open keeps the
/// trace serial, and leaves that transaction open.
pub proof fn lemma_begin_keeps_serial(trace: Seq<BusEvent>, device: Device)
    requires
        serial(trace),
        open_transaction(trace) is None,
    ensures
        serial(trace.push(BusEvent::Begin(device))),
        open_transaction(trace.push(BusEvent::Begin(device))) == Some(device),
{
}

/// Ending the open transaction of a serial trace keeps the trace serial, and
/// leaves none open.
pub proof fn lemma_end_keeps_serial(trace: Seq<BusEvent>, device: Device)
    requires
        serial(trace),
        open_transaction(trace) == Some(device),
    ensures
        serial(trace.push(BusEvent::End(device))),
        open_transaction(trace.push(BusEvent::End(device))) is None,
{
}

/// Sole owner of the physical channel.
pub struct SharedBus {
    holder: Option<Device>,
    trace: Ghost<Seq<BusEvent>>,
}

impl SharedBus {
    /// The device that currently holds the bus, if any.
    pub closed spec fn holder(&self) -> Option<Device> {
        self.holder
    }

    /// Every transaction boundary the bus has seen, oldest first.
    pub closed spec fn trace(&self) -> Seq<BusEvent> {
        self.trace@
    }

    /// The bus's invariant: the trace is serial, and the holder is the device
    /// whose transaction the trace leaves open.
    pub open spec fn wf(&self) -> bool {
        &&& serial(self.trace())
        &&& self.holder() == open_transaction(self.trace())
    }

    /// A bus that has carried nothing yet.
    pub fn new() -> (bus: SharedBus)
        ensures
            bus.wf(),
            bus.holder() is None,
            bus.trace() == Seq::<BusEvent>::empty(),
    {
        SharedBus { holder: None, trace: Ghost(Seq::empty()) }
    }

    /// Whether a transaction is in flight.
    pub fn is_busy(&self) -> (busy: bool)
        ensures
            busy == self.holder() is Some,
    {
        self.holder.is_some()
    }

    /// Begins a transaction for `device`. Granted exactly when the bus is
    /// free; a busy bus is left untouched and answers `Busy`.
    pub fn acquire(&mut self, device: Device) -> (granted: Result<TransactionHandle, SensorError>)
        requires
            old(self).wf(),
        ensures
            final(self).wf(),
            old(self).holder() is None ==> {
                &&& granted is Ok
                &&& granted->Ok_0.spec_device() == device
                &&& final(self).holder() == Some(device)
                &&& final(self).trace() == old(self).trace().push(BusEvent::Begin(device))
            },
            old(self).holder() is Some ==> {
                &&& granted == Err::<TransactionHandle, SensorError>(SensorError::Busy)
                &&& final(self).holder() == old(self).holder()
                &&& final(self).trace() == old(self).trace()
            },
    {
        match self.holder {
            Some(_) => Err(SensorError::Busy),
            None => {
                self.holder = Some(device);
                self.trace = Ghost(self.trace@.push(BusEvent::Begin(device)));
                Ok(TransactionHandle { device })
            },
        }
    }

    /// Ends the transaction that `handle` stands for. Returns `true` and frees
    /// the bus exactly when `handle` belongs to the device that holds it;
    /// otherwise nothing changes.
    pub fn release(&mut self, handle: TransactionHandle) -> (released: bool)
        requires
            old(self).wf(),
        ensures
            final(self).wf(),
            released == (old(self).holder() == Some(handle.spec_device())),
            released ==> {
                &&& final(self).holder() is None
                &&& final(self).trace() == old(self).trace().push(
                    BusEvent::End(handle.spec_device()),
                )
            },
            !released ==> {
                &&& final(self).holder() == old(self).holder()
                &&& final(self).trace() == old(self).trace()
            },
    {
        match self.holder {
            Some(device) => {
                if device == handle.device {
                    self.holder = None;
                    self.trace = Ghost(self.trace@.push(BusEvent::End(device)));
                    true
                } else {
                    false
                }
            },
            None => false,
        }
    }
}

/// On a well-formed bus no two transactions interleave: whenever a transaction
/// begins at position `i` of the trace and another begins later at `j`, the
/// first one's end stands directly after its begin, before `j`.
pub proof fn lemma_transactions_never_interleave(bus: SharedBus, i: int, j: int)
    requires
        bus.wf(),
        0 <= i < j < bus.trace().len(),
        bus.trace()[i] is Begin,
        bus.trace()[j] is Begin,
    ensures
        i + 1 < j,
        bus.trace()[i + 1] == BusEvent::End(bus.trace()[i]->Begin_0),
{
    let trace = bus.trace();
    assert(may_follow(trace[i], trace[i + 1]));
}

} // verus!
