//! The polling loop as a state machine.
//!
//! The caller owns the timer, the sensors and the transport. It performs the
//! action the machine asks for and reports the outcome as the next event:
//!
//! ```text
//! Idle --TimerElapsed--> Polling(Readiness)      asks: QueryReadiness
//!   --Readiness(ready)--> Polling(AirQuality)    asks: FetchAirQuality
//!   --Readiness(other)--> Polling(Climate)       asks: ReadClimate
//!   --AirQuality(..)----> Polling(Climate)       asks: ReadClimate
//!   --Climate(..)-------> Emitting               asks: Emit(record)
//!   --Emitted(Ok)-------> Idle                   asks: Sleep(interval)
//! ```
//!
//! No sensor failure stops the loop. It stops when the transport refuses a
//! record, or when the optional tick limit is reached.

use crate::air_quality::accept_measurement;
use crate::air_quality::poll_ready;
use crate::air_quality::spec_accept_measurement;
use crate::air_quality::spec_poll_ready;
use crate::bus::lemma_begin_keeps_serial;
use crate::bus::lemma_end_keeps_serial;
use crate::bus::open_transaction;
use crate::bus::serial;
use crate::bus::BusEvent;
use crate::bus::Device;
use crate::climate::accept_climate;
use crate::climate::spec_accept_climate;
use crate::emitter::build_record;
use crate::emitter::climate_to_report;
use crate::emitter::record_of;
use crate::emitter::reported_climate;
use crate::emitter::MetricRecord;
use crate::emitter::RecordView;
use crate::emitter::TransportError;
use crate::reading::AirQualityReading;
use crate::reading::ClimateReading;
use crate::reading::SampleRound;
use crate::reading::SensorError;
use vstd::prelude::*;

verus! {

/// Time between the end of one tick and the start of the next, in
/// milliseconds, unless the caller chooses another.
pub const DEFAULT_INTERVAL_MS: u64 = 1000;

/// Which sensor outcome the machine is waiting for while polling.
#[derive(Clone, Copy, Debug, PartialEq, Eq)]
pub enum Stage {
    Readiness,
    AirQuality,
    Climate,
}

/// Where in the tick the loop stands.
#[derive(Clone, Copy, Debug, PartialEq, Eq)]
pub enum Phase {
    /// Sleeping until the interval has elapsed.
    Idle,
    /// Waiting for a sensor outcome.
    Polling(Stage),
    /// Waiting for the transport to take the record.
    Emitting,
    /// The loop has ended and reacts to nothing.
    Stopped,
}

/// What the caller reports back.
#[derive(Clone, Copy, Debug, PartialEq, Eq)]
pub enum Event {
    /// The sleep asked for is over.
    TimerElapsed,
    /// Outcome of the status query: the raw status byte, or the failure.
    Readiness(Result<u8, SensorError>),
    /// Outcome of the air-quality fetch.
    AirQuality(Result<AirQualityReading, SensorError>),
    /// Outcome of the climate read.
    Climate(Result<ClimateReading, SensorError>),
    /// Outcome of sending the record.
    Emitted(Result<(), TransportError>),
}

/// Why the loop ends.
#[derive(Clone, Copy, Debug, PartialEq, Eq)]
pub enum StopReason {
    /// The tick limit was reached.
    LimitReached,
    /// The transport did not take a record. The record is lost: nothing is
    /// buffered and nothing is sent again.
    Transport(TransportError),
}

/// What the caller is asked to do next.
#[derive(Clone, Debug, PartialEq, Eq)]
pub enum Action {
    /// Sleep for this many milliseconds, then report `TimerElapsed`.
    Sleep(u64),
    /// Query the air-quality sensor's status, then report `Readiness`.
    QueryReadiness,
    /// Fetch the air-quality measurement, then report `AirQuality`.
    FetchAirQuality,
    /// Read the climate sensor, then report `Climate`.
    ReadClimate,
    /// Send this record, then report `Emitted`.
    Emit(MetricRecord),
    /// Leave the loop, for this reason.
    Stop(StopReason),
    /// The event does not belong to the current phase; nothing changed.
    Ignored,
}

/// Mathematical content of an `Action`.
pub enum ActionView {
    Sleep(u64),
    QueryReadiness,
    FetchAirQuality,
    ReadClimate,
    Emit(RecordView),
    Stop(StopReason),
    Ignored,
}

impl View for Action {
    type V = ActionView;

    open spec fn view(&self) -> ActionView {
        match self {
            Action::Sleep(ms) => ActionView::Sleep(*ms),
            Action::QueryReadiness => ActionView::QueryReadiness,
            Action::FetchAirQuality => ActionView::FetchAirQuality,
            Action::ReadClimate => ActionView::ReadClimate,
            Action::Emit(record) => ActionView::Emit(record@),
            Action::Stop(reason) => ActionView::Stop(*reason),
            Action::Ignored => ActionView::Ignored,
        }
    }
}

/// The loop's whole state.
#[derive(Clone, Copy, Debug, PartialEq, Eq)]
pub struct PollingLoop {
    pub phase: Phase,
    /// What the current tick has captured so far.
    pub round: SampleRound,
    /// The climate values last reported, used when a read fails.
    pub last_climate: ClimateReading,
    /// Sleep between ticks, in milliseconds.
    pub interval_ms: u64,
    /// Ticks whose record the transport took (saturating).
    pub completed: u64,
    /// Stop once this many ticks are completed; `None` runs forever.
    pub limit: Option<u64>,
}

/// The tick counter after one more completed tick.
pub open spec fn count_up(completed: u64) -> u64 {
    if completed < u64::MAX {
        (completed + 1) as u64
    } else {
        completed
    }
}

/// Whether a loop with this limit is done after `completed` ticks.
pub open spec fn limit_reached(limit: Option<u64>, completed: u64) -> bool {
    match limit {
        Some(n) => completed >= n,
        None => false,
    }
}

/// The round as it stands once the climate read has been reported.
pub open spec fn round_with_climate(
    s: PollingLoop,
    read: Result<ClimateReading, SensorError>,
) -> SampleRound {
    SampleRound { air_quality: s.round.air_quality, climate: spec_accept_climate(read) }
}

/// The state that follows `s` on `event`.
pub open spec fn next_state(s: PollingLoop, event: Event) -> PollingLoop {
    match (s.phase, event) {
        (Phase::Idle, Event::TimerElapsed) => PollingLoop {
            phase: Phase::Polling(Stage::Readiness),
            round: SampleRound::spec_empty(),
            ..s
        },
        (Phase::Polling(Stage::Readiness), Event::Readiness(status)) => if spec_poll_ready(
            status,
        ) {
            PollingLoop { phase: Phase::Polling(Stage::AirQuality), ..s }
        } else {
            PollingLoop {
                phase: Phase::Polling(Stage::Climate),
                round: SampleRound { air_quality: None, climate: s.round.climate },
                ..s
            }
        },
        (Phase::Polling(Stage::AirQuality), Event::AirQuality(fetched)) => PollingLoop {
            phase: Phase::Polling(Stage::Climate),
            round: SampleRound {
                air_quality: spec_accept_measurement(fetched),
                climate: s.round.climate,
            },
            ..s
        },
        (Phase::Polling(Stage::Climate), Event::Climate(read)) => PollingLoop {
            phase: Phase::Emitting,
            round: round_with_climate(s, read),
            last_climate: reported_climate(round_with_climate(s, read), s.last_climate),
            ..s
        },
        (Phase::Emitting, Event::Emitted(Ok(_))) => PollingLoop {
            phase: if limit_reached(s.limit, count_up(s.completed)) {
                Phase::Stopped
            } else {
                Phase::Idle
            },
            completed: count_up(s.completed),
            ..s
        },
        (Phase::Emitting, Event::Emitted(Err(_))) => PollingLoop { phase: Phase::Stopped, ..s },
        _ => s,
    }
}

/// The action that `s` asks for on `event`.
pub open spec fn next_action(s: PollingLoop, event: Event) -> ActionView {
    match (s.phase, event) {
        (Phase::Idle, Event::TimerElapsed) => ActionView::QueryReadiness,
        (Phase::Polling(Stage::Readiness), Event::Readiness(status)) => if spec_poll_ready(
            status,
        ) {
            ActionView::FetchAirQuality
        } else {
            ActionView::ReadClimate
        },
        (Phase::Polling(Stage::AirQuality), Event::AirQuality(_)) => ActionView::ReadClimate,
        (Phase::Polling(Stage::Climate), Event::Climate(read)) => ActionView::Emit(
            record_of(round_with_climate(s, read), s.last_climate),
        ),
        (Phase::Emitting, Event::Emitted(Ok(_))) => if limit_reached(
            s.limit,
            count_up(s.completed),
        ) {
            ActionView::Stop(StopReason::LimitReached)
        } else {
            ActionView::Sleep(s.interval_ms)
        },
        (Phase::Emitting, Event::Emitted(Err(error))) => ActionView::Stop(
            StopReason::Transport(error),
        ),
        _ => ActionView::Ignored,
    }
}

impl PollingLoop {
    /// The state a fresh loop starts in.
    pub open spec fn spec_new(interval_ms: u64, limit: Option<u64>) -> PollingLoop {
        PollingLoop {
            phase: Phase::Idle,
            round: SampleRound::spec_empty(),
            last_climate: ClimateReading::spec_placeholder(),
            interval_ms,
            completed: 0,
            limit,
        }
    }

    /// A fresh loop: idle, nothing captured, the placeholder climate values as
    /// the last known ones, no tick completed.
    pub fn new(interval_ms: u64, limit: Option<u64>) -> (fresh: PollingLoop)
        ensures
            fresh == Self::spec_new(interval_ms, limit),
    {
        PollingLoop {
            phase: Phase::Idle,
            round: SampleRound::empty(),
            last_climate: ClimateReading::placeholder(),
            interval_ms,
            completed: 0,
            limit,
        }
    }

    /// What the caller does before the first event: sleep one interval.
    pub fn initial_action(&self) -> (action: Action)
        ensures
            action@ == ActionView::Sleep(self.interval_ms),
    {
        Action::Sleep(self.interval_ms)
    }

    /// Takes one event, moves to the next state and says what to do next.
    pub fn step(&mut self, event: Event) -> (action: Action)
        ensures
            *final(self) == next_state(*old(self), event),
            action@ == next_action(*old(self), event),
    {
        match (self.phase, event) {
            (Phase::Idle, Event::TimerElapsed) => {
                self.phase = Phase::Polling(Stage::Readiness);
                self.round = SampleRound::empty();
                Action::QueryReadiness
            },
            (Phase::Polling(Stage::Readiness), Event::Readiness(status)) => {
                if poll_ready(status) {
                    self.phase = Phase::Polling(Stage::AirQuality);
                    Action::FetchAirQuality
                } else {
                    self.phase = Phase::Polling(Stage::Climate);
                    self.round.air_quality = None;
                    Action::ReadClimate
                }
            },
            (Phase::Polling(Stage::AirQuality), Event::AirQuality(fetched)) => {
                self.phase = Phase::Polling(Stage::Climate);
                self.round.air_quality = accept_measurement(fetched);
                Action::ReadClimate
            },
            (Phase::Polling(Stage::Climate), Event::Climate(read)) => {
                self.phase = Phase::Emitting;
                self.round.climate = accept_climate(read);
                let record = build_record(&self.round, &self.last_climate);
                self.last_climate = climate_to_report(&self.round, &self.last_climate);
                Action::Emit(record)
            },
            (Phase::Emitting, Event::Emitted(Ok(_))) => {
                if self.completed < u64::MAX {
                    self.completed = self.completed + 1;
                }
                let done = match self.limit {
                    Some(n) => self.completed >= n,
                    None => false,
                };
                if done {
                    self.phase = Phase::Stopped;
                    Action::Stop(StopReason::LimitReached)
                } else {
                    self.phase = Phase::Idle;
                    Action::Sleep(self.interval_ms)
                }
            },
            (Phase::Emitting, Event::Emitted(Err(error))) => {
                self.phase = Phase::Stopped;
                Action::Stop(StopReason::Transport(error))
            },
            _ => Action::Ignored,
        }
    }
}

/// The device whose transaction is under way while the loop waits in `phase`.
pub open spec fn in_flight(phase: Phase) -> Option<Device> {
    match phase {
        Phase::Polling(Stage::Readiness) => Some(Device::AirQuality),
        Phase::Polling(Stage::AirQuality) => Some(Device::AirQuality),
        Phase::Polling(Stage::Climate) => Some(Device::Climate),
        _ => None,
    }
}

/// The bus trace after the loop in state `s` has taken `event`: the
/// transaction that the event reports on has ended, and the one that the next
/// action asks for has begun. An ignored event touches nothing.
pub open spec fn wire_after(trace: Seq<BusEvent>, s: PollingLoop, event: Event) -> Seq<BusEvent> {
    if next_action(s, event) == ActionView::Ignored {
        trace
    } else {
        let ended = match in_flight(s.phase) {
            Some(device) => trace.push(BusEvent::End(device)),
            None => trace,
        };
        match in_flight(next_state(s, event).phase) {
            Some(device) => ended.push(BusEvent::Begin(device)),
            None => ended,
        }
    }
}

/// The loop keeps the bus serial. If the trace so far is serial and leaves
/// open exactly the transaction the loop is waiting for, then after any event
/// the same holds again: the loop never asks one sensor for a transaction
/// while the other's is under way.
pub proof fn lemma_loop_keeps_bus_serial(trace: Seq<BusEvent>, s: PollingLoop, event: Event)
    requires
        serial(trace),
        open_transaction(trace) == in_flight(s.phase),
    ensures
        serial(wire_after(trace, s, event)),
        open_transaction(wire_after(trace, s, event)) == in_flight(next_state(s, event).phase),
{
    if next_action(s, event) != ActionView::Ignored {
        let ended = match in_flight(s.phase) {
            Some(device) => trace.push(BusEvent::End(device)),
            None => trace,
        };
        if let Some(device) = in_flight(s.phase) {
            lemma_end_keeps_serial(trace, device);
        }
        if let Some(device) = in_flight(next_state(s, event).phase) {
            lemma_begin_keeps_serial(ended, device);
        }
    }
}

/// Everything the sensors report during one tick.
pub struct SensorOutputs {
    pub status: Result<u8, SensorError>,
    /// Outcome of the fetch; it is only looked at when `status` is ready.
    pub air_quality: Result<AirQualityReading, SensorError>,
    pub climate: Result<ClimateReading, SensorError>,
}

/// The state after the sensor part of a tick: the timer fires, readiness is
/// reported, the fetch is reported if (and only if) it was asked for, and the
/// climate read is reported.
pub open spec fn after_polling(s: PollingLoop, out: SensorOutputs) -> PollingLoop {
    next_state(before_climate(s, out), Event::Climate(out.climate))
}

/// The state of a tick just before the climate read is reported.
pub open spec fn before_climate(s: PollingLoop, out: SensorOutputs) -> PollingLoop {
    let asked = next_state(next_state(s, Event::TimerElapsed), Event::Readiness(out.status));
    if next_action(next_state(s, Event::TimerElapsed), Event::Readiness(out.status))
        == ActionView::FetchAirQuality {
        next_state(asked, Event::AirQuality(out.air_quality))
    } else {
        asked
    }
}

/// The action that ends the sensor part of a tick.
pub open spec fn polling_result(s: PollingLoop, out: SensorOutputs) -> ActionView {
    next_action(before_climate(s, out), Event::Climate(out.climate))
}

/// The fetch is asked for only in answer to a readiness report that says
/// ready: in no other phase and on no other event.
pub proof fn lemma_fetch_only_after_ready(s: PollingLoop, event: Event)
    ensures
        next_action(s, event) == ActionView::FetchAirQuality <==> (s.phase == Phase::Polling(
            Stage::Readiness,
        ) && event is Readiness && spec_poll_ready(event->Readiness_0)),
{
}

/// In a tick whose readiness report is not ready (or failed), the fetch is not
/// asked for and the round holds no air-quality reading, whatever the fetch
/// would have returned.
pub proof fn lemma_not_ready_gives_no_air_quality(s: PollingLoop, out: SensorOutputs)
    requires
        s.phase == Phase::Idle,
        !spec_poll_ready(out.status),
    ensures
        next_action(next_state(s, Event::TimerElapsed), Event::Readiness(out.status))
            == ActionView::ReadClimate,
        before_climate(s, out).round.air_quality is None,
        after_polling(s, out).round.air_quality is None,
{
}

/// Every tick ends its sensor part by asking for exactly one emission,
/// whatever the sensors reported. The round holds what succeeded, and the
/// record carries this tick's climate values, or the last known ones where the
/// read failed.
pub proof fn lemma_every_tick_emits(s: PollingLoop, out: SensorOutputs)
    requires
        s.phase == Phase::Idle,
    ensures
        after_polling(s, out).phase == Phase::Emitting,
        after_polling(s, out).round.air_quality == (if spec_poll_ready(out.status) {
            spec_accept_measurement(out.air_quality)
        } else {
            None
        }),
        after_polling(s, out).round.climate == spec_accept_climate(out.climate),
        polling_result(s, out) == ActionView::Emit(
            record_of(after_polling(s, out).round, s.last_climate),
        ),
        after_polling(s, out).last_climate == reported_climate(
            after_polling(s, out).round,
            s.last_climate,
        ),
{
}

/// A failed climate read does not end the loop: the tick still emits, with
/// the last known climate values, and once the transport has taken the record
/// the loop is idle again and asks for the next sleep (unless the tick limit
/// ends it there).
pub proof fn lemma_climate_failure_keeps_loop_running(s: PollingLoop, out: SensorOutputs)
    requires
        s.phase == Phase::Idle,
        out.climate is Err,
        !limit_reached(s.limit, count_up(s.completed)),
    ensures
        polling_result(s, out) == ActionView::Emit(
            record_of(SampleRound::spec_empty(), s.last_climate),
        ),
        next_state(after_polling(s, out), Event::Emitted(Ok(()))).phase == Phase::Idle,
        next_action(after_polling(s, out), Event::Emitted(Ok(()))) == ActionView::Sleep(
            s.interval_ms,
        ),
        next_action(next_state(after_polling(s, out), Event::Emitted(Ok(()))), Event::TimerElapsed)
            == ActionView::QueryReadiness,
{
}

/// Two ticks in a row with the same sensor outputs emit the same record.
pub proof fn lemma_repeated_outputs_repeat_record(s: PollingLoop, out: SensorOutputs)
    requires
        s.phase == Phase::Idle,
        !limit_reached(s.limit, count_up(s.completed)),
    ensures
        polling_result(next_state(after_polling(s, out), Event::Emitted(Ok(()))), out)
            == polling_result(s, out),
{
}

/// No sensor outcome ever stops the loop: `Stop` is asked for only in answer
/// to the transport's report.
pub proof fn lemma_only_emission_stops(s: PollingLoop, event: Event)
    ensures
        next_action(s, event) is Stop ==> s.phase == Phase::Emitting && event is Emitted,
        next_state(s, event).phase == Phase::Stopped ==> s.phase == Phase::Stopped || (s.phase
            == Phase::Emitting && event is Emitted),
{
}

} // verus!
