//! Start-up as a state machine: the order of bring-up, and which failures
//! abort before the polling loop is entered.
//!
//! The caller performs each action and reports its outcome:
//!
//! ```text
//! OpeningBus --BusOpened(true)--> SettlingBus              asks: Settle(250)
//!   --Settled--> InitializingClimate                       asks: InitializeClimate
//!   --ClimateInitialized(true)--> InitializingAirQuality   asks: InitializeAirQuality
//!   --AirQualityInitialized(any)--> SettlingAirQuality     asks: Settle(250)
//!   --Settled--> Running                                   asks: EnterLoop
//! ```
//!
//! A bus that does not open and a climate sensor that does not initialize
//! abort start-up. An air-quality sensor that does not initialize is only
//! noted: it may recover, or stay unready.

use vstd::prelude::*;

verus! {

/// Pause after opening the bus and after bringing up the air-quality sensor,
/// in milliseconds.
pub const SETTLE_MS: u64 = 250;

/// A failure that ends the process before the polling loop starts.
#[derive(Clone, Copy, Debug, PartialEq, Eq)]
pub enum StartupError {
    /// The bus could not be opened.
    BusOpenFailed,
    /// The climate sensor did not take its initial configuration.
    ClimateInitFailed,
}

/// How far start-up has come.
#[derive(Clone, Copy, Debug, PartialEq, Eq)]
pub enum StartupPhase {
    OpeningBus,
    SettlingBus,
    InitializingClimate,
    InitializingAirQuality,
    SettlingAirQuality { initialized: bool },
    /// Start-up is over and the polling loop is entered. The flag records
    /// whether the air-quality sensor came up.
    Running { air_quality_initialized: bool },
    /// Start-up failed; the loop is never entered.
    Aborted(StartupError),
}

/// Outcome of one start-up action; `true` is success.
#[derive(Clone, Copy, Debug, PartialEq, Eq)]
pub enum StartupEvent {
    BusOpened(bool),
    Settled,
    ClimateInitialized(bool),
    AirQualityInitialized(bool),
}

/// What the caller is asked to do next during start-up.
#[derive(Clone, Copy, Debug, PartialEq, Eq)]
pub enum StartupAction {
    /// Open the bus, then report `BusOpened`.
    OpenBus,
    /// Sleep for this many milliseconds, then report `Settled`.
    Settle(u64),
    /// Initialize the climate sensor, then report `ClimateInitialized`.
    InitializeClimate,
    /// Initialize the air-quality sensor, then report `AirQualityInitialized`.
    InitializeAirQuality,
    /// Start the polling loop.
    EnterLoop,
    /// End the process with this failure.
    Abort(StartupError),
    /// The event does not belong to the current phase; nothing changed.
    Ignored,
}

/// The phase that follows `phase` on `event`, and the action asked for.
pub open spec fn spec_startup_step(phase: StartupPhase, event: StartupEvent) -> (
    StartupPhase,
    StartupAction,
) {
    match (phase, event) {
        (StartupPhase::OpeningBus, StartupEvent::BusOpened(ok)) => if ok {
            (StartupPhase::SettlingBus, StartupAction::Settle(SETTLE_MS))
        } else {
            (
                StartupPhase::Aborted(StartupError::BusOpenFailed),
                StartupAction::Abort(StartupError::BusOpenFailed),
            )
        },
        (StartupPhase::SettlingBus, StartupEvent::Settled) => (
            StartupPhase::InitializingClimate,
            StartupAction::InitializeClimate,
        ),
        (StartupPhase::InitializingClimate, StartupEvent::ClimateInitialized(ok)) => if ok {
            (StartupPhase::InitializingAirQuality, StartupAction::InitializeAirQuality)
        } else {
            (
                StartupPhase::Aborted(StartupError::ClimateInitFailed),
                StartupAction::Abort(StartupError::ClimateInitFailed),
            )
        },
        (StartupPhase::InitializingAirQuality, StartupEvent::AirQualityInitialized(ok)) => (
            StartupPhase::SettlingAirQuality { initialized: ok },
            StartupAction::Settle(SETTLE_MS),
        ),
        (StartupPhase::SettlingAirQuality { initialized }, StartupEvent::Settled) => (
            StartupPhase::Running { air_quality_initialized: initialized },
            StartupAction::EnterLoop,
        ),
        _ => (phase, StartupAction::Ignored),
    }
}

/// Whether the polling loop is entered in this phase.
pub open spec fn spec_enters_loop(phase: StartupPhase) -> bool {
    phase is Running
}

/// The phase start-up begins in, and the first thing to do.
pub fn startup_begin() -> (first: (StartupPhase, StartupAction))
    ensures
        first == (StartupPhase::OpeningBus, StartupAction::OpenBus),
{
    (StartupPhase::OpeningBus, StartupAction::OpenBus)
}

/// Takes the outcome of one start-up action and gives the next phase and the
/// next action.
pub fn startup_step(phase: StartupPhase, event: StartupEvent) -> (next: (
    StartupPhase,
    StartupAction,
))
    ensures
        next == spec_startup_step(phase, event),
{
    match (phase, event) {
        (StartupPhase::OpeningBus, StartupEvent::BusOpened(ok)) => {
            if ok {
                (StartupPhase::SettlingBus, StartupAction::Settle(SETTLE_MS))
            } else {
                (
                    StartupPhase::Aborted(StartupError::BusOpenFailed),
                    StartupAction::Abort(StartupError::BusOpenFailed),
                )
            }
        },
        (StartupPhase::SettlingBus, StartupEvent::Settled) => {
            (StartupPhase::InitializingClimate, StartupAction::InitializeClimate)
        },
        (StartupPhase::InitializingClimate, StartupEvent::ClimateInitialized(ok)) => {
            if ok {
                (StartupPhase::InitializingAirQuality, StartupAction::InitializeAirQuality)
            } else {
                (
                    StartupPhase::Aborted(StartupError::ClimateInitFailed),
                    StartupAction::Abort(StartupError::ClimateInitFailed),
                )
            }
        },
        (StartupPhase::InitializingAirQuality, StartupEvent::AirQualityInitialized(ok)) => {
            (StartupPhase::SettlingAirQuality { initialized: ok }, StartupAction::Settle(SETTLE_MS))
        },
        (StartupPhase::SettlingAirQuality { initialized }, StartupEvent::Settled) => {
            (StartupPhase::Running { air_quality_initialized: initialized }, StartupAction::EnterLoop)
        },
        _ => (phase, StartupAction::Ignored),
    }
}

/// Whether the polling loop is entered in this phase.
pub fn enters_loop(phase: StartupPhase) -> (entered: bool)
    ensures
        entered == spec_enters_loop(phase),
{
    match phase {
        StartupPhase::Running { .. } => true,
        _ => false,
    }
}

/// The phase reached from the start when the start-up actions are performed
/// in the order asked for, with these outcomes. Outcomes of actions that were
/// never asked for (because start-up had aborted) are reported all the same,
/// and change nothing.
pub open spec fn startup_run(bus: bool, climate: bool, air_quality: bool) -> StartupPhase {
    let opened = spec_startup_step(StartupPhase::OpeningBus, StartupEvent::BusOpened(bus)).0;
    let settled = spec_startup_step(opened, StartupEvent::Settled).0;
    let with_climate = spec_startup_step(settled, StartupEvent::ClimateInitialized(climate)).0;
    let with_air = spec_startup_step(
        with_climate,
        StartupEvent::AirQualityInitialized(air_quality),
    ).0;
    spec_startup_step(with_air, StartupEvent::Settled).0
}

/// The loop is entered exactly when the bus opened and the climate sensor
/// initialized; the air-quality sensor's outcome is only recorded. A bus
/// failure aborts whatever is reported afterwards, and so does a climate
/// failure on an open bus.
pub proof fn lemma_startup_policy(bus: bool, climate: bool, air_quality: bool)
    ensures
        spec_enters_loop(startup_run(bus, climate, air_quality)) <==> bus && climate,
        !bus ==> startup_run(bus, climate, air_quality) == StartupPhase::Aborted(
            StartupError::BusOpenFailed,
        ),
        bus && !climate ==> startup_run(bus, climate, air_quality) == StartupPhase::Aborted(
            StartupError::ClimateInitFailed,
        ),
        bus && climate ==> startup_run(bus, climate, air_quality) == (StartupPhase::Running {
            air_quality_initialized: air_quality,
        }),
{
}

/// Once aborted, start-up stays aborted: no later event enters the loop or
/// asks for anything.
pub proof fn lemma_abort_is_final(error: StartupError, event: StartupEvent)
    ensures
        spec_startup_step(StartupPhase::Aborted(error), event) == (
            StartupPhase::Aborted(error),
            StartupAction::Ignored,
        ),
{
}

/// The loop is entered only by the last settle pause, which is only reached
/// past an opened bus and an initialized climate sensor: `EnterLoop` is asked
/// for exactly on `Settled` in the phase after air-quality bring-up.
pub proof fn lemma_enter_loop_only_after_bring_up(phase: StartupPhase, event: StartupEvent)
    ensures
        spec_startup_step(phase, event).1 == StartupAction::EnterLoop <==> (phase
            is SettlingAirQuality && event is Settled),
        spec_startup_step(phase, event).0 is Running ==> phase is Running || (phase
            is SettlingAirQuality && event is Settled),
{
}

} // verus!
