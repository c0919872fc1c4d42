use sensor_poller::startup::{
    enters_loop, startup_begin, startup_step, StartupAction, StartupError, StartupEvent,
    StartupPhase, SETTLE_MS,
};

/// Reports the five outcomes in order, whether or not they were asked for.
fn run(bus: bool, climate: bool, air_quality: bool) -> StartupPhase {
    let (mut phase, first) = startup_begin();
    assert_eq!(first, StartupAction::OpenBus);
    for event in [
        StartupEvent::BusOpened(bus),
        StartupEvent::Settled,
        StartupEvent::ClimateInitialized(climate),
        StartupEvent::AirQualityInitialized(air_quality),
        StartupEvent::Settled,
    ] {
        phase = startup_step(phase, event).0;
    }
    phase
}

#[test]
fn bus_failure_aborts_before_the_loop() {
    assert_eq!(
        startup_step(StartupPhase::OpeningBus, StartupEvent::BusOpened(false)),
        (
            StartupPhase::Aborted(StartupError::BusOpenFailed),
            StartupAction::Abort(StartupError::BusOpenFailed)
        )
    );
    for climate in [false, true] {
        for air in [false, true] {
            let phase = run(false, climate, air);
            assert_eq!(phase, StartupPhase::Aborted(StartupError::BusOpenFailed));
            assert!(!enters_loop(phase));
        }
    }
}

#[test]
fn climate_init_failure_aborts_before_the_loop() {
    assert_eq!(
        startup_step(StartupPhase::InitializingClimate, StartupEvent::ClimateInitialized(false)),
        (
            StartupPhase::Aborted(StartupError::ClimateInitFailed),
            StartupAction::Abort(StartupError::ClimateInitFailed)
        )
    );
    for air in [false, true] {
        let phase = run(true, false, air);
        assert_eq!(phase, StartupPhase::Aborted(StartupError::ClimateInitFailed));
        assert!(!enters_loop(phase));
    }
}

#[test]
fn air_quality_init_failure_still_enters_the_loop() {
    let phase = run(true, true, false);
    assert_eq!(phase, StartupPhase::Running { air_quality_initialized: false });
    assert!(enters_loop(phase));
}

#[test]
fn clean_startup_enters_the_loop() {
    let phase = run(true, true, true);
    assert_eq!(phase, StartupPhase::Running { air_quality_initialized: true });
    assert!(enters_loop(phase));
}

#[test]
fn startup_asks_for_each_step_in_order() {
    assert_eq!(SETTLE_MS, 250);
    let (phase, action) = startup_begin();
    assert_eq!((phase, action), (StartupPhase::OpeningBus, StartupAction::OpenBus));
    let (phase, action) = startup_step(phase, StartupEvent::BusOpened(true));
    assert_eq!((phase, action), (StartupPhase::SettlingBus, StartupAction::Settle(250)));
    let (phase, action) = startup_step(phase, StartupEvent::Settled);
    assert_eq!(
        (phase, action),
        (StartupPhase::InitializingClimate, StartupAction::InitializeClimate)
    );
    let (phase, action) = startup_step(phase, StartupEvent::ClimateInitialized(true));
    assert_eq!(
        (phase, action),
        (StartupPhase::InitializingAirQuality, StartupAction::InitializeAirQuality)
    );
    assert!(!enters_loop(phase));
    let (phase, action) = startup_step(phase, StartupEvent::AirQualityInitialized(false));
    assert_eq!(
        (phase, action),
        (StartupPhase::SettlingAirQuality { initialized: false }, StartupAction::Settle(250))
    );
    assert!(!enters_loop(phase));
    let (phase, action) = startup_step(phase, StartupEvent::Settled);
    assert_eq!(
        (phase, action),
        (StartupPhase::Running { air_quality_initialized: false }, StartupAction::EnterLoop)
    );
}

#[test]
fn startup_events_out_of_order_change_nothing() {
    assert_eq!(
        startup_step(StartupPhase::OpeningBus, StartupEvent::ClimateInitialized(true)),
        (StartupPhase::OpeningBus, StartupAction::Ignored)
    );
    assert_eq!(
        startup_step(
            StartupPhase::Running { air_quality_initialized: true },
            StartupEvent::BusOpened(false)
        ),
        (StartupPhase::Running { air_quality_initialized: true }, StartupAction::Ignored)
    );
    assert_eq!(
        startup_step(StartupPhase::Aborted(StartupError::BusOpenFailed), StartupEvent::Settled),
        (StartupPhase::Aborted(StartupError::BusOpenFailed), StartupAction::Ignored)
    );
}
