use sensor_poller::air_quality::{accept_measurement, poll_ready, NEW_DATA_READY_MASK};
use sensor_poller::emitter::{build_record, climate_to_report, sensor_tag};
use sensor_poller::climate::accept_climate;
use sensor_poller::reading::{
    AirQualityIndex, AirQualityReading, ClimateReading, SampleRound, SensorError,
};

fn reading() -> AirQualityReading {
    AirQualityReading {
        co2_equivalent_ppm: 450,
        tvoc_ppb: 120,
        air_quality_index: AirQualityIndex::Good,
        ethanol_ppb: 5,
    }
}

#[test]
fn poll_ready_follows_bit_one_of_the_status_byte() {
    assert_eq!(NEW_DATA_READY_MASK, 0x02);
    assert!(poll_ready(Ok(0x02)));
    assert!(poll_ready(Ok(0x83)));
    assert!(!poll_ready(Ok(0x00)));
    assert!(!poll_ready(Ok(0x01)));
    assert!(!poll_ready(Ok(0xFD)));
}

#[test]
fn poll_ready_agrees_with_the_driver_on_every_status_byte() {
    for raw in 0..=255u8 {
        let by_driver = ens160_aq::data::Status(raw).new_data_ready();
        assert_eq!(poll_ready(Ok(raw)), by_driver);
        assert_eq!(poll_ready(Ok(raw)), raw & 0x02 != 0);
    }
}

#[test]
fn poll_ready_swallows_failures() {
    assert!(!poll_ready(Err(SensorError::Busy)));
    assert!(!poll_ready(Err(SensorError::Transfer)));
}

#[test]
fn accept_measurement_keeps_success_and_drops_failure() {
    assert_eq!(accept_measurement(Ok(reading())), Some(reading()));
    assert_eq!(accept_measurement(Err(SensorError::Transfer)), None);
    assert_eq!(accept_measurement(Err(SensorError::Busy)), None);
}

#[test]
fn accept_climate_keeps_success_and_drops_failure() {
    let c = ClimateReading { humidity_bits: 1, temperature_bits: 2, pressure_bits: 3 };
    assert_eq!(accept_climate(Ok(c)), Some(c));
    assert_eq!(accept_climate(Err(SensorError::Transfer)), None);
}

#[test]
fn record_takes_fields_from_the_reading() {
    let c = ClimateReading {
        humidity_bits: 50.0f32.to_bits(),
        temperature_bits: 21.5f32.to_bits(),
        pressure_bits: 101325.0f32.to_bits(),
    };
    let round = SampleRound { air_quality: Some(reading()), climate: Some(c) };
    let record = build_record(&round, &ClimateReading::placeholder());
    assert_eq!(record.temperature_bits, 0x41AC_0000);
    assert_eq!(record.pressure_bits, 0x47C5_E680);
    assert_eq!(record.humidity_bits, 0x4248_0000);
    assert_eq!(record.sensor_tag, "ens160");
    assert_eq!(climate_to_report(&round, &ClimateReading::placeholder()), c);
}

#[test]
fn record_falls_back_to_prior_values() {
    let prior = ClimateReading { humidity_bits: 7, temperature_bits: 8, pressure_bits: 9 };
    let round = SampleRound { air_quality: Some(reading()), climate: None };
    let record = build_record(&round, &prior);
    assert_eq!(record.humidity_bits, 7);
    assert_eq!(record.temperature_bits, 8);
    assert_eq!(record.pressure_bits, 9);
    assert_eq!(climate_to_report(&round, &prior), prior);
    assert_eq!(climate_to_report(&SampleRound::empty(), &prior), prior);
}

#[test]
fn record_does_not_depend_on_air_quality() {
    let c = ClimateReading { humidity_bits: 11, temperature_bits: 12, pressure_bits: 13 };
    let prior = ClimateReading::placeholder();
    let with = build_record(&SampleRound { air_quality: Some(reading()), climate: Some(c) }, &prior);
    let without = build_record(&SampleRound { air_quality: None, climate: Some(c) }, &prior);
    assert_eq!(with, without);
}

#[test]
fn sensor_tag_is_fixed() {
    assert_eq!(sensor_tag(), "ens160");
}
