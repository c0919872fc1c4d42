//! Mapping from one sampling round to the metric record that is sent.

use crate::reading::ClimateReading;
use crate::reading::SampleRound;
use vstd::prelude::*;

verus! {

/// One record for the metrics transport: three numeric fields and one tag.
/// The numeric fields are binary32 bit patterns, as in `ClimateReading`.
#[derive(Clone, Debug, PartialEq, Eq)]
pub struct MetricRecord {
    pub temperature_bits: u32,
    pub pressure_bits: u32,
    pub humidity_bits: u32,
    pub sensor_tag: String,
}

/// Why a record did not reach the metrics collector.
#[derive(Clone, Copy, Debug, PartialEq, Eq)]
pub enum TransportError {
    /// No connection to the collector could be made.
    Connect,
    /// The connection did not take the record.
    Write,
}

/// Mathematical content of a `MetricRecord`.
pub struct RecordView {
    pub temperature_bits: u32,
    pub pressure_bits: u32,
    pub humidity_bits: u32,
    pub sensor_tag: Seq<char>,
}

impl View for MetricRecord {
    type V = RecordView;

    open spec fn view(&self) -> RecordView {
        RecordView {
            temperature_bits: self.temperature_bits,
            pressure_bits: self.pressure_bits,
            humidity_bits: self.humidity_bits,
            sensor_tag: self.sensor_tag@,
        }
    }
}

/// The tag value carried by every record.
pub open spec fn spec_sensor_tag() -> Seq<char> {
    "ens160"@
}

/// The tag value carried by every record.
pub fn sensor_tag() -> (tag: String)
    ensures
        tag@ == spec_sensor_tag(),
{
    String::from_str("ens160")
}

/// The climate values a round reports: its own reading where the sensor
/// delivered one, otherwise the values last known.
pub open spec fn reported_climate(round: SampleRound, prior: ClimateReading) -> ClimateReading {
    match round.climate {
        Some(reading) => reading,
        None => prior,
    }
}

/// The record for a round: the reported climate values, field for field, under
/// the fixed sensor tag.
pub open spec fn record_of(round: SampleRound, prior: ClimateReading) -> RecordView {
    RecordView {
        temperature_bits: reported_climate(round, prior).temperature_bits,
        pressure_bits: reported_climate(round, prior).pressure_bits,
        humidity_bits: reported_climate(round, prior).humidity_bits,
        sensor_tag: spec_sensor_tag(),
    }
}

/// Picks the climate values to report for `round`, falling back to `prior`.
pub fn climate_to_report(round: &SampleRound, prior: &ClimateReading) -> (reading: ClimateReading)
    ensures
        reading == reported_climate(*round, *prior),
{
    match round.climate {
        Some(reading) => reading,
        None => *prior,
    }
}

/// Builds the record that is sent for `round`. A round without a climate
/// reading still yields a record, filled from `prior`.
pub fn build_record(round: &SampleRound, prior: &ClimateReading) -> (record: MetricRecord)
    ensures
        record@ == record_of(*round, *prior),
{
    let climate = climate_to_report(round, prior);
    MetricRecord {
        temperature_bits: climate.temperature_bits,
        pressure_bits: climate.pressure_bits,
        humidity_bits: climate.humidity_bits,
        sensor_tag: sensor_tag(),
    }
}

/// Building a record twice from the same round and the same prior values gives
/// the same record: the mapping depends on nothing else.
pub proof fn lemma_record_depends_on_inputs_only(
    round_a: SampleRound,
    prior_a: ClimateReading,
    round_b: SampleRound,
    prior_b: ClimateReading,
)
    requires
        round_a.climate == round_b.climate,
        round_a.climate is None ==> prior_a == prior_b,
    ensures
        record_of(round_a, prior_a) == record_of(round_b, prior_b),
{
}

/// A round that holds a climate reading is reported with exactly that
/// reading's values, whatever was known before.
pub proof fn lemma_fresh_reading_is_reported(round: SampleRound, prior: ClimateReading)
    requires
        round.climate is Some,
    ensures
        record_of(round, prior).temperature_bits == round.climate->Some_0.temperature_bits,
        record_of(round, prior).pressure_bits == round.climate->Some_0.pressure_bits,
        record_of(round, prior).humidity_bits == round.climate->Some_0.humidity_bits,
{
}

} // verus!
