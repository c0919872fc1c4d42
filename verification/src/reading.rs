//! The values that one polling tick captures.

use vstd::prelude::*;

verus! {

/// Why a sensor operation produced no value.
#[derive(Clone, Copy, Debug, PartialEq, Eq)]
pub enum SensorError {
    /// The shared bus was already carrying another transaction.
    Busy,
    /// The transfer itself failed, or the device answered with nonsense.
    Transfer,
}

/// Air-quality category as the device reports it.
#[derive(Clone, Copy, Debug, PartialEq, Eq)]
pub enum AirQualityIndex {
    Unavailable,
    Excellent,
    Good,
    Moderate,
    Poor,
    Unhealthy,
    InvalidRange,
}

/// One air-quality measurement.
#[derive(Clone, Copy, Debug, PartialEq, Eq)]
pub struct AirQualityReading {
    /// CO2 equivalent, parts per million.
    pub co2_equivalent_ppm: u16,
    /// Total volatile organic compounds, parts per billion.
    pub tvoc_ppb: u16,
    pub air_quality_index: AirQualityIndex,
    /// Ethanol concentration, parts per billion.
    pub ethanol_ppb: u16,
}

/// One climate measurement. Each field is the binary32 bit pattern of the
/// measured quantity.
#[derive(Clone, Copy, Debug, PartialEq, Eq)]
pub struct ClimateReading {
    /// Relative humidity in percent.
    pub humidity_bits: u32,
    /// Temperature in degrees Celsius.
    pub temperature_bits: u32,
    /// Pressure in pascals.
    pub pressure_bits: u32,
}

/// What one tick captured: each half is absent when its sensor gave nothing.
#[derive(Clone, Copy, Debug, PartialEq, Eq)]
pub struct SampleRound {
    pub air_quality: Option<AirQualityReading>,
    pub climate: Option<ClimateReading>,
}

/// Bit pattern of 10.0, the temperature reported before any was measured.
pub const DEFAULT_TEMPERATURE_BITS: u32 = 0x4120_0000;

/// Bit pattern of 1e10, the pressure reported before any was measured.
pub const DEFAULT_PRESSURE_BITS: u32 = 0x5015_02F9;

/// Bit pattern of 50.0, the humidity reported before any was measured.
pub const DEFAULT_HUMIDITY_BITS: u32 = 0x4248_0000;

impl ClimateReading {
    /// The reading that stands in until the climate sensor has delivered one.
    pub open spec fn spec_placeholder() -> ClimateReading {
        ClimateReading {
            humidity_bits: DEFAULT_HUMIDITY_BITS,
            temperature_bits: DEFAULT_TEMPERATURE_BITS,
            pressure_bits: DEFAULT_PRESSURE_BITS,
        }
    }

    /// The reading that stands in until the climate sensor has delivered one.
    pub fn placeholder() -> (reading: ClimateReading)
        ensures
            reading == Self::spec_placeholder(),
    {
        ClimateReading {
            humidity_bits: DEFAULT_HUMIDITY_BITS,
            temperature_bits: DEFAULT_TEMPERATURE_BITS,
            pressure_bits: DEFAULT_PRESSURE_BITS,
        }
    }
}

impl SampleRound {
    /// A round in which neither sensor has delivered anything.
    pub open spec fn spec_empty() -> SampleRound {
        SampleRound { air_quality: None, climate: None }
    }

    /// A round in which neither sensor has delivered anything.
    pub fn empty() -> (round: SampleRound)
        ensures
            round == Self::spec_empty(),
    {
        SampleRound { air_quality: None, climate: None }
    }
}

} // verus!
