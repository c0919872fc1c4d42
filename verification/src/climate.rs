//! Adapter rule for the blocking-read climate sensor.

use crate::reading::ClimateReading;
use crate::reading::SensorError;
use vstd::prelude::*;

verus! {

/// What a climate read contributes to the round: the reading, or nothing.
pub open spec fn spec_accept_climate(read: Result<ClimateReading, SensorError>) -> Option<
    ClimateReading,
> {
    match read {
        Ok(reading) => Some(reading),
        Err(_) => None,
    }
}

/// Turns the outcome of a climate read into the round's climate half. A
/// failed read means no climate data this tick.
pub fn accept_climate(read: Result<ClimateReading, SensorError>) -> (reading: Option<
    ClimateReading,
>)
    ensures
        reading == spec_accept_climate(read),
{
    match read {
        Ok(reading) => Some(reading),
        Err(_) => None,
    }
}

} // verus!
