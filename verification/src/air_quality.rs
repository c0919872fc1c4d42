//! Adapter rules for the readiness-polled air-quality sensor.

use crate::reading::AirQualityReading;
use crate::reading::SensorError;
use vstd::prelude::*;

verus! {

/// Mask of the status register's "new data ready" flag (bit 1).
pub const NEW_DATA_READY_MASK: u8 = 0x02;

/// Whether a raw status byte carries the "new data ready" flag.
pub open spec fn status_flags_ready(raw: u8) -> bool {
    raw & NEW_DATA_READY_MASK != 0
}

/// Whether a status query counts as "ready": it succeeded and the flag is set.
/// A failed query is never ready.
pub open spec fn spec_poll_ready(status: Result<u8, SensorError>) -> bool {
    match status {
        Ok(raw) => status_flags_ready(raw),
        Err(_) => false,
    }
}

/// Decodes the device's status byte with `ens160_aq::data::Status` and asks it
/// `new_data_ready()`. Trusted: the driver declares that flag as bit 1 of the
/// byte, so the result is claimed to be exactly that bit.
#[verifier::external_body]
fn status_new_data_ready(raw: u8) -> (ready: bool)
    ensures
        ready == status_flags_ready(raw),
{
    ens160_aq::data::Status(raw).new_data_ready()
}

/// Turns the outcome of a status query into this tick's readiness. A failed
/// query is swallowed and counts as not ready.
pub fn poll_ready(status: Result<u8, SensorError>) -> (ready: bool)
    ensures
        ready == spec_poll_ready(status),
{
    match status {
        Ok(raw) => status_new_data_ready(raw),
        Err(_) => false,
    }
}

/// What a fetch contributes to the round: the reading, or nothing on failure.
pub open spec fn spec_accept_measurement(
    fetched: Result<AirQualityReading, SensorError>,
) -> Option<AirQualityReading> {
    match fetched {
        Ok(reading) => Some(reading),
        Err(_) => None,
    }
}

/// Turns the outcome of a fetch into the round's air-quality half. A failed
/// fetch means no reading this tick.
pub fn accept_measurement(fetched: Result<AirQualityReading, SensorError>) -> (reading: Option<
    AirQualityReading,
>)
    ensures
        reading == spec_accept_measurement(fetched),
{
    match fetched {
        Ok(reading) => Some(reading),
        Err(_) => None,
    }
}

} // verus!
