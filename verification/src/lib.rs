//! Decision logic of a two-sensor environmental monitor.
//!
//! An air-quality sensor and a climate sensor share one bus. Once per tick the
//! monitor asks the air-quality sensor whether new data is ready, fetches it
//! only if so, always reads the climate sensor, and then emits one metric
//! record. Everything here is pure decision making on plain values: the
//! hardware, the timer and the metrics socket are driven by the caller, who
//! feeds their outcomes back in as events.
//!
//! Climate values are carried as IEEE 754 binary32 bit patterns in `u32`
//! fields, so that a value read from a sensor reaches the emitted record
//! bit for bit.

pub mod air_quality;
pub mod bus;
pub mod climate;
pub mod emitter;
pub mod polling;
pub mod reading;
pub mod startup;
