//! What a poll of the environmental sensor can yield.

use vstd::prelude::*;

verus! {

/// One reading of the sensor.
#[derive(Clone, Copy, Debug, PartialEq, Eq, Structural)]
pub struct SensorReading {
    /// Relative humidity, in per cent.
    pub humidity: u8,
    /// Temperature, in degrees Celsius.
    pub temperature: u8,
}

/// Why a poll yielded no reading.
#[derive(Clone, Copy, Debug, PartialEq, Eq, Structural)]
pub enum SensorFault {
    /// The bytes received do not add up to the checksum sent with them.
    ChecksumMismatch,
    /// The sensor did not answer in time.
    Timeout,
    /// The data pin could not be driven or read.
    PinError,
}

} // verus!
