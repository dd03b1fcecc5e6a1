//! The failure taxonomy shared by the protocol engine and the estimator.

use vstd::prelude::*;

verus! {

/// Everything a library operation can fail with. Each variant is produced
/// in exactly one situation, stated by the contract of the function that
/// returns it.
#[derive(Clone, Copy, Debug, PartialEq, Eq, Structural)]
pub enum Error {
    /// The device file could not be read or written. Fatal to the operation
    /// that triggered it; raised only outside the library, where the I/O
    /// happens.
    IoError,
    /// No matching response after all retries of a send.
    Timeout,
    /// A response's self-check field disagrees with what was sent.
    ProtocolMismatch,
    /// The device resolved the feature to index 0: not supported.
    UnsupportedFeature,
    /// No calibration curve exists for this device model and charging state.
    NoCalibrationData,
    /// The status byte of a battery response is none of the known values.
    UnknownChargingState,
    /// A calibration curve with fewer than two points cannot be
    /// interpolated over.
    DegenerateCurve,
    /// A raw request longer than one 20-byte frame.
    RequestTooLong,
}

} // verus!
