//! Control library for a family of wireless USB headsets that speak a
//! proprietary 20-byte request/response protocol over a raw HID byte stream.
//!
//! The crate verifies the protocol engine itself: frame layout, the
//! correlation of responses to pending exchanges, the bounded retry policy
//! of a send, the memoized resolution of symbolic feature identifiers to
//! device-local indices, and the battery charge estimator with its exact
//! interpolation arithmetic. Reading and writing the device node, threads
//! and the command line live outside the library and drive it through the
//! functions and state machines defined here.

use vstd::prelude::*;

pub mod assoc;
pub mod battery;
pub mod buttons;
pub mod correlation;
pub mod device_info;
pub mod devices;
pub mod equalizer;
pub mod error;
pub mod frame;
mod future;
pub mod light_config;
pub mod lights;
pub mod protocol;
pub mod resolver;
pub mod transport;

pub use future::Future;
pub use resolver::Feature;

verus! {

use crate::battery::CurveSet;
use crate::devices::DeviceMatch;

/// A value with a fixed byte encoding.
pub trait AsBytes {
    /// The bytes the value encodes to.
    spec fn as_bytes_spec(&self) -> Seq<u8>;

    /// Encode the value.
    fn as_bytes(&self) -> (r: Vec<u8>)
        ensures
            r@ == self.as_bytes_spec(),
    ;
}

/// A value decodable from bytes at fixed offsets.
pub trait FromBytes where Self: Sized {
    /// Which byte strings the decoder accepts.
    spec fn from_bytes_req(bytes: Seq<u8>) -> bool;

    /// The value a byte string decodes to.
    spec fn from_bytes_spec(bytes: Seq<u8>) -> Self;

    /// Decode a value.
    fn from_bytes(bytes: &[u8]) -> (r: Self)
        requires
            Self::from_bytes_req(bytes@),
        ensures
            r == Self::from_bytes_spec(bytes@),
    ;
}

/// A value decodable from bytes only with the device model and its
/// calibration data at hand.
pub trait FromBytesWithDevice where Self: Sized {
    /// Which byte strings the decoder accepts, given the model and
    /// curves.
    spec fn from_bytes_dev_req(dev: DeviceMatch, curves: CurveSet, bytes: Seq<u8>) -> bool;

    /// The value a byte string decodes to, if the calibration data
    /// covers it.
    spec fn from_bytes_dev_spec(dev: DeviceMatch, curves: CurveSet, bytes: Seq<u8>) -> Option<
        Self,
    >;

    /// Decode a value.
    fn from_bytes(dev: &DeviceMatch, curves: &CurveSet, bytes: &[u8]) -> (r: Option<Self>)
        requires
            Self::from_bytes_dev_req(*dev, *curves, bytes@),
        ensures
            r == Self::from_bytes_dev_spec(*dev, *curves, bytes@),
    ;
}

} // verus!
