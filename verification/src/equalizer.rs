//! The equalizer configuration and its byte codec.
//!
//! Band gains are signed bytes on the wire. They are converted to and
//! from unsigned wire bytes by explicit two's-complement arithmetic,
//! byte by byte, never by reinterpreting memory.

use vstd::prelude::*;
use crate::{AsBytes, FromBytes};

verus! {

/// The signed gain a wire byte stands for, by two's complement.
pub open spec fn spec_i8_from_byte(b: u8) -> i8 {
    if b < 128 {
        b as i8
    } else {
        (b - 256) as i8
    }
}

/// The wire byte for a signed gain, by two's complement.
pub open spec fn spec_byte_from_i8(x: i8) -> u8 {
    if x >= 0 {
        x as u8
    } else {
        (x + 256) as u8
    }
}

/// The two's-complement conversions invert each other.
pub proof fn lemma_i8_byte_round_trip(b: u8, x: i8)
    ensures
        spec_byte_from_i8(spec_i8_from_byte(b)) == b,
        spec_i8_from_byte(spec_byte_from_i8(x)) == x,
{
}

/// Decode one wire byte into a signed gain.
pub fn i8_from_byte(b: u8) -> (r: i8)
    ensures
        r == spec_i8_from_byte(b),
{
    if b < 128 {
        b as i8
    } else {
        ((b as i16) - 256) as i8
    }
}

/// Encode one signed gain into its wire byte.
pub fn byte_from_i8(x: i8) -> (r: u8)
    ensures
        r == spec_byte_from_i8(x),
{
    if x >= 0 {
        x as u8
    } else {
        ((x as i16) + 256) as u8
    }
}

/// Configuration for the equalizer: one gain per band.
#[derive(Clone, Copy, Debug)]
pub struct Config {
    /// Gains of the ten bands: 32, 64, 125, 250, 500, 1k, 2k, 4k, 8k and
    /// 16k Hz.
    pub bands: [i8; 10],
}

impl AsBytes for Config {
    open spec fn as_bytes_spec(&self) -> Seq<u8> {
        seq![2u8] + Seq::new(10, |i: int| spec_byte_from_i8(self.bands@[i]))
    }

    fn as_bytes(&self) -> (r: Vec<u8>) {
        let mut bytes: Vec<u8> = Vec::new();
        bytes.push(2);
        let mut i: usize = 0;
        while i < 10
            invariant
                i <= 10,
                bytes@.len() == 1 + i,
                bytes@[0] == 2u8,
                forall|j: int| 0 <= j < i ==> bytes@[1 + j] == spec_byte_from_i8(self.bands@[j]),
            decreases 10 - i,
        {
            bytes.push(byte_from_i8(self.bands[i]));
            i = i + 1;
        }
        proof {
            assert(bytes@ =~= seq![2u8] + Seq::new(10, |i: int| spec_byte_from_i8(self.bands@[i])));
        }
        bytes
    }
}

impl FromBytes for Config {
    open spec fn from_bytes_req(bytes: Seq<u8>) -> bool {
        bytes.len() >= 11
    }

    open spec fn from_bytes_spec(bytes: Seq<u8>) -> Config {
        Config {
            bands: [
                spec_i8_from_byte(bytes[1]),
                spec_i8_from_byte(bytes[2]),
                spec_i8_from_byte(bytes[3]),
                spec_i8_from_byte(bytes[4]),
                spec_i8_from_byte(bytes[5]),
                spec_i8_from_byte(bytes[6]),
                spec_i8_from_byte(bytes[7]),
                spec_i8_from_byte(bytes[8]),
                spec_i8_from_byte(bytes[9]),
                spec_i8_from_byte(bytes[10]),
            ],
        }
    }

    fn from_bytes(bytes: &[u8]) -> (r: Config) {
        Config {
            bands: [
                i8_from_byte(bytes[1]),
                i8_from_byte(bytes[2]),
                i8_from_byte(bytes[3]),
                i8_from_byte(bytes[4]),
                i8_from_byte(bytes[5]),
                i8_from_byte(bytes[6]),
                i8_from_byte(bytes[7]),
                i8_from_byte(bytes[8]),
                i8_from_byte(bytes[9]),
                i8_from_byte(bytes[10]),
            ],
        }
    }
}

} // verus!
