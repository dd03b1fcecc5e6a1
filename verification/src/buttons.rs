//! The button-state byte: one bit per programmable key.

use vstd::prelude::*;
use crate::{AsBytes, FromBytes};

verus! {

/// Which of the three programmable buttons are pressed.
#[derive(Clone, Copy, Debug, Eq, PartialEq, Structural)]
pub struct Buttons {
    /// Whether the first button is pressed.
    pub g1: bool,
    /// Whether the second button is pressed.
    pub g2: bool,
    /// Whether the third button is pressed.
    pub g3: bool,
}

/// The wire byte for a button state: bit 0 for the first button, bit 1
/// for the second, bit 2 for the third.
pub open spec fn spec_buttons_byte(b: Buttons) -> u8 {
    (((if b.g1 {
        1int
    } else {
        0int
    }) + (if b.g2 {
        2int
    } else {
        0int
    }) + (if b.g3 {
        4int
    } else {
        0int
    })) as u8)
}

impl AsBytes for Buttons {
    open spec fn as_bytes_spec(&self) -> Seq<u8> {
        seq![spec_buttons_byte(*self)]
    }

    fn as_bytes(&self) -> (r: Vec<u8>) {
        let mut byte: u8 = 0;
        if self.g1 {
            byte = byte + 1;
        }
        if self.g2 {
            byte = byte + 2;
        }
        if self.g3 {
            byte = byte + 4;
        }
        let mut bytes: Vec<u8> = Vec::new();
        bytes.push(byte);
        proof {
            assert(bytes@ =~= seq![spec_buttons_byte(*self)]);
        }
        bytes
    }
}

impl FromBytes for Buttons {
    open spec fn from_bytes_req(bytes: Seq<u8>) -> bool {
        bytes.len() >= 1
    }

    open spec fn from_bytes_spec(bytes: Seq<u8>) -> Buttons {
        Buttons { g1: bytes[0] & 1 != 0, g2: bytes[0] & 2 != 0, g3: bytes[0] & 4 != 0 }
    }

    fn from_bytes(bytes: &[u8]) -> (r: Buttons) {
        let b = bytes[0];
        Buttons { g1: b & 1 != 0, g2: b & 2 != 0, g3: b & 4 != 0 }
    }
}

} // verus!
