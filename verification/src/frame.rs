//! The 20-byte wire frame and its header.
//!
//! Requests and responses share one shape: four header bytes (report-type
//! marker, protocol marker, feature index, function-and-tag byte) followed
//! by up to sixteen payload bytes, zero-padded. The four header bytes
//! identify the exchange a response belongs to; the library compares them
//! through a single packed integer key.

use vstd::prelude::*;
use crate::error::Error;

verus! {

/// First header byte of every frame.
pub const REPORT_MARKER: u8 = 0x11;
/// Second header byte of every frame.
pub const PROTOCOL_MARKER: u8 = 0xff;
/// Number of bytes in a frame.
pub const FRAME_LEN: usize = 20;
/// Number of bytes a request may fill after the three leading header bytes.
pub const MAX_BODY_LEN: usize = 17;

/// The four header bytes of a frame, packed big-endian into one integer.
pub open spec fn spec_header_key(s: Seq<u8>) -> u32
    recommends
        s.len() >= 4,
{
    (s[0] * 0x100_0000 + s[1] * 0x1_0000 + s[2] * 0x100 + s[3]) as u32
}

/// One 20-byte frame, request or response.
#[derive(Debug, Eq, PartialEq)]
pub struct Frame {
    bytes: [u8; 20],
}

impl Clone for Frame {
    fn clone(&self) -> (r: Self)
        ensures
            r@ == self@,
    {
        Frame { bytes: self.bytes }
    }
}

impl Copy for Frame {}

impl Frame {
    /// The frame as a sequence of its 20 bytes.
    pub closed spec fn view(&self) -> Seq<u8> {
        self.bytes@
    }

    /// Every frame is exactly 20 bytes long.
    pub proof fn lemma_len(&self)
        ensures
            self@.len() == 20,
    {
    }

    /// Wrap 20 raw bytes, as read from the device, into a frame.
    pub fn from_bytes(bytes: [u8; 20]) -> (r: Frame)
        ensures
            r@ == bytes@,
    {
        Frame { bytes }
    }

    /// The 20 raw bytes, ready to be written to the device.
    pub fn to_bytes(&self) -> (r: [u8; 20])
        ensures
            r@ == self@,
    {
        self.bytes
    }

    /// Read one byte of the frame.
    pub fn byte(&self, i: usize) -> (r: u8)
        requires
            i < 20,
        ensures
            r == self@[i as int],
    {
        self.bytes[i]
    }

    /// A frame from a raw request of at most 20 bytes, zero-padded at the
    /// end; longer requests are refused.
    pub fn from_request(request: &[u8]) -> (r: Result<Frame, Error>)
        ensures
            request@.len() <= 20 <==> r is Ok,
            r is Err ==> r->Err_0 == Error::RequestTooLong,
            r matches Ok(f) ==> {
                &&& f@.len() == 20
                &&& forall|i: int| 0 <= i < request@.len() ==> f@[i] == request@[i]
                &&& forall|i: int| request@.len() <= i < 20 ==> f@[i] == 0
            },
    {
        if request.len() > FRAME_LEN {
            return Err(Error::RequestTooLong);
        }
        let mut bytes = [0u8; 20];
        let mut i: usize = 0;
        while i < request.len()
            invariant
                i <= request@.len() <= 20,
                bytes@.len() == 20,
                forall|j: int| 0 <= j < i ==> bytes@[j] == request@[j],
                forall|j: int| i <= j < 20 ==> bytes@[j] == 0,
            decreases request@.len() - i,
        {
            bytes[i] = request[i];
            i = i + 1;
        }
        Ok(Frame { bytes })
    }

    /// A request frame for a method of a resolved feature: the two markers,
    /// the device-local feature index, then the body (function-and-tag byte
    /// first), zero-padded. Bodies longer than 17 bytes are refused.
    pub fn for_feature(feature_index: u8, body: &[u8]) -> (r: Result<Frame, Error>)
        ensures
            body@.len() <= 17 <==> r is Ok,
            r is Err ==> r->Err_0 == Error::RequestTooLong,
            r matches Ok(f) ==> {
                &&& f@.len() == 20
                &&& f@[0] == REPORT_MARKER
                &&& f@[1] == PROTOCOL_MARKER
                &&& f@[2] == feature_index
                &&& forall|i: int| 0 <= i < body@.len() ==> f@[3 + i] == body@[i]
                &&& forall|i: int| 3 + body@.len() <= i < 20 ==> f@[i] == 0
            },
    {
        if body.len() > MAX_BODY_LEN {
            return Err(Error::RequestTooLong);
        }
        let mut bytes = [0u8; 20];
        bytes[0] = REPORT_MARKER;
        bytes[1] = PROTOCOL_MARKER;
        bytes[2] = feature_index;
        let mut i: usize = 0;
        while i < body.len()
            invariant
                i <= body@.len() <= 17,
                bytes@.len() == 20,
                bytes@[0] == REPORT_MARKER,
                bytes@[1] == PROTOCOL_MARKER,
                bytes@[2] == feature_index,
                forall|j: int| 0 <= j < i ==> bytes@[3 + j] == body@[j],
                forall|j: int| 3 + i <= j < 20 ==> bytes@[j] == 0,
            decreases body@.len() - i,
        {
            bytes[3 + i] = body[i];
            i = i + 1;
        }
        Ok(Frame { bytes })
    }

    /// The sixteen payload bytes after the header.
    pub fn payload(&self) -> (r: Vec<u8>)
        ensures
            r@ == self@.subrange(4, 20),
    {
        let mut out: Vec<u8> = Vec::new();
        let mut i: usize = 4;
        while i < 20
            invariant
                4 <= i <= 20,
                out@.len() + 4 == i,
                forall|j: int| 0 <= j < out@.len() ==> out@[j] == self@[4 + j],
            decreases 20 - i,
        {
            out.push(self.bytes[i]);
            i = i + 1;
        }
        proof {
            assert(out@ =~= self@.subrange(4, 20));
        }
        out
    }

    /// The packed header key of this frame.
    pub fn header_key(&self) -> (r: u32)
        ensures
            r == spec_header_key(self@),
    {
        let b0 = self.bytes[0] as u32;
        let b1 = self.bytes[1] as u32;
        let b2 = self.bytes[2] as u32;
        let b3 = self.bytes[3] as u32;
        b0 * 0x100_0000 + b1 * 0x1_0000 + b2 * 0x100 + b3
    }
}

} // verus!
