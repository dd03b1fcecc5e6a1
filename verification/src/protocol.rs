//! The request bodies and response layouts of every device operation.
//!
//! Each operation of the outward API splits into a pure encoder — the
//! request body handed to the transport — and a pure parser of the
//! 20-byte response frame. Where the device echoes what was sent, the
//! parser checks the echo and fails with
//! [`Error::ProtocolMismatch`] when it disagrees.

use vstd::prelude::*;
use crate::FromBytes;
use crate::device_info::DeviceInfo;
use crate::equalizer::{byte_from_i8, i8_from_byte, spec_byte_from_i8, spec_i8_from_byte};
use crate::error::Error;
use crate::frame::{Frame, spec_header_key};
use crate::lights;

verus! {

/// Request body asking the root feature for a feature's index.
pub fn get_feature_request(feature: u16) -> (r: Vec<u8>)
    ensures
        r@ == seq![0x01u8, (feature / 256) as u8, (feature % 256) as u8],
{
    let mut body: Vec<u8> = Vec::new();
    body.push(0x01);
    body.push((feature / 256) as u8);
    body.push((feature % 256) as u8);
    proof {
        assert(body@ =~= seq![0x01u8, (feature / 256) as u8, (feature % 256) as u8]);
    }
    body
}

/// The feature index, type and version of a feature-discovery response.
pub fn parse_get_feature(response: &Frame) -> (r: (u8, u8, u8))
    ensures
        r == (response@[4], response@[5], response@[6]),
{
    (response.byte(4), response.byte(5), response.byte(6))
}

/// The ping byte sent with a protocol-version request, echoed by the
/// device.
pub const PING_BYTE: u8 = 0xaf;

/// Request body asking for the protocol version, with the ping byte.
pub fn protocol_version_request() -> (r: Vec<u8>)
    ensures
        r@ == seq![0x11u8, 0x00u8, 0x00u8, PING_BYTE],
{
    let mut body: Vec<u8> = Vec::new();
    body.push(0x11);
    body.push(0x00);
    body.push(0x00);
    body.push(PING_BYTE);
    proof {
        assert(body@ =~= seq![0x11u8, 0x00u8, 0x00u8, PING_BYTE]);
    }
    body
}

/// The protocol version of a response whose echoed ping byte agrees;
/// a disagreeing echo is a protocol mismatch.
pub fn parse_protocol_version(response: &Frame) -> (r: Result<(u8, u8), Error>)
    ensures
        response@[6] == PING_BYTE <==> r is Ok,
        r matches Ok(v) ==> v == (response@[4], response@[5]),
        r is Err ==> r->Err_0 == Error::ProtocolMismatch,
{
    if response.byte(6) == PING_BYTE {
        Ok((response.byte(4), response.byte(5)))
    } else {
        Err(Error::ProtocolMismatch)
    }
}

/// Request body asking for the device-information record.
pub fn device_info_request() -> (r: Vec<u8>)
    ensures
        r@ == seq![0x01u8],
{
    let mut body: Vec<u8> = Vec::new();
    body.push(0x01);
    proof {
        assert(body@ =~= seq![0x01u8]);
    }
    body
}

/// The device-information record of a response.
pub fn parse_device_info(response: &Frame) -> (r: DeviceInfo)
    ensures
        r == DeviceInfo::from_bytes_spec(response@.subrange(4, 20)),
{
    proof {
        response.lemma_len();
    }
    let payload = response.payload();
    DeviceInfo::from_bytes(payload.as_slice())
}

/// Request body asking for the device name's length.
pub fn device_name_length_request() -> (r: Vec<u8>)
    ensures
        r@ == seq![0x01u8],
{
    let mut body: Vec<u8> = Vec::new();
    body.push(0x01);
    proof {
        assert(body@ =~= seq![0x01u8]);
    }
    body
}

/// The name length of a name-length response.
pub fn parse_device_name_length(response: &Frame) -> (r: u8)
    ensures
        r == response@[4],
{
    response.byte(4)
}

/// Request body asking for one 16-byte part of the device name.
pub fn device_name_part_request(part: u8) -> (r: Vec<u8>)
    ensures
        r@ == seq![0x11u8, part],
{
    let mut body: Vec<u8> = Vec::new();
    body.push(0x11);
    body.push(part);
    proof {
        assert(body@ =~= seq![0x11u8, part]);
    }
    body
}

/// How many 16-byte parts hold a name of this length: the length divided
/// by sixteen, rounded up.
pub fn name_part_count(length: u8) -> (r: u8)
    requires
        length >= 1,
    ensures
        r == ((length - 1) / 16) + 1,
        r >= 1,
{
    ((length - 1) / 16) + 1
}

/// The bytes of a list of response payloads, one after another.
pub open spec fn spec_concat(parts: Seq<Seq<u8>>) -> Seq<u8>
    decreases parts.len(),
{
    if parts.len() == 0 {
        Seq::empty()
    } else {
        spec_concat(parts.drop_last()) + parts.last()
    }
}

/// A byte string without whatever zero padding ends it.
pub open spec fn spec_trim_trailing_zeros(s: Seq<u8>) -> Seq<u8>
    decreases s.len(),
{
    if s.len() > 0 && s.last() == 0 {
        spec_trim_trailing_zeros(s.drop_last())
    } else {
        s
    }
}

/// The device name from its collected parts: the payloads in order, with
/// the zero padding after the name dropped.
pub fn assemble_device_name(parts: &Vec<Vec<u8>>) -> (r: Vec<u8>)
    ensures
        r@ == spec_trim_trailing_zeros(
            spec_concat(parts@.map_values(|p: Vec<u8>| p@)),
        ),
{
    let mut out: Vec<u8> = Vec::new();
    let n = parts.len();
    let mut i: usize = 0;
    while i < n
        invariant
            n == parts@.len(),
            i <= n,
            out@ == spec_concat(parts@.map_values(|p: Vec<u8>| p@).subrange(0, i as int)),
        decreases n - i,
    {
        let part = &parts[i];
        let m = part.len();
        let mut j: usize = 0;
        while j < m
            invariant
                i < n == parts@.len(),
                m == parts@[i as int]@.len(),
                j <= m,
                out@ == spec_concat(parts@.map_values(|p: Vec<u8>| p@).subrange(0, i as int))
                    + parts@[i as int]@.subrange(0, j as int),
                part@ == parts@[i as int]@,
            decreases m - j,
        {
            out.push(part[j]);
            proof {
                assert(parts@[i as int]@.subrange(0, j + 1) =~= parts@[i as int]@.subrange(
                    0,
                    j as int,
                ).push(parts@[i as int]@[j as int]));
            }
            j = j + 1;
        }
        proof {
            let mapped = parts@.map_values(|p: Vec<u8>| p@);
            assert(parts@[i as int]@.subrange(0, m as int) =~= mapped[i as int]);
            assert(mapped.subrange(0, i + 1).drop_last() =~= mapped.subrange(0, i as int));
            assert(mapped.subrange(0, i + 1).last() == mapped[i as int]);
        }
        i = i + 1;
    }
    proof {
        let mapped = parts@.map_values(|p: Vec<u8>| p@);
        assert(mapped.subrange(0, n as int) =~= mapped);
    }
    while out.len() > 0 && out[out.len() - 1] == 0
        invariant
            spec_trim_trailing_zeros(out@) == spec_trim_trailing_zeros(
                spec_concat(parts@.map_values(|p: Vec<u8>| p@)),
            ),
        decreases out@.len(),
    {
        proof {
            assert(out@.drop_last() =~= out@.subrange(0, out@.len() - 1));
        }
        out.pop();
    }
    out
}

/// Request body setting the light configuration.
pub fn set_lights_request(config: &lights::Config) -> (r: Vec<u8>)
    ensures
        r@ == seq![0x31u8] + lights::spec_lights_config_bytes(*config),
{
    let mut body: Vec<u8> = Vec::new();
    body.push(0x31);
    let mut encoded = crate::AsBytes::as_bytes(config);
    body.append(&mut encoded);
    proof {
        assert(body@ =~= seq![0x31u8] + lights::spec_lights_config_bytes(*config));
    }
    body
}

/// The light configuration a response reports back.
pub fn parse_lights_config(response: &Frame) -> (r: lights::Config)
    requires
        lights::Config::from_bytes_req(response@.subrange(4, 20)),
    ensures
        r == lights::Config::from_bytes_spec(response@.subrange(4, 20)),
{
    proof {
        response.lemma_len();
    }
    let payload = response.payload();
    lights::Config::from_bytes(payload.as_slice())
}

/// Request body asking whether the startup effect is enabled.
pub fn startup_effect_request() -> (r: Vec<u8>)
    ensures
        r@ == seq![0x41u8, 0x00u8, 0x01u8],
{
    let mut body: Vec<u8> = Vec::new();
    body.push(0x41);
    body.push(0x00);
    body.push(0x01);
    proof {
        assert(body@ =~= seq![0x41u8, 0x00u8, 0x01u8]);
    }
    body
}

/// Whether a startup-effect response reports the effect enabled.
pub fn parse_startup_effect_enabled(response: &Frame) -> (r: bool)
    ensures
        r == (response@[4] == 1),
{
    response.byte(4) == 0x01
}

/// The byte that switches the startup effect on or off.
pub open spec fn spec_enable_byte(enable: bool) -> u8 {
    if enable {
        1u8
    } else {
        2u8
    }
}

/// Request body switching the startup effect on or off.
pub fn enable_startup_effect_request(enable: bool) -> (r: Vec<u8>)
    ensures
        r@ == seq![0x51u8, 0x00u8, 0x01u8, spec_enable_byte(enable)],
{
    let enable_byte: u8 = if enable {
        0x01
    } else {
        0x02
    };
    let mut body: Vec<u8> = Vec::new();
    body.push(0x51);
    body.push(0x00);
    body.push(0x01);
    body.push(enable_byte);
    proof {
        assert(body@ =~= seq![0x51u8, 0x00u8, 0x01u8, spec_enable_byte(enable)]);
    }
    body
}

/// Check the echo of a startup-effect change; a response that echoes a
/// different byte is a protocol mismatch.
pub fn parse_enable_startup_effect(response: &Frame, enable: bool) -> (r: Result<(), Error>)
    ensures
        response@[6] == spec_enable_byte(enable) <==> r is Ok,
        r is Err ==> r->Err_0 == Error::ProtocolMismatch,
{
    let enable_byte: u8 = if enable {
        0x01
    } else {
        0x02
    };
    if response.byte(6) == enable_byte {
        Ok(())
    } else {
        Err(Error::ProtocolMismatch)
    }
}

/// Request body asking for the number of buttons.
pub fn button_count_request() -> (r: Vec<u8>)
    ensures
        r@ == seq![0x01u8],
{
    let mut body: Vec<u8> = Vec::new();
    body.push(0x01);
    proof {
        assert(body@ =~= seq![0x01u8]);
    }
    body
}

/// The button count of a response.
pub fn parse_button_count(response: &Frame) -> (r: u8)
    ensures
        r == response@[4],
{
    response.byte(4)
}

/// Request body asking whether button reporting is enabled.
pub fn buttons_enabled_request() -> (r: Vec<u8>)
    ensures
        r@ == seq![0x11u8],
{
    let mut body: Vec<u8> = Vec::new();
    body.push(0x11);
    proof {
        assert(body@ =~= seq![0x11u8]);
    }
    body
}

/// Whether a response reports button reporting enabled.
pub fn parse_buttons_enabled(response: &Frame) -> (r: bool)
    ensures
        r == (response@[4] == 1),
{
    response.byte(4) == 0x01
}

/// Request body switching button reporting on or off.
pub fn enable_buttons_request(enable: bool) -> (r: Vec<u8>)
    ensures
        r@ == seq![0x21u8, (if enable { 1u8 } else { 0u8 })],
{
    let b: u8 = if enable {
        1
    } else {
        0
    };
    let mut body: Vec<u8> = Vec::new();
    body.push(0x21);
    body.push(b);
    proof {
        assert(body@ =~= seq![0x21u8, (if enable { 1u8 } else { 0u8 })]);
    }
    body
}

/// Check the echo of a button-reporting change.
pub fn parse_enable_buttons(response: &Frame, enable: bool) -> (r: Result<(), Error>)
    ensures
        response@[4] == (if enable { 1u8 } else { 0u8 }) <==> r is Ok,
        r is Err ==> r->Err_0 == Error::ProtocolMismatch,
{
    let b: u8 = if enable {
        1
    } else {
        0
    };
    if response.byte(4) == b {
        Ok(())
    } else {
        Err(Error::ProtocolMismatch)
    }
}

/// Request body asking for the equalizer band frequencies from one
/// offset on.
pub fn equalizer_bands_request(offset: u8) -> (r: Vec<u8>)
    ensures
        r@ == seq![0x11u8, offset],
{
    let mut body: Vec<u8> = Vec::new();
    body.push(0x11);
    body.push(offset);
    proof {
        assert(body@ =~= seq![0x11u8, offset]);
    }
    body
}

/// A big-endian 16-bit word from two bytes.
pub fn be_u16(hi: u8, lo: u8) -> (r: u16)
    ensures
        r == hi * 256 + lo,
{
    (hi as u16) * 256 + (lo as u16)
}

/// The ten band frequencies from the two band responses: seven
/// big-endian words from the first, three from the second.
pub fn parse_equalizer_bands(first: &Frame, second: &Frame) -> (r: [u16; 10])
    ensures
        forall|i: int| 0 <= i < 7 ==> r@[i] == first@[5 + 2 * i] * 256 + first@[6 + 2 * i],
        forall|i: int|
            7 <= i < 10 ==> r@[i] == second@[5 + 2 * (i - 7)] * 256 + second@[6 + 2 * (i - 7)],
{
    [
        be_u16(first.byte(5), first.byte(6)),
        be_u16(first.byte(7), first.byte(8)),
        be_u16(first.byte(9), first.byte(10)),
        be_u16(first.byte(11), first.byte(12)),
        be_u16(first.byte(13), first.byte(14)),
        be_u16(first.byte(15), first.byte(16)),
        be_u16(first.byte(17), first.byte(18)),
        be_u16(second.byte(5), second.byte(6)),
        be_u16(second.byte(7), second.byte(8)),
        be_u16(second.byte(9), second.byte(10)),
    ]
}

/// Request body asking for the current equalizer gains.
pub fn equalizer_request() -> (r: Vec<u8>)
    ensures
        r@ == seq![0x21u8],
{
    let mut body: Vec<u8> = Vec::new();
    body.push(0x21);
    proof {
        assert(body@ =~= seq![0x21u8]);
    }
    body
}

/// The ten signed band gains of an equalizer response.
pub fn parse_equalizer(response: &Frame) -> (r: [i8; 10])
    ensures
        forall|i: int| 0 <= i < 10 ==> r@[i] == spec_i8_from_byte(response@[4 + i]),
{
    [
        i8_from_byte(response.byte(4)),
        i8_from_byte(response.byte(5)),
        i8_from_byte(response.byte(6)),
        i8_from_byte(response.byte(7)),
        i8_from_byte(response.byte(8)),
        i8_from_byte(response.byte(9)),
        i8_from_byte(response.byte(10)),
        i8_from_byte(response.byte(11)),
        i8_from_byte(response.byte(12)),
        i8_from_byte(response.byte(13)),
    ]
}

/// The byte that asks for a permanent or a temporary equalizer change.
pub open spec fn spec_permanent_byte(permanent: bool) -> u8 {
    if permanent {
        2u8
    } else {
        0u8
    }
}

/// Request body setting the equalizer gains.
pub fn set_equalizer_request(permanent: bool, config: &[i8; 10]) -> (r: Vec<u8>)
    ensures
        r@ == seq![0x31u8, spec_permanent_byte(permanent)] + Seq::new(
            10,
            |i: int| spec_byte_from_i8(config@[i]),
        ),
{
    let permanent_byte: u8 = if permanent {
        0x02
    } else {
        0x00
    };
    let mut body: Vec<u8> = Vec::new();
    body.push(0x31);
    body.push(permanent_byte);
    let mut i: usize = 0;
    while i < 10
        invariant
            i <= 10,
            body@.len() == 2 + i,
            body@[0] == 0x31u8,
            body@[1] == spec_permanent_byte(permanent),
            forall|j: int| 0 <= j < i ==> body@[2 + j] == spec_byte_from_i8(config@[j]),
        decreases 10 - i,
    {
        body.push(byte_from_i8(config[i]));
        i = i + 1;
    }
    proof {
        assert(body@ =~= seq![0x31u8, spec_permanent_byte(permanent)] + Seq::new(
            10,
            |i: int| spec_byte_from_i8(config@[i]),
        ));
    }
    body
}

/// Check the echo of an equalizer change: the response must repeat all
/// ten encoded gains.
pub fn parse_set_equalizer(response: &Frame, config: &[i8; 10]) -> (r: Result<(), Error>)
    ensures
        (forall|i: int| 0 <= i < 10 ==> response@[5 + i] == spec_byte_from_i8(config@[i])) <==> r
            is Ok,
        r is Err ==> r->Err_0 == Error::ProtocolMismatch,
{
    let mut i: usize = 0;
    while i < 10
        invariant
            i <= 10,
            forall|j: int| 0 <= j < i ==> response@[5 + j] == spec_byte_from_i8(config@[j]),
        decreases 10 - i,
    {
        if response.byte(5 + i) != byte_from_i8(config[i]) {
            return Err(Error::ProtocolMismatch);
        }
        i = i + 1;
    }
    Ok(())
}

/// Request body asking for the sidetone volume.
pub fn sidetone_volume_request() -> (r: Vec<u8>)
    ensures
        r@ == seq![0x00u8],
{
    let mut body: Vec<u8> = Vec::new();
    body.push(0x00);
    proof {
        assert(body@ =~= seq![0x00u8]);
    }
    body
}

/// The sidetone volume of a response.
pub fn parse_sidetone_volume(response: &Frame) -> (r: u8)
    ensures
        r == response@[4],
{
    response.byte(4)
}

/// Request body setting the sidetone volume.
pub fn set_sidetone_request(volume: u8) -> (r: Vec<u8>)
    ensures
        r@ == seq![0x11u8, volume],
{
    let mut body: Vec<u8> = Vec::new();
    body.push(0x11);
    body.push(volume);
    proof {
        assert(body@ =~= seq![0x11u8, volume]);
    }
    body
}

/// Check the echo of a sidetone change.
pub fn parse_set_sidetone(response: &Frame, volume: u8) -> (r: Result<(), Error>)
    ensures
        response@[4] == volume <==> r is Ok,
        r is Err ==> r->Err_0 == Error::ProtocolMismatch,
{
    if response.byte(4) == volume {
        Ok(())
    } else {
        Err(Error::ProtocolMismatch)
    }
}

/// Request body asking for the battery status.
pub fn battery_status_request() -> (r: Vec<u8>)
    ensures
        r@ == seq![0x01u8],
{
    let mut body: Vec<u8> = Vec::new();
    body.push(0x01);
    proof {
        assert(body@ =~= seq![0x01u8]);
    }
    body
}

/// The raw voltage and the status byte of a battery response.
pub fn parse_battery_response(response: &Frame) -> (r: (u16, u8))
    ensures
        r.0 == response@[4] * 256 + response@[5],
        r.1 == response@[6],
{
    (be_u16(response.byte(4), response.byte(5)), response.byte(6))
}

/// Request body asking for the power-off timeout.
pub fn poweroff_timeout_request() -> (r: Vec<u8>)
    ensures
        r@ == seq![0x11u8],
{
    let mut body: Vec<u8> = Vec::new();
    body.push(0x11);
    proof {
        assert(body@ =~= seq![0x11u8]);
    }
    body
}

/// The timeout of a power-off response: zero means never.
pub fn parse_poweroff_timeout(response: &Frame) -> (r: Option<u8>)
    ensures
        response@[4] == 0 <==> r is None,
        r matches Some(t) ==> t == response@[4],
{
    let t = response.byte(4);
    if t == 0 {
        None
    } else {
        Some(t)
    }
}

/// The wire byte of a power-off timeout: `None` is sent as zero.
pub open spec fn spec_timeout_byte(timeout: Option<u8>) -> u8 {
    match timeout {
        None => 0u8,
        Some(t) => t,
    }
}

/// Request body setting the power-off timeout.
pub fn set_poweroff_request(timeout: Option<u8>) -> (r: Vec<u8>)
    ensures
        r@ == seq![0x21u8, spec_timeout_byte(timeout)],
{
    let t: u8 = match timeout {
        None => 0,
        Some(t) => t,
    };
    let mut body: Vec<u8> = Vec::new();
    body.push(0x21);
    body.push(t);
    proof {
        assert(body@ =~= seq![0x21u8, spec_timeout_byte(timeout)]);
    }
    body
}

/// Check the echo of a power-off timeout change.
pub fn parse_set_poweroff(response: &Frame, timeout: Option<u8>) -> (r: Result<(), Error>)
    ensures
        response@[4] == spec_timeout_byte(timeout) <==> r is Ok,
        r is Err ==> r->Err_0 == Error::ProtocolMismatch,
{
    let t: u8 = match timeout {
        None => 0,
        Some(t) => t,
    };
    if response.byte(4) == t {
        Ok(())
    } else {
        Err(Error::ProtocolMismatch)
    }
}

/// The header key under which a device reports unsolicited button
/// presses for a resolved button feature: function and tag byte zero.
pub fn button_report_key(feature_index: u8) -> (r: u32)
    ensures
        r == spec_header_key(seq![0x11u8, 0xffu8, feature_index, 0x00u8]),
{
    0x11u32 * 0x100_0000 + 0xffu32 * 0x1_0000 + (feature_index as u32) * 0x100
}

} // verus!
