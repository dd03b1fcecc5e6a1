//! The supported device models, and the product-id parsing used to spot
//! them among attached USB devices.
//!
//! Enumeration itself happens outside the library; what it hands in is
//! the product-id attribute as ASCII hex text, parsed and matched here.

use vstd::prelude::*;

verus! {

/// One supported device model: its USB product id and a human-readable
/// name.
#[derive(Clone, Copy, Debug)]
pub struct DeviceMatch {
    /// USB product id.
    pub pid: u16,
    /// Marketing name of the model.
    pub name: &'static str,
}

/// Product id of the first supported model.
pub const PID_G933: u16 = 0x0a5b;
/// Product id of the second supported model.
pub const PID_G533: u16 = 0x0a66;
/// Product id of the third supported model.
pub const PID_G935: u16 = 0x0a87;

/// The models this library knows.
pub fn supported_devices() -> (r: Vec<DeviceMatch>)
    ensures
        r@.len() == 3,
        r@[0].pid == PID_G933 && r@[0].name@ == "G933 Headset"@,
        r@[1].pid == PID_G533 && r@[1].name@ == "G533 Headset"@,
        r@[2].pid == PID_G935 && r@[2].name@ == "G935 Headset"@,
{
    let mut devices: Vec<DeviceMatch> = Vec::new();
    devices.push(DeviceMatch { pid: PID_G933, name: "G933 Headset" });
    devices.push(DeviceMatch { pid: PID_G533, name: "G533 Headset" });
    devices.push(DeviceMatch { pid: PID_G935, name: "G935 Headset" });
    devices
}

/// The model a product id belongs to, if it is supported.
pub fn match_device(pid: u16) -> (r: Option<DeviceMatch>)
    ensures
        (pid == PID_G933 || pid == PID_G533 || pid == PID_G935) <==> r is Some,
        r matches Some(d) ==> d.pid == pid,
        pid == PID_G933 ==> (r matches Some(d) && d.name@ == "G933 Headset"@),
        pid == PID_G533 ==> (r matches Some(d) && d.name@ == "G533 Headset"@),
        pid == PID_G935 ==> (r matches Some(d) && d.name@ == "G935 Headset"@),
{
    if pid == PID_G933 {
        Some(DeviceMatch { pid, name: "G933 Headset" })
    } else if pid == PID_G533 {
        Some(DeviceMatch { pid, name: "G533 Headset" })
    } else if pid == PID_G935 {
        Some(DeviceMatch { pid, name: "G935 Headset" })
    } else {
        None
    }
}

/// Whether a byte is an ASCII hexadecimal digit.
pub open spec fn is_hex_digit(b: u8) -> bool {
    (48 <= b <= 57) || (97 <= b <= 102) || (65 <= b <= 70)
}

/// The value of one ASCII hexadecimal digit.
pub open spec fn hex_digit_value(b: u8) -> int
    recommends
        is_hex_digit(b),
{
    if 48 <= b <= 57 {
        b - 48
    } else if 97 <= b <= 102 {
        b - 87
    } else {
        b - 55
    }
}

/// The number an ASCII hexadecimal string stands for.
pub open spec fn hex_value(s: Seq<u8>) -> int
    decreases s.len(),
{
    if s.len() == 0 {
        0
    } else {
        hex_value(s.drop_last()) * 16 + hex_digit_value(s.last())
    }
}

/// The value of a hex string of digits is never negative.
proof fn lemma_hex_value_nonneg(s: Seq<u8>)
    requires
        forall|i: int| 0 <= i < s.len() ==> is_hex_digit(#[trigger] s[i]),
    ensures
        hex_value(s) >= 0,
    decreases s.len(),
{
    if s.len() > 0 {
        lemma_hex_value_nonneg(s.drop_last());
    }
}

/// Appending digits never shrinks the value.
proof fn lemma_hex_value_grows(s: Seq<u8>, n: int)
    requires
        forall|i: int| 0 <= i < s.len() ==> is_hex_digit(#[trigger] s[i]),
        0 <= n <= s.len(),
    ensures
        hex_value(s) >= hex_value(s.subrange(0, n)),
    decreases s.len() - n,
{
    if n < s.len() {
        lemma_hex_value_grows(s, n + 1);
        let p = s.subrange(0, n + 1);
        assert(p.drop_last() =~= s.subrange(0, n));
        lemma_hex_value_nonneg(s.subrange(0, n));
        assert(hex_value(p) == hex_value(s.subrange(0, n)) * 16 + hex_digit_value(s[n]));
    } else {
        assert(s.subrange(0, n) =~= s);
    }
}

/// Parse an ASCII hexadecimal product id, as it appears in a device's
/// attribute text: accepted exactly when every byte is a hex digit, there
/// is at least one, and the value fits in sixteen bits.
pub fn parse_hex_u16(text: &[u8]) -> (r: Option<u16>)
    ensures
        r is Some <==> {
            &&& text@.len() >= 1
            &&& forall|i: int| 0 <= i < text@.len() ==> is_hex_digit(#[trigger] text@[i])
            &&& hex_value(text@) <= 0xffff
        },
        r matches Some(v) ==> v == hex_value(text@),
{
    if text.len() == 0 {
        return None;
    }
    let n = text.len();
    let mut i: usize = 0;
    while i < n
        invariant
            n == text@.len(),
            i <= n,
            forall|j: int| 0 <= j < i ==> is_hex_digit(#[trigger] text@[j]),
        decreases n - i,
    {
        let b = text[i];
        if !((48 <= b && b <= 57) || (97 <= b && b <= 102) || (65 <= b && b <= 70)) {
            return None;
        }
        i = i + 1;
    }
    let mut acc: u32 = 0;
    i = 0;
    while i < n
        invariant
            n == text@.len(),
            i <= n,
            forall|j: int| 0 <= j < n ==> is_hex_digit(#[trigger] text@[j]),
            acc == hex_value(text@.subrange(0, i as int)),
            acc <= 0xffff,
        decreases n - i,
    {
        let b = text[i];
        let d: u32 = if 48 <= b && b <= 57 {
            (b - 48) as u32
        } else if 97 <= b && b <= 102 {
            (b - 87) as u32
        } else {
            (b - 55) as u32
        };
        acc = acc * 16 + d;
        proof {
            assert(text@.subrange(0, i + 1).drop_last() =~= text@.subrange(0, i as int));
            assert(text@.subrange(0, i + 1).last() == text@[i as int]);
        }
        if acc > 0xffff {
            proof {
                lemma_hex_value_grows(text@, i + 1);
            }
            return None;
        }
        i = i + 1;
    }
    proof {
        assert(text@.subrange(0, n as int) =~= text@);
    }
    Some(acc as u16)
}

} // verus!
