use libg933::buttons::Buttons;
use libg933::device_info::DeviceInfo;
use libg933::equalizer::{byte_from_i8, i8_from_byte};
use libg933::light_config::{LightConfig, LightConfigSettings};
use libg933::lights::{Config, Effect, Light, ProfileType};
use libg933::{equalizer, AsBytes, FromBytes, Future};

#[test]
fn buttons_encode_one_bit_per_key() {
    let buttons = Buttons { g1: true, g2: false, g3: true };
    assert_eq!(buttons.as_bytes(), vec![0b101]);
    let none = Buttons { g1: false, g2: false, g3: false };
    assert_eq!(none.as_bytes(), vec![0]);
}

#[test]
fn buttons_decode_from_bits() {
    let buttons = Buttons::from_bytes(&[0b011]);
    assert!(buttons.g1);
    assert!(buttons.g2);
    assert!(!buttons.g3);
}

#[test]
fn device_info_reads_fixed_offsets() {
    let bytes: Vec<u8> = (1..=13).collect();
    let info = DeviceInfo::from_bytes(bytes.as_slice());
    assert_eq!(info.entity_count, 1);
    assert_eq!(info.unit_id, [2, 3, 4, 5]);
    assert_eq!(info.transport, [6, 7]);
    assert_eq!(info.model_id, [8, 9, 10, 11, 12, 13]);
}

#[test]
fn gain_bytes_use_twos_complement() {
    assert_eq!(byte_from_i8(-12), 0xf4);
    assert_eq!(byte_from_i8(0), 0);
    assert_eq!(byte_from_i8(11), 11);
    assert_eq!(byte_from_i8(-128), 0x80);
    assert_eq!(i8_from_byte(0xf4), -12);
    assert_eq!(i8_from_byte(0x7f), 127);
    assert_eq!(i8_from_byte(0x80), -128);
    for b in 0..=255u8 {
        assert_eq!(byte_from_i8(i8_from_byte(b)), b);
    }
}

#[test]
fn equalizer_config_round_trips_through_bytes() {
    let config = equalizer::Config { bands: [-12, -6, -3, 0, 1, 2, 3, 6, 9, 11] };
    let bytes = config.as_bytes();
    assert_eq!(bytes.len(), 11);
    assert_eq!(bytes[0], 2);
    assert_eq!(bytes[1], 0xf4);
    let decoded = equalizer::Config::from_bytes(bytes.as_slice());
    assert_eq!(decoded.bands, config.bands);
}

#[test]
fn lights_off_encodes_to_marker_bytes_only() {
    let config = Config {
        light: Light::Side,
        effect: Effect::Off,
        profile_type: ProfileType::Permanent,
    };
    assert_eq!(config.as_bytes(), vec![1, 0, 0, 0, 0, 0, 0, 0, 0, 0, 0, 0, 2]);
}

#[test]
fn lights_static_encodes_color() {
    let config = Config {
        light: Light::Logo,
        effect: Effect::Static { red: 0x12, green: 0x34, blue: 0x56 },
        profile_type: ProfileType::Temporary,
    };
    assert_eq!(config.as_bytes(), vec![0, 1, 0x12, 0x34, 0x56, 0, 0, 0, 0, 0, 0, 0, 0]);
}

#[test]
fn lights_breathing_encodes_rate_and_brightness() {
    let config = Config {
        light: Light::Side,
        effect: Effect::Breathing {
            red: 1,
            green: 2,
            blue: 3,
            rate: 0x1234,
            brightness: 0x64,
        },
        profile_type: ProfileType::Temporary,
    };
    assert_eq!(config.as_bytes(), vec![1, 2, 1, 2, 3, 0x12, 0x34, 0, 0x64, 0, 0, 0, 0]);
}

#[test]
fn lights_color_cycle_encodes_rate_and_brightness() {
    let config = Config {
        light: Light::Logo,
        effect: Effect::ColorCycle { rate: 0x0bb8, brightness: 0x32 },
        profile_type: ProfileType::Permanent,
    };
    assert_eq!(config.as_bytes(), vec![0, 3, 0, 0, 0, 0, 0, 0x0b, 0xb8, 0x32, 0, 0, 2]);
}

#[test]
fn lights_decode_reads_variant_from_effect_byte() {
    let mut bytes = vec![0u8; 16];
    bytes[0] = 1;
    bytes[1] = 1;
    bytes[2] = 9;
    bytes[3] = 8;
    bytes[4] = 7;
    bytes[12] = 2;
    let config = Config::from_bytes(bytes.as_slice());
    assert_eq!(config.light, Light::Side);
    assert_eq!(config.effect, Effect::Static { red: 9, green: 8, blue: 7 });
    assert_eq!(config.profile_type, ProfileType::Permanent);
}

#[test]
fn light_config_settings_encode_five_bytes() {
    assert_eq!(LightConfigSettings::Off.as_bytes(), vec![0, 0, 0, 0, 0]);
    assert_eq!(
        LightConfigSettings::Breathing { rate: 0x1234, brightness: 0x64 }.as_bytes(),
        vec![0x12, 0x34, 0, 0x64, 0]
    );
    assert_eq!(
        LightConfigSettings::ColorCycle { rate: 0x1234, brightness: 0x64 }.as_bytes(),
        vec![0, 0, 0x12, 0x34, 0x64]
    );
}

#[test]
fn light_config_encodes_thirteen_bytes() {
    let config = LightConfig {
        light_index: 1,
        effect: 3,
        red: 0xaa,
        green: 0xbb,
        blue: 0xcc,
        settings: LightConfigSettings::ColorCycle { rate: 0x0102, brightness: 0x40 },
        profile_type: 2,
    };
    assert_eq!(
        config.as_bytes(),
        vec![1, 3, 0xaa, 0xbb, 0xcc, 0, 0, 0x01, 0x02, 0x40, 0, 0, 2]
    );
}

#[test]
fn light_config_decodes_off_settings() {
    let bytes = vec![0u8, 0, 1, 2, 3, 0, 0, 0, 0, 0, 0, 2];
    let config = LightConfig::from_bytes(bytes.as_slice());
    assert_eq!(config.light_index, 0);
    assert_eq!(config.effect, 0);
    assert_eq!(config.settings, LightConfigSettings::Off);
    assert_eq!(config.profile_type, 2);
}

#[test]
fn future_hands_back_the_stored_value() {
    let mut future: Future<u32> = Future::new();
    assert!(!future.is_set());
    future.set(42);
    assert!(future.is_set());
    assert_eq!(future.wait(), 42);
    // Waiting does not consume the value.
    assert_eq!(future.wait(), 42);
}
