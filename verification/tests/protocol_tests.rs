use libg933::devices::{match_device, parse_hex_u16, supported_devices};
use libg933::error::Error;
use libg933::frame::Frame;
use libg933::protocol::{
    assemble_device_name, battery_status_request, button_count_request, button_report_key,
    buttons_enabled_request, device_info_request, device_name_length_request,
    device_name_part_request, enable_buttons_request, enable_startup_effect_request,
    equalizer_bands_request, equalizer_request, get_feature_request, name_part_count,
    parse_battery_response, parse_button_count, parse_buttons_enabled, parse_device_info,
    parse_device_name_length, parse_enable_buttons, parse_enable_startup_effect,
    parse_equalizer, parse_equalizer_bands, parse_get_feature, parse_lights_config,
    parse_poweroff_timeout, parse_protocol_version, parse_startup_effect_enabled, parse_set_equalizer, parse_set_poweroff,
    parse_set_sidetone, parse_sidetone_volume, poweroff_timeout_request,
    protocol_version_request, set_equalizer_request, set_poweroff_request,
    set_sidetone_request, sidetone_volume_request, startup_effect_request,
};

fn response(payload: &[u8]) -> Frame {
    let mut bytes = [0u8; 20];
    bytes[0] = 0x11;
    bytes[1] = 0xff;
    bytes[4..4 + payload.len()].copy_from_slice(payload);
    Frame::from_bytes(bytes)
}

#[test]
fn request_bodies_match_the_wire_protocol() {
    assert_eq!(get_feature_request(0x1f20), vec![0x01, 0x1f, 0x20]);
    assert_eq!(protocol_version_request(), vec![0x11, 0x00, 0x00, 0xaf]);
    assert_eq!(device_info_request(), vec![0x01]);
    assert_eq!(device_name_length_request(), vec![0x01]);
    assert_eq!(device_name_part_request(2), vec![0x11, 2]);
    assert_eq!(startup_effect_request(), vec![0x41, 0x00, 0x01]);
    assert_eq!(enable_startup_effect_request(true), vec![0x51, 0x00, 0x01, 0x01]);
    assert_eq!(enable_startup_effect_request(false), vec![0x51, 0x00, 0x01, 0x02]);
    assert_eq!(button_count_request(), vec![0x01]);
    assert_eq!(buttons_enabled_request(), vec![0x11]);
    assert_eq!(enable_buttons_request(true), vec![0x21, 1]);
    assert_eq!(equalizer_bands_request(0x07), vec![0x11, 0x07]);
    assert_eq!(equalizer_request(), vec![0x21]);
    assert_eq!(sidetone_volume_request(), vec![0x00]);
    assert_eq!(set_sidetone_request(55), vec![0x11, 55]);
    assert_eq!(battery_status_request(), vec![0x01]);
    assert_eq!(poweroff_timeout_request(), vec![0x11]);
    assert_eq!(set_poweroff_request(None), vec![0x21, 0]);
    assert_eq!(set_poweroff_request(Some(30)), vec![0x21, 30]);
}

#[test]
fn get_feature_response_carries_index_type_version() {
    let frame = response(&[0x08, 0x03, 0x01]);
    assert_eq!(parse_get_feature(&frame), (0x08, 0x03, 0x01));
}

#[test]
fn protocol_version_checks_the_ping_echo() {
    let good = response(&[4, 2, 0xaf]);
    assert_eq!(parse_protocol_version(&good), Ok((4, 2)));
    let bad = response(&[4, 2, 0xee]);
    assert_eq!(parse_protocol_version(&bad), Err(Error::ProtocolMismatch));
}

#[test]
fn name_part_count_rounds_up() {
    assert_eq!(name_part_count(1), 1);
    assert_eq!(name_part_count(16), 1);
    assert_eq!(name_part_count(17), 2);
    assert_eq!(name_part_count(32), 2);
    assert_eq!(name_part_count(33), 3);
    assert_eq!(name_part_count(255), 16);
}

#[test]
fn device_name_is_concatenated_and_trimmed() {
    let parts = vec![b"G933 Gaming Head".to_vec(), b"set\0\0\0\0\0\0\0\0\0\0\0\0\0".to_vec()];
    assert_eq!(assemble_device_name(&parts), b"G933 Gaming Headset".to_vec());
    let empty: Vec<Vec<u8>> = Vec::new();
    assert_eq!(assemble_device_name(&empty), Vec::<u8>::new());
    let zeros = vec![vec![0u8; 16]];
    assert_eq!(assemble_device_name(&zeros), Vec::<u8>::new());
}

#[test]
fn startup_effect_parses_and_checks_echo() {
    assert!(parse_startup_effect_enabled(&response(&[1])));
    assert!(!parse_startup_effect_enabled(&response(&[2])));
    let echo = response(&[0, 0, 0x01]);
    assert_eq!(parse_enable_startup_effect(&echo, true), Ok(()));
    assert_eq!(
        parse_enable_startup_effect(&echo, false),
        Err(Error::ProtocolMismatch)
    );
}

#[test]
fn buttons_parsers_read_the_status_byte() {
    assert_eq!(parse_button_count(&response(&[3])), 3);
    assert!(parse_buttons_enabled(&response(&[1])));
    assert!(!parse_buttons_enabled(&response(&[0])));
    assert_eq!(parse_enable_buttons(&response(&[1]), true), Ok(()));
    assert_eq!(parse_enable_buttons(&response(&[0]), true), Err(Error::ProtocolMismatch));
}

#[test]
fn equalizer_bands_come_from_both_responses() {
    let first = response(&[0, 0x00, 0x20, 0x00, 0x40, 0x00, 0x7d, 0x00, 0xfa, 0x01, 0xf4, 0x03,
        0xe8, 0x07, 0xd0]);
    let second = response(&[0, 0x0f, 0xa0, 0x1f, 0x40, 0x3e, 0x80]);
    let bands = parse_equalizer_bands(&first, &second);
    assert_eq!(bands, [32, 64, 125, 250, 500, 1000, 2000, 4000, 8000, 16000]);
}

#[test]
fn equalizer_gains_decode_signed() {
    let frame = response(&[0xf4, 0xfa, 0xfd, 0, 1, 2, 3, 6, 9, 11]);
    assert_eq!(parse_equalizer(&frame), [-12, -6, -3, 0, 1, 2, 3, 6, 9, 11]);
}

#[test]
fn set_equalizer_request_and_echo() {
    let config: [i8; 10] = [-12, -6, -3, 0, 1, 2, 3, 6, 9, 11];
    let body = set_equalizer_request(true, &config);
    assert_eq!(
        body,
        vec![0x31, 0x02, 0xf4, 0xfa, 0xfd, 0, 1, 2, 3, 6, 9, 11]
    );
    assert_eq!(set_equalizer_request(false, &config)[1], 0x00);
    let echo = response(&[0, 0xf4, 0xfa, 0xfd, 0, 1, 2, 3, 6, 9, 11]);
    assert_eq!(parse_set_equalizer(&echo, &config), Ok(()));
    let wrong = response(&[0, 0xf4, 0xfa, 0xfd, 0, 1, 2, 3, 6, 9, 12]);
    assert_eq!(parse_set_equalizer(&wrong, &config), Err(Error::ProtocolMismatch));
}

#[test]
fn sidetone_parsers_read_and_check() {
    assert_eq!(parse_sidetone_volume(&response(&[66])), 66);
    assert_eq!(parse_set_sidetone(&response(&[66]), 66), Ok(()));
    assert_eq!(parse_set_sidetone(&response(&[65]), 66), Err(Error::ProtocolMismatch));
}

#[test]
fn battery_response_splits_voltage_and_status() {
    let frame = response(&[0x0f, 0x6e, 0x01]);
    assert_eq!(parse_battery_response(&frame), (3950, 1));
}

#[test]
fn poweroff_timeout_zero_means_never() {
    assert_eq!(parse_poweroff_timeout(&response(&[0])), None);
    assert_eq!(parse_poweroff_timeout(&response(&[15])), Some(15));
    assert_eq!(parse_set_poweroff(&response(&[0]), None), Ok(()));
    assert_eq!(parse_set_poweroff(&response(&[15]), Some(15)), Ok(()));
    assert_eq!(parse_set_poweroff(&response(&[15]), None), Err(Error::ProtocolMismatch));
}

#[test]
fn button_report_key_matches_the_report_header() {
    let mut bytes = [0u8; 20];
    bytes[0] = 0x11;
    bytes[1] = 0xff;
    bytes[2] = 0x05;
    bytes[3] = 0x00;
    let frame = Frame::from_bytes(bytes);
    assert_eq!(button_report_key(0x05), frame.header_key());
}

#[test]
fn lights_config_parses_from_a_response() {
    let mut bytes = [0u8; 20];
    bytes[0] = 0x11;
    bytes[1] = 0xff;
    bytes[4] = 1;
    bytes[5] = 1;
    bytes[6] = 9;
    bytes[7] = 8;
    bytes[8] = 7;
    bytes[16] = 2;
    let frame = Frame::from_bytes(bytes);
    let config = parse_lights_config(&frame);
    assert_eq!(config.light, libg933::lights::Light::Side);
    assert_eq!(
        config.effect,
        libg933::lights::Effect::Static { red: 9, green: 8, blue: 7 }
    );
}

#[test]
fn device_info_parses_from_a_response() {
    let mut bytes = [0u8; 20];
    bytes[4] = 3;
    bytes[5] = 0xde;
    bytes[6] = 0xad;
    bytes[7] = 0xbe;
    bytes[8] = 0xef;
    let frame = Frame::from_bytes(bytes);
    let info = parse_device_info(&frame);
    assert_eq!(info.entity_count, 3);
    assert_eq!(info.unit_id, [0xde, 0xad, 0xbe, 0xef]);
}

#[test]
fn hex_product_ids_parse_like_the_attribute_text() {
    assert_eq!(parse_hex_u16(b"0a5b"), Some(0x0a5b));
    assert_eq!(parse_hex_u16(b"0A5B"), Some(0x0a5b));
    assert_eq!(parse_hex_u16(b"ffff"), Some(0xffff));
    assert_eq!(parse_hex_u16(b"0"), Some(0));
    assert_eq!(parse_hex_u16(b"00000a5b"), Some(0x0a5b));
    assert_eq!(parse_hex_u16(b""), None);
    assert_eq!(parse_hex_u16(b"46d "), None);
    assert_eq!(parse_hex_u16(b"10000"), None);
    assert_eq!(parse_hex_u16(b"xyz"), None);
}

#[test]
fn only_known_product_ids_match() {
    assert_eq!(supported_devices().len(), 3);
    assert_eq!(match_device(0x0a5b).unwrap().name, "G933 Headset");
    assert_eq!(match_device(0x0a66).unwrap().name, "G533 Headset");
    assert_eq!(match_device(0x0a87).unwrap().name, "G935 Headset");
    assert!(match_device(0x0a5c).is_none());
}
