use libg933::error::Error;
use libg933::frame::Frame;

#[test]
fn from_request_pads_with_zeros() {
    let request = vec![0x11u8, 0xff, 0x02, 0x01, 0xaa];
    let frame = Frame::from_request(request.as_slice()).unwrap();
    let bytes = frame.to_bytes();
    assert_eq!(&bytes[..5], &[0x11, 0xff, 0x02, 0x01, 0xaa]);
    assert_eq!(&bytes[5..], &[0u8; 15]);
}

#[test]
fn from_request_refuses_long_requests() {
    let request = vec![0u8; 21];
    assert_eq!(Frame::from_request(request.as_slice()), Err(Error::RequestTooLong));
}

#[test]
fn from_request_accepts_exactly_twenty_bytes() {
    let request: Vec<u8> = (0..20).collect();
    let frame = Frame::from_request(request.as_slice()).unwrap();
    assert_eq!(frame.to_bytes().to_vec(), request);
}

#[test]
fn for_feature_places_markers_index_and_body() {
    let body = vec![0x01u8, 0x1f, 0x20];
    let frame = Frame::for_feature(0x05, body.as_slice()).unwrap();
    let bytes = frame.to_bytes();
    assert_eq!(&bytes[..6], &[0x11, 0xff, 0x05, 0x01, 0x1f, 0x20]);
    assert_eq!(&bytes[6..], &[0u8; 14]);
}

#[test]
fn for_feature_refuses_long_bodies() {
    let body = vec![0u8; 18];
    assert_eq!(Frame::for_feature(0, body.as_slice()), Err(Error::RequestTooLong));
}

#[test]
fn header_key_packs_big_endian() {
    let mut bytes = [0u8; 20];
    bytes[0] = 0x11;
    bytes[1] = 0xff;
    bytes[2] = 0x05;
    bytes[3] = 0x21;
    let frame = Frame::from_bytes(bytes);
    assert_eq!(frame.header_key(), 0x11ff0521);
}

#[test]
fn payload_is_bytes_after_header() {
    let mut bytes = [0u8; 20];
    for (i, b) in bytes.iter_mut().enumerate() {
        *b = i as u8;
    }
    let frame = Frame::from_bytes(bytes);
    let payload = frame.payload();
    assert_eq!(payload, (4u8..20).collect::<Vec<u8>>());
    assert_eq!(frame.byte(0), 0);
    assert_eq!(frame.byte(19), 19);
}
