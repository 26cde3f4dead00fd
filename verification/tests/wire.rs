use smov::wire::{
    decode_speed, decode_version, encode_heartbeat, encode_speed, is_magic, magic_bytes,
    BAUD_RATE, IO_TIMEOUT_MS, POLL_MS, SETTLE_MS,
};

#[test]
fn link_constants() {
    assert_eq!(BAUD_RATE, 115200);
    assert_eq!(IO_TIMEOUT_MS, 1000);
    assert_eq!(SETTLE_MS, 2000);
    assert_eq!(POLL_MS, 100);
}

#[test]
fn magic_is_ascii_smov() {
    assert_eq!(magic_bytes(), b"smov".to_vec());
    assert!(is_magic(b"smov"));
    assert!(!is_magic(b"smow"));
    assert!(!is_magic(b"Smov"));
    assert!(!is_magic(b"smo"));
    assert!(!is_magic(b"smov\0"));
    assert!(!is_magic(b""));
}

#[test]
fn minus_one_is_tag_then_ff_ff() {
    assert_eq!(encode_speed(-1), vec![0x01, 0xFF, 0xFF]);
}

#[test]
fn speeds_are_big_endian() {
    assert_eq!(encode_speed(0), vec![0x01, 0x00, 0x00]);
    assert_eq!(encode_speed(1), vec![0x01, 0x00, 0x01]);
    assert_eq!(encode_speed(255), vec![0x01, 0x00, 0xFF]);
    assert_eq!(encode_speed(256), vec![0x01, 0x01, 0x00]);
    assert_eq!(encode_speed(0x1234), vec![0x01, 0x12, 0x34]);
    assert_eq!(encode_speed(i16::MAX), vec![0x01, 0x7F, 0xFF]);
    assert_eq!(encode_speed(i16::MIN), vec![0x01, 0x80, 0x00]);
    assert_eq!(encode_speed(-2), vec![0x01, 0xFF, 0xFE]);
    assert_eq!(encode_speed(-256), vec![0x01, 0xFF, 0x00]);
}

#[test]
fn encoding_agrees_with_to_be_bytes() {
    let mut speed = i16::MIN;
    loop {
        let bytes = speed.to_be_bytes();
        assert_eq!(encode_speed(speed), vec![0x01, bytes[0], bytes[1]]);
        if speed == i16::MAX {
            break;
        }
        speed += 1;
    }
}

#[test]
fn decoding_inverts_encoding_for_every_speed() {
    let mut speed = i16::MIN;
    loop {
        assert_eq!(decode_speed(&encode_speed(speed)), Some(speed));
        if speed == i16::MAX {
            break;
        }
        speed += 1;
    }
}

#[test]
fn decoding_minus_one() {
    assert_eq!(decode_speed(&[0x01, 0xFF, 0xFF]), Some(-1));
    assert_eq!(decode_speed(&[0x01, 0x80, 0x00]), Some(i16::MIN));
    assert_eq!(decode_speed(&[0x01, 0x7F, 0xFF]), Some(i16::MAX));
}

#[test]
fn other_frames_are_no_speed() {
    assert_eq!(decode_speed(&[]), None);
    assert_eq!(decode_speed(&[0x00]), None);
    assert_eq!(decode_speed(&[0x01]), None);
    assert_eq!(decode_speed(&[0x01, 0x00]), None);
    assert_eq!(decode_speed(&[0x00, 0x00, 0x00]), None);
    assert_eq!(decode_speed(&[0x02, 0x00, 0x00]), None);
    assert_eq!(decode_speed(&[0x01, 0x00, 0x00, 0x00]), None);
}

#[test]
fn heartbeat_is_one_zero_byte() {
    assert_eq!(encode_heartbeat(), vec![0x00]);
}

#[test]
fn version_is_big_endian() {
    assert_eq!(decode_version(&[0x00, 0x00]), 0);
    assert_eq!(decode_version(&[0x00, 0x01]), 1);
    assert_eq!(decode_version(&[0x01, 0x00]), 256);
    assert_eq!(decode_version(&[0x12, 0x34]), 0x1234);
    assert_eq!(decode_version(&[0xFF, 0xFF]), 65535);
}
