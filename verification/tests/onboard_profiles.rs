use openhub::onboard_profiles::{parse_info, DeviceMode, ParseError};

/// A payload shaped like what a G703 returns: five profiles, six buttons,
/// sixteen sectors of 256 bytes.
#[test]
fn parses_a_full_info_payload() {
    let payload = [
        0x01, 0x03, 0x01, 0x05, 0x01, 0x06, 0x10, 0x01, 0x00, 0x04, 0x00,
    ];

    let info = parse_info(&payload).unwrap();

    assert_eq!(info.memory_model_id, 0x01);
    assert_eq!(info.profile_format_id, 0x03);
    assert_eq!(info.macro_format_id, 0x01);
    assert_eq!(info.profile_count, 5);
    assert_eq!(info.profile_count_oob, 1);
    assert_eq!(info.button_count, 6);
    assert_eq!(info.sector_count, 0x10);
    assert_eq!(info.sector_size, 0x0100);
    assert_eq!(info.mechanical_layout, 0x04);
    assert_eq!(info.various_info, 0x00);
}

#[test]
fn reads_sector_size_big_endian() {
    let payload = [
        0x01, 0x03, 0x01, 0x05, 0x01, 0x06, 0x10, 0x02, 0x00, 0x04, 0x00,
    ];

    assert_eq!(parse_info(&payload).unwrap().sector_size, 512);
}

#[test]
fn rejects_a_short_payload() {
    let payload = [0x01, 0x03, 0x01];

    assert!(matches!(
        parse_info(&payload),
        Err(ParseError::ShortPayload {
            expected: 11,
            got: 3
        })
    ));
}

#[test]
fn ignores_trailing_padding() {
    let payload = [
        0x01, 0x03, 0x01, 0x05, 0x01, 0x06, 0x10, 0x01, 0x00, 0x04, 0, 0, 0, 0,
    ];

    assert_eq!(parse_info(&payload).unwrap().button_count, 6);
}

#[test]
fn round_trips_device_mode() {
    assert_eq!(DeviceMode::from_wire(0x01), Some(DeviceMode::Onboard));
    assert_eq!(DeviceMode::from_wire(0x02), Some(DeviceMode::Host));
    assert_eq!(DeviceMode::from_wire(0x00), None);
    assert_eq!(DeviceMode::Onboard.to_wire(), 0x01);
    assert_eq!(DeviceMode::Host.to_wire(), 0x02);
}

#[test]
fn every_mode_survives_its_wire_value() {
    for mode in [DeviceMode::Onboard, DeviceMode::Host] {
        assert_eq!(DeviceMode::from_wire(mode.to_wire()), Some(mode));
    }
    for value in 3..=u8::MAX {
        assert_eq!(DeviceMode::from_wire(value), None);
    }
}

#[test]
fn an_empty_payload_is_short_by_eleven() {
    assert_eq!(
        parse_info(&[]),
        Err(ParseError::ShortPayload {
            expected: 11,
            got: 0
        })
    );
    let ten = [0u8; 10];
    assert_eq!(
        parse_info(&ten),
        Err(ParseError::ShortPayload {
            expected: 11,
            got: 10
        })
    );
}

#[test]
fn sector_size_uses_both_bytes() {
    let payload = [0, 0, 0, 0, 0, 0, 0, 0x12, 0x34, 0, 0];
    assert_eq!(parse_info(&payload).unwrap().sector_size, 0x1234);
}
