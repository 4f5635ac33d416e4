use dualsensectl::hid::BatteryState;
use dualsensectl::hid::Buttons;
use dualsensectl::hid::ButtonsMask1;
use dualsensectl::hid::ButtonsMask2;
use dualsensectl::hid::ButtonsMask3;
use dualsensectl::hid::ChargingStatus;
use dualsensectl::hid::DecodeError;
use dualsensectl::hid::DpadDirection;
use dualsensectl::hid::DualsenseReportType;
use dualsensectl::hid::Touchpoint;
use dualsensectl::hid::decode;

/// A 64-byte buffer whose payload byte at offset `j` is `j`, so every
/// field boundary is visible in the decoded values.
fn ramp_buffer(discriminator: u8) -> Vec<u8> {
    let mut buf = vec![discriminator];
    for j in 0..63u8 {
        buf.push(j);
    }
    buf
}

#[test]
fn decode_succeeds_on_usb_discriminator() {
    let buf = ramp_buffer(0x1);
    assert!(decode(&buf).is_ok());
}

#[test]
fn decode_succeeds_on_bluetooth_discriminator() {
    let buf = ramp_buffer(0x31);
    assert!(decode(&buf).is_ok());
}

#[test]
fn decode_is_deterministic() {
    let buf = ramp_buffer(0x1);
    let a = decode(&buf).unwrap();
    let b = decode(&buf).unwrap();
    assert_eq!(a, b);
    // Accessors are pure: repeated calls agree.
    assert_eq!(a.touchpad[0].x(), b.touchpad[0].x());
    assert_eq!(a.touchpad[0].x(), a.touchpad[0].x());
    assert_eq!(a.buttons.dpad_nibble(), a.buttons.dpad_nibble());
}

#[test]
fn decode_reads_every_field_at_its_offset() {
    let buf = ramp_buffer(0x1);
    let rep = decode(&buf).unwrap();
    assert_eq!(rep.sequence_number, 0);
    assert_eq!((rep.left.x, rep.left.y), (1, 2));
    assert_eq!((rep.right.x, rep.right.y), (3, 4));
    assert_eq!((rep.triggers.x, rep.triggers.y), (5, 6));
    assert_eq!(rep.buttons.0, [7, 8, 9, 10]);
    assert_eq!(rep.reserved, [11, 12, 13, 14]);
    assert_eq!(rep.gyro.x, 15 + 16 * 0x100);
    assert_eq!(rep.gyro.y, 17 + 18 * 0x100);
    assert_eq!(rep.gyro.z, 19 + 20 * 0x100);
    assert_eq!(rep.accel.x, 21 + 22 * 0x100);
    assert_eq!(rep.accel.y, 23 + 24 * 0x100);
    assert_eq!(rep.accel.z, 25 + 26 * 0x100);
    assert_eq!(
        rep.sensor_timestamp,
        27 + 28 * 0x100 + 29 * 0x10000 + 30 * 0x1000000
    );
    assert_eq!(rep.reserved2, [31, 32]);
    assert_eq!(rep.touchpad[0].contact, 33);
    assert_eq!(rep.touchpad[0].coordinates, [34, 35, 36]);
    assert_eq!(rep.touchpad[1].contact, 37);
    assert_eq!(rep.touchpad[1].coordinates, [38, 39, 40]);
    assert_eq!(rep.reserved3, [41, 42, 43, 44, 45, 46, 47, 48, 49, 50, 51]);
    assert_eq!(rep.battery_state, BatteryState(52));
    assert_eq!(rep.peripheral_state.0, 53);
    assert_eq!(rep.unknown, 54);
    // The trailing tag ends exactly at the last byte of the buffer:
    // the layout occupies all 63 payload bytes, nothing more or less.
    assert_eq!(rep.aes_cmac, [55, 56, 57, 58, 59, 60, 61, 62]);
    assert_eq!(buf.len(), 64);
}

#[test]
fn decode_rejects_short_buffers_with_truncated() {
    assert_eq!(decode(&[]), Err(DecodeError::Truncated));
    assert_eq!(decode(&[0x1]), Err(DecodeError::Truncated));
    assert_eq!(decode(&[0x31]), Err(DecodeError::Truncated));
    assert_eq!(decode(&[0xFF]), Err(DecodeError::Truncated));
    let mut buf = ramp_buffer(0x1);
    buf.pop();
    assert_eq!(buf.len(), 63);
    assert_eq!(decode(&buf), Err(DecodeError::Truncated));
}

#[test]
fn decode_rejects_unknown_discriminators() {
    for d in [0x0u8, 0x2, 0x30, 0x32, 0x7F, 0xFF] {
        let buf = ramp_buffer(d);
        assert_eq!(decode(&buf), Err(DecodeError::UnknownTransport(d)));
    }
}

#[test]
fn report_type_try_from_known_and_unknown_bytes() {
    assert_eq!(
        DualsenseReportType::try_from(0x1),
        Ok(DualsenseReportType::USB)
    );
    assert_eq!(
        DualsenseReportType::try_from(0x31),
        Ok(DualsenseReportType::Bluetooth)
    );
    assert_eq!(DualsenseReportType::try_from(0x2), Err(()));
    assert_eq!(DualsenseReportType::try_from(0x0), Err(()));
}

#[test]
fn dpad_nibble_masks_every_byte_below_sixteen() {
    for b in 0..=255u8 {
        let buttons = Buttons([0, b, 0, 0]);
        assert!(buttons.dpad_nibble() <= 15);
        assert_eq!(buttons.dpad_nibble(), b & 0xF);
    }
}

#[test]
fn dpad_directions_are_distinct_for_valid_nibbles() {
    let mut seen = Vec::new();
    for n in 0..=8u8 {
        let buttons = Buttons([0, n, 0, 0]);
        let d = buttons.dpad_direction();
        assert!(!seen.contains(&d));
        seen.push(d);
    }
    assert_eq!(seen.len(), 9);
    assert_eq!(seen[0], DpadDirection::DpadUp);
    assert_eq!(seen[2], DpadDirection::Right);
    assert_eq!(seen[8], DpadDirection::Centered);
}

#[test]
fn dpad_direction_ignores_high_nibble_bits() {
    let buttons = Buttons([0, 0xF2, 0, 0]);
    assert_eq!(buttons.dpad_direction(), DpadDirection::Right);
}

#[test]
fn face_buttons_read_high_bits_of_byte_one() {
    let buttons = Buttons([0, 0x30, 0, 0]);
    assert!(buttons.mask1_pressed(ButtonsMask1::Square));
    assert!(buttons.mask1_pressed(ButtonsMask1::Cross));
    assert!(!buttons.mask1_pressed(ButtonsMask1::Circle));
    assert!(!buttons.mask1_pressed(ButtonsMask1::Triangle));
}

#[test]
fn byte_two_buttons_read_their_bits() {
    let buttons = Buttons([0, 0, 0x81, 0]);
    assert!(buttons.mask2_pressed(ButtonsMask2::LeftTrigger));
    assert!(buttons.mask2_pressed(ButtonsMask2::RightStickPress));
    assert!(!buttons.mask2_pressed(ButtonsMask2::RightTrigger));
    assert!(!buttons.mask2_pressed(ButtonsMask2::LeftBumper));
    assert!(!buttons.mask2_pressed(ButtonsMask2::RightBumper));
    assert!(!buttons.mask2_pressed(ButtonsMask2::Create));
    assert!(!buttons.mask2_pressed(ButtonsMask2::Options));
    assert!(!buttons.mask2_pressed(ButtonsMask2::LeftStickPress));
}

#[test]
fn byte_three_buttons_read_their_bits() {
    let buttons = Buttons([0, 0, 0, 0x5]);
    assert!(buttons.mask3_pressed(ButtonsMask3::Home));
    assert!(!buttons.mask3_pressed(ButtonsMask3::Touchpad));
    assert!(buttons.mask3_pressed(ButtonsMask3::MicMute));
}

#[test]
fn touchpoint_contact_zero_is_active_count_zero() {
    let t = Touchpoint {
        contact: 0x00,
        coordinates: [0, 0, 0],
    };
    assert!(t.is_active());
    assert_eq!(t.touch_count(), 0);
}

#[test]
fn touchpoint_contact_0x81_is_inactive_count_one() {
    let t = Touchpoint {
        contact: 0x81,
        coordinates: [0, 0, 0],
    };
    assert!(!t.is_active());
    assert_eq!(t.touch_count(), 1);
}

#[test]
fn touchpoint_coordinates_unpack_the_documented_bit_formula() {
    let t = Touchpoint {
        contact: 0x00,
        coordinates: [0x34, 0x12, 0x56],
    };
    assert_eq!(t.x(), 0x234);
    assert_eq!(t.x(), 564);
    assert_eq!(t.y(), 0x561);
    assert_eq!(t.y(), 1377);
}

#[test]
fn touchpoint_coordinate_extremes() {
    let t = Touchpoint {
        contact: 0x00,
        coordinates: [0xFF, 0xFF, 0xFF],
    };
    assert_eq!(t.x(), 0xFFF);
    assert_eq!(t.y(), 0xFFF);
    let z = Touchpoint {
        contact: 0x00,
        coordinates: [0, 0, 0],
    };
    assert_eq!(z.x(), 0);
    assert_eq!(z.y(), 0);
}

#[test]
fn gyro_values_are_signed_little_endian() {
    let mut buf = ramp_buffer(0x1);
    // Gyro X sits at payload offset 15, buffer offset 16.
    buf[16] = 0x00;
    buf[17] = 0x80;
    buf[18] = 0xFF;
    buf[19] = 0xFF;
    buf[20] = 0x01;
    buf[21] = 0x00;
    let rep = decode(&buf).unwrap();
    assert_eq!(rep.gyro.x, -32768);
    assert_eq!(rep.gyro.y, -1);
    assert_eq!(rep.gyro.z, 1);
}

#[test]
fn sensor_timestamp_is_unsigned_little_endian() {
    let mut buf = ramp_buffer(0x31);
    // The timestamp sits at payload offset 27, buffer offset 28.
    buf[28] = 0xFF;
    buf[29] = 0xFF;
    buf[30] = 0xFF;
    buf[31] = 0xFF;
    let rep = decode(&buf).unwrap();
    assert_eq!(rep.sensor_timestamp, u32::MAX);
}

#[test]
fn charging_status_codes_map_to_documented_states() {
    assert_eq!(ChargingStatus::from(0x0), ChargingStatus::Discharging);
    assert_eq!(ChargingStatus::from(0x1), ChargingStatus::Charging);
    assert_eq!(ChargingStatus::from(0x2), ChargingStatus::Charged);
    assert_eq!(
        ChargingStatus::from(0xa),
        ChargingStatus::VoltageOrTemperatureOutOfRange
    );
    assert_eq!(ChargingStatus::from(0xb), ChargingStatus::TemperatureError);
    assert_eq!(ChargingStatus::from(0xf), ChargingStatus::ChargingError);
}

#[test]
fn unused_charging_codes_resolve_to_unknown_not_an_error() {
    assert_eq!(ChargingStatus::from(0x5), ChargingStatus::Unknown);
    for code in [0x3u8, 0x4, 0x6, 0x7, 0x8, 0x9, 0xc, 0xd, 0xe] {
        assert_eq!(ChargingStatus::from(code), ChargingStatus::Unknown);
    }
}

#[test]
fn battery_state_splits_into_code_and_capacity() {
    let b = BatteryState(0x18);
    assert_eq!(b.charging_code(), 0x1);
    assert_eq!(b.capacity_level(), 0x8);
    assert_eq!(b.charging_status(), ChargingStatus::Charging);
    let full = BatteryState(0xF0);
    assert_eq!(full.charging_status(), ChargingStatus::ChargingError);
    assert_eq!(full.capacity_level(), 0);
    let idle = BatteryState(0x05);
    assert_eq!(idle.charging_status(), ChargingStatus::Discharging);
}
