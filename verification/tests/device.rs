use sorting_cell::base::{
    parse_pose, parse_queued_index, ptp_cmd_params_bytes, ptp_common_params_bytes,
    ptp_coordinate_params_bytes, ptp_joint_params_bytes, ptp_jump_params_bytes,
    speed_to_command_bytes,
};
use sorting_cell::color_sensor::color_from_pins;
use sorting_cell::command::{CommandID, Mode};
use sorting_cell::error::Error;
use sorting_cell::message::DobotMessage;
use sorting_cell::types::Color;

#[test]
fn speed_command_bytes_zero_stays_zero() {
    assert_eq!(speed_to_command_bytes(0), vec![0, 1, 0, 0, 0, 0]);
}

#[test]
fn speed_command_bytes_in_band_passes_through() {
    // 7500 is 0x1d4c, little-endian on the wire.
    assert_eq!(speed_to_command_bytes(7500), vec![0, 1, 0x4c, 0x1d, 0, 0]);
}

#[test]
fn speed_command_bytes_clamped_to_band() {
    // 100 is below the band: raised to 500 (0x01f4).
    assert_eq!(speed_to_command_bytes(100), vec![0, 1, 0xf4, 0x01, 0, 0]);
    // 20000 is above the band: capped to 15000 (0x3a98).
    assert_eq!(speed_to_command_bytes(20000), vec![0, 1, 0x98, 0x3a, 0, 0]);
    // Negative speeds are raised to the band's floor as well.
    assert_eq!(speed_to_command_bytes(-5), vec![0, 1, 0xf4, 0x01, 0, 0]);
}

#[test]
fn joint_params_little_endian_field_order() {
    let words: [f32; 8] = [200.0, 201.0, 202.0, 203.0, 1.0, 2.0, 3.0, 4.0];
    let bits: Vec<u32> = words.iter().map(|w| w.to_bits()).collect();
    let bytes = ptp_joint_params_bytes(
        bits[0], bits[1], bits[2], bits[3], bits[4], bits[5], bits[6], bits[7],
    );
    let expected: Vec<u8> = words.iter().flat_map(|w| w.to_le_bytes()).collect();
    assert_eq!(bytes, expected);
}

#[test]
fn coordinate_params_duplicate_each_word() {
    let v = 200.0f32.to_bits();
    let a = 150.0f32.to_bits();
    let bytes = ptp_coordinate_params_bytes(v, a);
    let mut expected = Vec::new();
    expected.extend(200.0f32.to_le_bytes());
    expected.extend(200.0f32.to_le_bytes());
    expected.extend(150.0f32.to_le_bytes());
    expected.extend(150.0f32.to_le_bytes());
    assert_eq!(bytes, expected);
}

#[test]
fn jump_and_common_params_layout() {
    let a = 10.0f32.to_bits();
    let b = 200.0f32.to_bits();
    let mut expected = Vec::new();
    expected.extend(10.0f32.to_le_bytes());
    expected.extend(200.0f32.to_le_bytes());
    assert_eq!(ptp_jump_params_bytes(a, b), expected);
    assert_eq!(ptp_common_params_bytes(a, b), expected);
}

#[test]
fn ptp_cmd_params_mode_then_coordinates() {
    let x = 251.0f32;
    let y = -123.0f32;
    let z = 25.0f32;
    let r = 0.0f32;
    let bytes =
        ptp_cmd_params_bytes(x.to_bits(), y.to_bits(), z.to_bits(), r.to_bits(), Mode::PtpMovjXyz);
    let mut expected = vec![1u8];
    expected.extend(x.to_le_bytes());
    expected.extend(y.to_le_bytes());
    expected.extend(z.to_le_bytes());
    expected.extend(r.to_le_bytes());
    assert_eq!(bytes, expected);
}

#[test]
fn queued_index_little_endian() {
    let params = [0x2a, 0, 0, 0, 0, 0, 0, 0];
    assert_eq!(parse_queued_index(&params), Ok(42));
    let params = [1, 2, 3, 4, 5, 6, 7, 8];
    assert_eq!(parse_queued_index(&params), Ok(u64::from_le_bytes(params)));
}

#[test]
fn queued_index_short_payload_truncated() {
    assert_eq!(parse_queued_index(&[1, 2, 3]), Err(Error::Truncated));
    assert_eq!(parse_queued_index(&[]), Err(Error::Truncated));
}

#[test]
fn pose_payload_parsed_as_eight_words() {
    let values: [f32; 8] = [165.0, -5.0, 30.0, 0.0, 10.5, -20.25, 0.125, 90.0];
    let params: Vec<u8> = values.iter().flat_map(|v| v.to_le_bytes()).collect();
    let pose = parse_pose(&params).unwrap();
    assert_eq!(f32::from_bits(pose.x), 165.0);
    assert_eq!(f32::from_bits(pose.y), -5.0);
    assert_eq!(f32::from_bits(pose.z), 30.0);
    assert_eq!(f32::from_bits(pose.r), 0.0);
    assert_eq!(f32::from_bits(pose.j1), 10.5);
    assert_eq!(f32::from_bits(pose.j2), -20.25);
    assert_eq!(f32::from_bits(pose.j3), 0.125);
    assert_eq!(f32::from_bits(pose.j4), 90.0);
}

#[test]
fn pose_payload_wrong_size_truncated() {
    assert_eq!(parse_pose(&[0u8; 31]), Err(Error::Truncated));
    assert_eq!(parse_pose(&[0u8; 33]), Err(Error::Truncated));
    assert_eq!(parse_pose(&[]), Err(Error::Truncated));
}

#[test]
fn color_sensor_pin_mapping() {
    assert_eq!(color_from_pins(false, false), Color { red: 0, green: 0, blue: 0 });
    assert_eq!(color_from_pins(false, true), Color { red: 0, green: 0, blue: 255 });
    assert_eq!(color_from_pins(true, false), Color { red: 0, green: 255, blue: 0 });
    assert_eq!(color_from_pins(true, true), Color { red: 255, green: 0, blue: 0 });
}

#[test]
fn frame_read_over_a_real_link() {
    // A connected pseudo-terminal pair stands in for the device's serial
    // link: a frame written whole into one end comes back through the
    // two-phase read on the other.
    let (port_a, port_b) = serial2::SerialPort::pair().unwrap();
    let msg = DobotMessage::new(CommandID::GetPose, false, false, vec![7, 7, 7, 7]).unwrap();
    port_b.write_all(&msg.to_bytes()).unwrap();
    let received = DobotMessage::from_async_reader(&port_a).unwrap();
    assert!(received == msg);
}

#[test]
fn frame_read_rejects_corrupt_checksum_over_link() {
    let (port_a, port_b) = serial2::SerialPort::pair().unwrap();
    let msg = DobotMessage::new(CommandID::GetPose, false, false, vec![1, 2]).unwrap();
    let mut bytes = msg.to_bytes();
    let last = bytes.len() - 1;
    bytes[last] ^= 0xff;
    port_b.write_all(&bytes).unwrap();
    assert!(matches!(
        DobotMessage::from_async_reader(&port_a),
        Err(Error::Integrity { .. })
    ));
}

#[test]
fn frame_read_rejects_zero_declared_length() {
    let (port_a, port_b) = serial2::SerialPort::pair().unwrap();
    // A five-byte prefix declaring a zero length can never complete a frame.
    port_b.write_all(&[0xaa, 0xaa, 0, 10, 0]).unwrap();
    assert_eq!(DobotMessage::from_async_reader(&port_a), Err(Error::Truncated));
}
