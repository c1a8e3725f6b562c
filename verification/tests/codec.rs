use sorting_cell::command::{CommandID, Mode};
use sorting_cell::error::Error;
use sorting_cell::message::DobotMessage;

#[test]
fn encode_get_pose_exact_bytes() {
    let msg = DobotMessage::new(CommandID::GetPose, false, false, vec![]).unwrap();
    // id 10, control 0, empty params: checksum is the negation of 10 mod 256.
    assert_eq!(msg.to_bytes(), vec![0xaa, 0xaa, 2, 10, 0, 246]);
}

#[test]
fn encode_sets_header_len_and_flags() {
    let msg = DobotMessage::new(CommandID::SetPtpCmd, true, true, vec![1, 2, 3]).unwrap();
    let bytes = msg.to_bytes();
    assert_eq!(bytes[0], 0xaa);
    assert_eq!(bytes[1], 0xaa);
    assert_eq!(bytes[2], 5); // three params plus the command and control bytes
    assert_eq!(bytes[3], 84); // SetPtpCmd on the wire
    assert_eq!(bytes[4], 3); // queued and read/write flags both set
    assert_eq!(bytes.len(), 9);
}

#[test]
fn control_byte_combinations() {
    let cases = [(false, false, 0u8), (true, false, 1), (false, true, 2), (true, true, 3)];
    for (rw, queued, expected) in cases {
        let msg = DobotMessage::new(CommandID::GetPose, rw, queued, vec![]).unwrap();
        assert_eq!(msg.to_bytes()[4], expected);
    }
}

#[test]
fn checksum_wraps_around_at_eight_bits() {
    // id 10 + params 200 + 100 = 310; mod 256 that is 54; negated: 202.
    let checksum = DobotMessage::compute_checksum(CommandID::GetPose, false, false, &[200, 100]);
    assert_eq!(checksum, 202);
}

#[test]
fn round_trip_preserves_every_field() {
    let original =
        DobotMessage::new(CommandID::GetSetPtpJointParams, true, true, vec![9, 8, 7, 6]).unwrap();
    let decoded = DobotMessage::from_bytes(&original.to_bytes()).unwrap();
    assert!(decoded == original);
    assert_eq!(decoded.params(), &[9, 8, 7, 6]);
}

#[test]
fn round_trip_empty_params() {
    let original = DobotMessage::new(CommandID::SetHomeCmd, true, true, vec![]).unwrap();
    let decoded = DobotMessage::from_bytes(&original.to_bytes()).unwrap();
    assert!(decoded == original);
}

#[test]
fn round_trip_largest_params() {
    let params: Vec<u8> = (0..253u32).map(|i| (i % 256) as u8).collect();
    let original = DobotMessage::new(CommandID::SetPtpCmd, true, true, params.clone()).unwrap();
    let decoded = DobotMessage::from_bytes(&original.to_bytes()).unwrap();
    assert!(decoded == original);
    assert_eq!(decoded.params(), params.as_slice());
}

#[test]
fn params_too_long_rejected() {
    let params = vec![0u8; 254];
    assert_eq!(
        DobotMessage::new(CommandID::SetPtpCmd, true, true, params),
        Err(Error::ParamsTooLong)
    );
}

#[test]
fn params_at_limit_accepted() {
    let params = vec![0u8; 253];
    assert!(DobotMessage::new(CommandID::SetPtpCmd, true, true, params).is_ok());
}

#[test]
fn decode_fewer_than_six_bytes_truncated() {
    assert_eq!(DobotMessage::from_bytes(&[0xaa, 0xaa, 2, 10, 0]), Err(Error::Truncated));
    assert_eq!(DobotMessage::from_bytes(&[]), Err(Error::Truncated));
}

#[test]
fn decode_dropped_final_byte_truncated() {
    let mut bytes =
        DobotMessage::new(CommandID::GetPose, false, false, vec![5, 6]).unwrap().to_bytes();
    bytes.pop();
    assert_eq!(DobotMessage::from_bytes(&bytes), Err(Error::Truncated));
}

#[test]
fn decode_declared_length_mismatch_truncated() {
    let mut bytes = DobotMessage::new(CommandID::GetPose, false, false, vec![]).unwrap().to_bytes();
    bytes.push(0); // now one byte longer than the declared length allows
    assert_eq!(DobotMessage::from_bytes(&bytes), Err(Error::Truncated));
}

#[test]
fn decode_unknown_command_rejected() {
    // Command byte 5 maps to nothing; the command check runs before the
    // checksum check, so the final byte does not matter.
    let bytes = [0xaa, 0xaa, 2, 5, 0, 0];
    assert_eq!(DobotMessage::from_bytes(&bytes), Err(Error::UnknownCommand));
}

#[test]
fn decode_flipped_checksum_rejected_with_integrity() {
    let msg = DobotMessage::new(CommandID::SetPtpCmd, true, true, vec![1, 2, 3]).unwrap();
    let good = msg.to_bytes();
    let expected = good[good.len() - 1];
    // Flip every bit pattern of the checksum byte other than the valid one.
    for flip in 1..=255u8 {
        let mut bytes = good.clone();
        let received = expected.wrapping_add(flip);
        let last = bytes.len() - 1;
        bytes[last] = received;
        assert_eq!(
            DobotMessage::from_bytes(&bytes),
            Err(Error::Integrity { expected, received })
        );
    }
}

#[test]
fn decode_corrupted_param_byte_rejected() {
    let msg = DobotMessage::new(CommandID::SetPtpCmd, true, true, vec![1, 2, 3]).unwrap();
    let mut bytes = msg.to_bytes();
    bytes[5] ^= 0x10; // corrupt the first parameter byte
    assert!(matches!(DobotMessage::from_bytes(&bytes), Err(Error::Integrity { .. })));
}

#[test]
fn command_id_bytes_round_trip() {
    let ids = [
        CommandID::GetPose,
        CommandID::SetHomeCmd,
        CommandID::GetSetPtpJointParams,
        CommandID::GetSetPtpCoordinateParams,
        CommandID::GetSetPtpJumpParams,
        CommandID::GetSetPtpCommonParams,
        CommandID::SetPtpCmd,
        CommandID::GetSetEndEffectorSuctionCup,
        CommandID::SetEMotor,
        CommandID::SetQueuedCmdStartExec,
        CommandID::SetQueuedCmdClear,
        CommandID::SetQueuedCmdCurrentIndex,
    ];
    for id in ids {
        assert_eq!(CommandID::from_byte(id.to_byte()), Some(id));
    }
    assert_eq!(CommandID::GetPose.to_byte(), 10);
    assert_eq!(CommandID::SetEMotor.to_byte(), 135);
    assert_eq!(CommandID::SetQueuedCmdCurrentIndex.to_byte(), 246);
    assert_eq!(CommandID::from_byte(5), None);
    assert_eq!(CommandID::from_byte(255), None);
}

#[test]
fn mode_bytes() {
    assert_eq!(Mode::PtpJumpXyz.to_byte(), 0);
    assert_eq!(Mode::PtpMovjXyz.to_byte(), 1);
    assert_eq!(Mode::PtpMovlXyz.to_byte(), 2);
    assert_eq!(Mode::PtpJumpMovlXyz.to_byte(), 9);
}
