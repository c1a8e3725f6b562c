//! The closed command vocabulary of the device protocol and its wire bytes.
//!
//! Explicit, total mappings between command variants and their wire bytes
//! replace any reliance on enum discriminants: deserialization fails closed
//! on an unmapped byte, and the round trip is proved for every variant.

use vstd::prelude::*;

verus! {

/// Identifier of one request/response command of the device protocol.
#[derive(Copy, Clone, PartialEq, Eq, Hash, Structural, Debug)]
pub enum CommandID {
    GetSetDeviceSn,
    GetSetDeviceName,
    GetDeviceVersion,
    GetDeviceWithL,
    GetDeviceTime,
    GetPose,
    ResetPose,
    GetPoseL,
    GetAlarmsState,
    ClearAllAlarmsState,
    GetSetHomeParams,
    SetHomeCmd,
    GetSetHHTTrigMode,
    GetSetHHTTrigOutputEnabled,
    GetHHTTrigOutput,
    GetSetEndEffectorParams,
    GetSetEndEffectorLaser,
    GetSetEndEffectorSuctionCup,
    GetSetEndEffectorGripper,
    GetSetJogJointParams,
    GetSetJogCoordinateParams,
    GetSetJogCommonParams,
    SetJogCmd,
    GetSetJogLParams,
    GetSetPtpJointParams,
    GetSetPtpCoordinateParams,
    GetSetPtpJumpParams,
    GetSetPtpCommonParams,
    SetPtpCmd,
    GetSetPtpLParams,
    SetPtpWithLCmd,
    GetSetPtpJump2Params,
    SetPtpPoCmd,
    SetPtpPoWithLCmd,
    GetSetCpParams,
    SetCpCmd,
    SetCpLeCmd,
    GetSetArcParams,
    SetSetArcCmd,
    SetWaitCmd,
    SetTrigCmd,
    GetSetIoMultiplexing,
    GetSetIoDo,
    GetSetIoPwm,
    GetIoDi,
    GetIoAdc,
    SetEMotor,
    GetSetColorSensor,
    GetSetIrSwitch,
    GetSetAngleSensorStaticError,
    GetSetWifiConfigMode,
    GetSetWifiSsid,
    GetSetWifiPassword,
    GetSetWifiAddress,
    GetSetWifiNetmask,
    GetSetWifiGateway,
    GetSetWifiDns,
    GetSetWifiConnectStatus,
    SetLostStepParams,
    SetLostStepCmd,
    SetQueuedCmdStartExec,
    SetQueuedCmdStopExec,
    SetQueuedCmdForceStopExec,
    SetQueuedCmdStartDownload,
    SetQueuedCmdStopDownload,
    SetQueuedCmdClear,
    SetQueuedCmdCurrentIndex,
}

/// The wire byte that encodes a command identifier.
pub open spec fn command_id_byte(id: CommandID) -> u8 {
    match id {
        CommandID::GetSetDeviceSn => 0,
        CommandID::GetSetDeviceName => 1,
        CommandID::GetDeviceVersion => 2,
        CommandID::GetDeviceWithL => 3,
        CommandID::GetDeviceTime => 4,
        CommandID::GetPose => 10,
        CommandID::ResetPose => 11,
        CommandID::GetPoseL => 13,
        CommandID::GetAlarmsState => 20,
        CommandID::ClearAllAlarmsState => 21,
        CommandID::GetSetHomeParams => 30,
        CommandID::SetHomeCmd => 31,
        CommandID::GetSetHHTTrigMode => 40,
        CommandID::GetSetHHTTrigOutputEnabled => 41,
        CommandID::GetHHTTrigOutput => 42,
        CommandID::GetSetEndEffectorParams => 60,
        CommandID::GetSetEndEffectorLaser => 61,
        CommandID::GetSetEndEffectorSuctionCup => 62,
        CommandID::GetSetEndEffectorGripper => 63,
        CommandID::GetSetJogJointParams => 70,
        CommandID::GetSetJogCoordinateParams => 71,
        CommandID::GetSetJogCommonParams => 72,
        CommandID::SetJogCmd => 73,
        CommandID::GetSetJogLParams => 74,
        CommandID::GetSetPtpJointParams => 80,
        CommandID::GetSetPtpCoordinateParams => 81,
        CommandID::GetSetPtpJumpParams => 82,
        CommandID::GetSetPtpCommonParams => 83,
        CommandID::SetPtpCmd => 84,
        CommandID::GetSetPtpLParams => 85,
        CommandID::SetPtpWithLCmd => 86,
        CommandID::GetSetPtpJump2Params => 87,
        CommandID::SetPtpPoCmd => 88,
        CommandID::SetPtpPoWithLCmd => 89,
        CommandID::GetSetCpParams => 90,
        CommandID::SetCpCmd => 91,
        CommandID::SetCpLeCmd => 92,
        CommandID::GetSetArcParams => 100,
        CommandID::SetSetArcCmd => 101,
        CommandID::SetWaitCmd => 110,
        CommandID::SetTrigCmd => 120,
        CommandID::GetSetIoMultiplexing => 130,
        CommandID::GetSetIoDo => 131,
        CommandID::GetSetIoPwm => 132,
        CommandID::GetIoDi => 133,
        CommandID::GetIoAdc => 134,
        CommandID::SetEMotor => 135,
        CommandID::GetSetColorSensor => 137,
        CommandID::GetSetIrSwitch => 138,
        CommandID::GetSetAngleSensorStaticError => 140,
        CommandID::GetSetWifiConfigMode => 150,
        CommandID::GetSetWifiSsid => 151,
        CommandID::GetSetWifiPassword => 152,
        CommandID::GetSetWifiAddress => 153,
        CommandID::GetSetWifiNetmask => 154,
        CommandID::GetSetWifiGateway => 155,
        CommandID::GetSetWifiDns => 156,
        CommandID::GetSetWifiConnectStatus => 157,
        CommandID::SetLostStepParams => 170,
        CommandID::SetLostStepCmd => 171,
        CommandID::SetQueuedCmdStartExec => 240,
        CommandID::SetQueuedCmdStopExec => 241,
        CommandID::SetQueuedCmdForceStopExec => 242,
        CommandID::SetQueuedCmdStartDownload => 243,
        CommandID::SetQueuedCmdStopDownload => 244,
        CommandID::SetQueuedCmdClear => 245,
        CommandID::SetQueuedCmdCurrentIndex => 246,
    }
}

/// The command identifier a wire byte decodes to, if any.
pub open spec fn spec_command_id_from_byte(b: u8) -> Option<CommandID> {
    match b {
        0 => Some(CommandID::GetSetDeviceSn),
        1 => Some(CommandID::GetSetDeviceName),
        2 => Some(CommandID::GetDeviceVersion),
        3 => Some(CommandID::GetDeviceWithL),
        4 => Some(CommandID::GetDeviceTime),
        10 => Some(CommandID::GetPose),
        11 => Some(CommandID::ResetPose),
        13 => Some(CommandID::GetPoseL),
        20 => Some(CommandID::GetAlarmsState),
        21 => Some(CommandID::ClearAllAlarmsState),
        30 => Some(CommandID::GetSetHomeParams),
        31 => Some(CommandID::SetHomeCmd),
        40 => Some(CommandID::GetSetHHTTrigMode),
        41 => Some(CommandID::GetSetHHTTrigOutputEnabled),
        42 => Some(CommandID::GetHHTTrigOutput),
        60 => Some(CommandID::GetSetEndEffectorParams),
        61 => Some(CommandID::GetSetEndEffectorLaser),
        62 => Some(CommandID::GetSetEndEffectorSuctionCup),
        63 => Some(CommandID::GetSetEndEffectorGripper),
        70 => Some(CommandID::GetSetJogJointParams),
        71 => Some(CommandID::GetSetJogCoordinateParams),
        72 => Some(CommandID::GetSetJogCommonParams),
        73 => Some(CommandID::SetJogCmd),
        74 => Some(CommandID::GetSetJogLParams),
        80 => Some(CommandID::GetSetPtpJointParams),
        81 => Some(CommandID::GetSetPtpCoordinateParams),
        82 => Some(CommandID::GetSetPtpJumpParams),
        83 => Some(CommandID::GetSetPtpCommonParams),
        84 => Some(CommandID::SetPtpCmd),
        85 => Some(CommandID::GetSetPtpLParams),
        86 => Some(CommandID::SetPtpWithLCmd),
        87 => Some(CommandID::GetSetPtpJump2Params),
        88 => Some(CommandID::SetPtpPoCmd),
        89 => Some(CommandID::SetPtpPoWithLCmd),
        90 => Some(CommandID::GetSetCpParams),
        91 => Some(CommandID::SetCpCmd),
        92 => Some(CommandID::SetCpLeCmd),
        100 => Some(CommandID::GetSetArcParams),
        101 => Some(CommandID::SetSetArcCmd),
        110 => Some(CommandID::SetWaitCmd),
        120 => Some(CommandID::SetTrigCmd),
        130 => Some(CommandID::GetSetIoMultiplexing),
        131 => Some(CommandID::GetSetIoDo),
        132 => Some(CommandID::GetSetIoPwm),
        133 => Some(CommandID::GetIoDi),
        134 => Some(CommandID::GetIoAdc),
        135 => Some(CommandID::SetEMotor),
        137 => Some(CommandID::GetSetColorSensor),
        138 => Some(CommandID::GetSetIrSwitch),
        140 => Some(CommandID::GetSetAngleSensorStaticError),
        150 => Some(CommandID::GetSetWifiConfigMode),
        151 => Some(CommandID::GetSetWifiSsid),
        152 => Some(CommandID::GetSetWifiPassword),
        153 => Some(CommandID::GetSetWifiAddress),
        154 => Some(CommandID::GetSetWifiNetmask),
        155 => Some(CommandID::GetSetWifiGateway),
        156 => Some(CommandID::GetSetWifiDns),
        157 => Some(CommandID::GetSetWifiConnectStatus),
        170 => Some(CommandID::SetLostStepParams),
        171 => Some(CommandID::SetLostStepCmd),
        240 => Some(CommandID::SetQueuedCmdStartExec),
        241 => Some(CommandID::SetQueuedCmdStopExec),
        242 => Some(CommandID::SetQueuedCmdForceStopExec),
        243 => Some(CommandID::SetQueuedCmdStartDownload),
        244 => Some(CommandID::SetQueuedCmdStopDownload),
        245 => Some(CommandID::SetQueuedCmdClear),
        246 => Some(CommandID::SetQueuedCmdCurrentIndex),
        _ => None,
    }
}

impl CommandID {
    /// Encode this command identifier as its wire byte.
    pub fn to_byte(self) -> (b: u8)
        ensures
            b == command_id_byte(self),
    {
        match self {
            CommandID::GetSetDeviceSn => 0,
            CommandID::GetSetDeviceName => 1,
            CommandID::GetDeviceVersion => 2,
            CommandID::GetDeviceWithL => 3,
            CommandID::GetDeviceTime => 4,
            CommandID::GetPose => 10,
            CommandID::ResetPose => 11,
            CommandID::GetPoseL => 13,
            CommandID::GetAlarmsState => 20,
            CommandID::ClearAllAlarmsState => 21,
            CommandID::GetSetHomeParams => 30,
            CommandID::SetHomeCmd => 31,
            CommandID::GetSetHHTTrigMode => 40,
            CommandID::GetSetHHTTrigOutputEnabled => 41,
            CommandID::GetHHTTrigOutput => 42,
            CommandID::GetSetEndEffectorParams => 60,
            CommandID::GetSetEndEffectorLaser => 61,
            CommandID::GetSetEndEffectorSuctionCup => 62,
            CommandID::GetSetEndEffectorGripper => 63,
            CommandID::GetSetJogJointParams => 70,
            CommandID::GetSetJogCoordinateParams => 71,
            CommandID::GetSetJogCommonParams => 72,
            CommandID::SetJogCmd => 73,
            CommandID::GetSetJogLParams => 74,
            CommandID::GetSetPtpJointParams => 80,
            CommandID::GetSetPtpCoordinateParams => 81,
            CommandID::GetSetPtpJumpParams => 82,
            CommandID::GetSetPtpCommonParams => 83,
            CommandID::SetPtpCmd => 84,
            CommandID::GetSetPtpLParams => 85,
            CommandID::SetPtpWithLCmd => 86,
            CommandID::GetSetPtpJump2Params => 87,
            CommandID::SetPtpPoCmd => 88,
            CommandID::SetPtpPoWithLCmd => 89,
            CommandID::GetSetCpParams => 90,
            CommandID::SetCpCmd => 91,
            CommandID::SetCpLeCmd => 92,
            CommandID::GetSetArcParams => 100,
            CommandID::SetSetArcCmd => 101,
            CommandID::SetWaitCmd => 110,
            CommandID::SetTrigCmd => 120,
            CommandID::GetSetIoMultiplexing => 130,
            CommandID::GetSetIoDo => 131,
            CommandID::GetSetIoPwm => 132,
            CommandID::GetIoDi => 133,
            CommandID::GetIoAdc => 134,
            CommandID::SetEMotor => 135,
            CommandID::GetSetColorSensor => 137,
            CommandID::GetSetIrSwitch => 138,
            CommandID::GetSetAngleSensorStaticError => 140,
            CommandID::GetSetWifiConfigMode => 150,
            CommandID::GetSetWifiSsid => 151,
            CommandID::GetSetWifiPassword => 152,
            CommandID::GetSetWifiAddress => 153,
            CommandID::GetSetWifiNetmask => 154,
            CommandID::GetSetWifiGateway => 155,
            CommandID::GetSetWifiDns => 156,
            CommandID::GetSetWifiConnectStatus => 157,
            CommandID::SetLostStepParams => 170,
            CommandID::SetLostStepCmd => 171,
            CommandID::SetQueuedCmdStartExec => 240,
            CommandID::SetQueuedCmdStopExec => 241,
            CommandID::SetQueuedCmdForceStopExec => 242,
            CommandID::SetQueuedCmdStartDownload => 243,
            CommandID::SetQueuedCmdStopDownload => 244,
            CommandID::SetQueuedCmdClear => 245,
            CommandID::SetQueuedCmdCurrentIndex => 246,
        }
    }

    /// Decode a wire byte into a command identifier; unmapped bytes are
    /// rejected, never defaulted.
    pub fn from_byte(b: u8) -> (r: Option<CommandID>)
        ensures
            r == spec_command_id_from_byte(b),
    {
        match b {
            0 => Some(CommandID::GetSetDeviceSn),
            1 => Some(CommandID::GetSetDeviceName),
            2 => Some(CommandID::GetDeviceVersion),
            3 => Some(CommandID::GetDeviceWithL),
            4 => Some(CommandID::GetDeviceTime),
            10 => Some(CommandID::GetPose),
            11 => Some(CommandID::ResetPose),
            13 => Some(CommandID::GetPoseL),
            20 => Some(CommandID::GetAlarmsState),
            21 => Some(CommandID::ClearAllAlarmsState),
            30 => Some(CommandID::GetSetHomeParams),
            31 => Some(CommandID::SetHomeCmd),
            40 => Some(CommandID::GetSetHHTTrigMode),
            41 => Some(CommandID::GetSetHHTTrigOutputEnabled),
            42 => Some(CommandID::GetHHTTrigOutput),
            60 => Some(CommandID::GetSetEndEffectorParams),
            61 => Some(CommandID::GetSetEndEffectorLaser),
            62 => Some(CommandID::GetSetEndEffectorSuctionCup),
            63 => Some(CommandID::GetSetEndEffectorGripper),
            70 => Some(CommandID::GetSetJogJointParams),
            71 => Some(CommandID::GetSetJogCoordinateParams),
            72 => Some(CommandID::GetSetJogCommonParams),
            73 => Some(CommandID::SetJogCmd),
            74 => Some(CommandID::GetSetJogLParams),
            80 => Some(CommandID::GetSetPtpJointParams),
            81 => Some(CommandID::GetSetPtpCoordinateParams),
            82 => Some(CommandID::GetSetPtpJumpParams),
            83 => Some(CommandID::GetSetPtpCommonParams),
            84 => Some(CommandID::SetPtpCmd),
            85 => Some(CommandID::GetSetPtpLParams),
            86 => Some(CommandID::SetPtpWithLCmd),
            87 => Some(CommandID::GetSetPtpJump2Params),
            88 => Some(CommandID::SetPtpPoCmd),
            89 => Some(CommandID::SetPtpPoWithLCmd),
            90 => Some(CommandID::GetSetCpParams),
            91 => Some(CommandID::SetCpCmd),
            92 => Some(CommandID::SetCpLeCmd),
            100 => Some(CommandID::GetSetArcParams),
            101 => Some(CommandID::SetSetArcCmd),
            110 => Some(CommandID::SetWaitCmd),
            120 => Some(CommandID::SetTrigCmd),
            130 => Some(CommandID::GetSetIoMultiplexing),
            131 => Some(CommandID::GetSetIoDo),
            132 => Some(CommandID::GetSetIoPwm),
            133 => Some(CommandID::GetIoDi),
            134 => Some(CommandID::GetIoAdc),
            135 => Some(CommandID::SetEMotor),
            137 => Some(CommandID::GetSetColorSensor),
            138 => Some(CommandID::GetSetIrSwitch),
            140 => Some(CommandID::GetSetAngleSensorStaticError),
            150 => Some(CommandID::GetSetWifiConfigMode),
            151 => Some(CommandID::GetSetWifiSsid),
            152 => Some(CommandID::GetSetWifiPassword),
            153 => Some(CommandID::GetSetWifiAddress),
            154 => Some(CommandID::GetSetWifiNetmask),
            155 => Some(CommandID::GetSetWifiGateway),
            156 => Some(CommandID::GetSetWifiDns),
            157 => Some(CommandID::GetSetWifiConnectStatus),
            170 => Some(CommandID::SetLostStepParams),
            171 => Some(CommandID::SetLostStepCmd),
            240 => Some(CommandID::SetQueuedCmdStartExec),
            241 => Some(CommandID::SetQueuedCmdStopExec),
            242 => Some(CommandID::SetQueuedCmdForceStopExec),
            243 => Some(CommandID::SetQueuedCmdStartDownload),
            244 => Some(CommandID::SetQueuedCmdStopDownload),
            245 => Some(CommandID::SetQueuedCmdClear),
            246 => Some(CommandID::SetQueuedCmdCurrentIndex),
            _ => None,
        }
    }
}

/// Encoding a command identifier and decoding the byte yields the identifier
/// back, for every identifier in the vocabulary.
pub proof fn lemma_command_id_byte_round_trip(id: CommandID)
    ensures
        spec_command_id_from_byte(command_id_byte(id)) == Some(id),
{
}

/// Trajectory mode of a point-to-point motion command.
#[derive(Copy, Clone, PartialEq, Eq, Structural, Debug)]
pub enum Mode {
    PtpJumpXyz,
    PtpMovjXyz,
    PtpMovlXyz,
    PtpJumpAngle,
    PtpMovjAngle,
    PtpMovlAngle,
    PtpMovjInc,
    PtpMovlInc,
    PtpMovjXyzInc,
    PtpJumpMovlXyz,
}

/// The wire byte that encodes a point-to-point trajectory mode.
pub open spec fn mode_byte(mode: Mode) -> u8 {
    match mode {
        Mode::PtpJumpXyz => 0,
        Mode::PtpMovjXyz => 1,
        Mode::PtpMovlXyz => 2,
        Mode::PtpJumpAngle => 3,
        Mode::PtpMovjAngle => 4,
        Mode::PtpMovlAngle => 5,
        Mode::PtpMovjInc => 6,
        Mode::PtpMovlInc => 7,
        Mode::PtpMovjXyzInc => 8,
        Mode::PtpJumpMovlXyz => 9,
    }
}

impl Mode {
    /// Encode this trajectory mode as its wire byte.
    pub fn to_byte(self) -> (b: u8)
        ensures
            b == mode_byte(self),
    {
        match self {
            Mode::PtpJumpXyz => 0,
            Mode::PtpMovjXyz => 1,
            Mode::PtpMovlXyz => 2,
            Mode::PtpJumpAngle => 3,
            Mode::PtpMovjAngle => 4,
            Mode::PtpMovlAngle => 5,
            Mode::PtpMovjInc => 6,
            Mode::PtpMovlInc => 7,
            Mode::PtpMovjXyzInc => 8,
            Mode::PtpJumpMovlXyz => 9,
        }
    }
}

} // verus!
