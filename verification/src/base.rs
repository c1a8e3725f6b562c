//! The device channel: request/response round trips with the robot-arm
//! controller over the physical serial link.
//!
//! Every command-specific helper builds its parameter bytes in little-endian
//! order matching the field order, issues the frame, and — for queued
//! commands — extracts the assigned queue index from the response. Multi-word
//! motion settings and coordinates travel as IEEE-754 single-precision bit
//! patterns; this layer shuttles the raw 32-bit words and never does float
//! arithmetic itself.

use vstd::bytes::{
    spec_u32_from_le_bytes, spec_u32_to_le_bytes, spec_u64_from_le_bytes, u32_from_le_bytes,
    u32_to_le_bytes, u64_from_le_bytes,
};
use vstd::prelude::*;

use crate::command::{CommandID, Mode, mode_byte};
use crate::error::Error;
use crate::message::DobotMessage;
use crate::serial::{serial_open, serial_write_all};

verus! {

/// The serial device file of the robot-arm controller.
pub const SERIAL_DEVICE: &'static str = "/dev/ttyUSB0";

/// The baud rate of the robot-arm controller's serial link.
pub const SERIAL_BAUD_RATE: u32 = 115200;

/// Bit pattern of the single-precision value two hundred, the default motion
/// velocity/acceleration setting sent during startup.
pub const DEFAULT_PTP_PARAM_BITS: u32 = 0x4348_0000;

/// Bit pattern of the single-precision value ten, the default jump height.
pub const DEFAULT_JUMP_HEIGHT_BITS: u32 = 0x4120_0000;

/// Bit pattern of the single-precision value one hundred, the default
/// velocity/acceleration ratio.
pub const DEFAULT_PTP_RATIO_BITS: u32 = 0x42c8_0000;

/// Conveyor speeds below this magnitude are raised to it, except zero.
pub const MIN_BELT_SPEED: i32 = 500;

/// Conveyor speeds above this are capped to it.
pub const MAX_BELT_SPEED: i32 = 15000;

/// The measured pose reported by the device: four cartesian coordinates and
/// four joint angles, each an IEEE-754 single-precision bit pattern exactly
/// as it appeared on the wire.
#[derive(Copy, Clone, PartialEq, Eq, Structural, Debug)]
pub struct Pose {
    pub x: u32,
    pub y: u32,
    pub z: u32,
    pub r: u32,
    pub j1: u32,
    pub j2: u32,
    pub j3: u32,
    pub j4: u32,
}

/// Append one little-endian 32-bit word to a parameter buffer.
fn push_word(out: &mut Vec<u8>, word: u32)
    ensures
        final(out)@ == old(out)@ + spec_u32_to_le_bytes(word),
        final(out)@.len() == old(out)@.len() + 4,
{
    let mut bytes = u32_to_le_bytes(word);
    out.append(&mut bytes);
}

/// Parameter bytes of a joint motion-settings command: four velocity words
/// then four acceleration words, little-endian each.
pub fn ptp_joint_params_bytes(
    v_x: u32,
    v_y: u32,
    v_z: u32,
    v_r: u32,
    a_x: u32,
    a_y: u32,
    a_z: u32,
    a_r: u32,
) -> (r: Vec<u8>)
    ensures
        r@ == spec_u32_to_le_bytes(v_x) + spec_u32_to_le_bytes(v_y) + spec_u32_to_le_bytes(v_z)
            + spec_u32_to_le_bytes(v_r) + spec_u32_to_le_bytes(a_x) + spec_u32_to_le_bytes(a_y)
            + spec_u32_to_le_bytes(a_z) + spec_u32_to_le_bytes(a_r),
        r@.len() == 32,
{
    let mut out: Vec<u8> = Vec::new();
    push_word(&mut out, v_x);
    push_word(&mut out, v_y);
    push_word(&mut out, v_z);
    push_word(&mut out, v_r);
    push_word(&mut out, a_x);
    push_word(&mut out, a_y);
    push_word(&mut out, a_z);
    push_word(&mut out, a_r);
    out
}

/// Parameter bytes of a coordinate motion-settings command: the velocity word
/// twice, then the acceleration word twice.
pub fn ptp_coordinate_params_bytes(velocity: u32, acceleration: u32) -> (r: Vec<u8>)
    ensures
        r@ == spec_u32_to_le_bytes(velocity) + spec_u32_to_le_bytes(velocity)
            + spec_u32_to_le_bytes(acceleration) + spec_u32_to_le_bytes(acceleration),
        r@.len() == 16,
{
    let mut out: Vec<u8> = Vec::new();
    push_word(&mut out, velocity);
    push_word(&mut out, velocity);
    push_word(&mut out, acceleration);
    push_word(&mut out, acceleration);
    out
}

/// Parameter bytes of a jump motion-settings command: jump height then limit.
pub fn ptp_jump_params_bytes(jump: u32, limit: u32) -> (r: Vec<u8>)
    ensures
        r@ == spec_u32_to_le_bytes(jump) + spec_u32_to_le_bytes(limit),
        r@.len() == 8,
{
    let mut out: Vec<u8> = Vec::new();
    push_word(&mut out, jump);
    push_word(&mut out, limit);
    out
}

/// Parameter bytes of a common motion-settings command: velocity ratio then
/// acceleration ratio.
pub fn ptp_common_params_bytes(velocity: u32, acceleration: u32) -> (r: Vec<u8>)
    ensures
        r@ == spec_u32_to_le_bytes(velocity) + spec_u32_to_le_bytes(acceleration),
        r@.len() == 8,
{
    let mut out: Vec<u8> = Vec::new();
    push_word(&mut out, velocity);
    push_word(&mut out, acceleration);
    out
}

/// Parameter bytes of a point-to-point move: the mode byte, then the four
/// coordinate words x, y, z, r.
pub fn ptp_cmd_params_bytes(x: u32, y: u32, z: u32, r: u32, mode: Mode) -> (out: Vec<u8>)
    ensures
        out@ == seq![mode_byte(mode)] + spec_u32_to_le_bytes(x) + spec_u32_to_le_bytes(y)
            + spec_u32_to_le_bytes(z) + spec_u32_to_le_bytes(r),
        out@.len() == 17,
{
    let mut out: Vec<u8> = Vec::new();
    out.push(mode.to_byte());
    push_word(&mut out, x);
    push_word(&mut out, y);
    push_word(&mut out, z);
    push_word(&mut out, r);
    proof {
        assert(out@ =~= seq![mode_byte(mode)] + spec_u32_to_le_bytes(x) + spec_u32_to_le_bytes(y)
            + spec_u32_to_le_bytes(z) + spec_u32_to_le_bytes(r));
    }
    out
}

/// The clamped conveyor speed actually sent to the motor: zero stays zero,
/// anything else is forced into the allowed band.
pub open spec fn spec_clamped_speed(speed: i32) -> i32 {
    if speed == 0 {
        0
    } else if speed < MIN_BELT_SPEED {
        MIN_BELT_SPEED
    } else if speed > MAX_BELT_SPEED {
        MAX_BELT_SPEED
    } else {
        speed
    }
}

/// Parameter bytes of a conveyor motor command: an index byte, an enable
/// byte, then the clamped speed as a little-endian 32-bit word.
pub fn speed_to_command_bytes(speed: i32) -> (r: Vec<u8>)
    ensures
        r@ == seq![0u8, 1u8] + spec_u32_to_le_bytes(spec_clamped_speed(speed) as u32),
        r@.len() == 6,
{
    let clamped: i32 = if speed == 0 {
        0
    } else if speed < MIN_BELT_SPEED {
        MIN_BELT_SPEED
    } else if speed > MAX_BELT_SPEED {
        MAX_BELT_SPEED
    } else {
        speed
    };
    let mut out: Vec<u8> = Vec::new();
    out.push(0);
    out.push(1);
    push_word(&mut out, clamped as u32);
    proof {
        assert(out@ =~= seq![0u8, 1u8] + spec_u32_to_le_bytes(spec_clamped_speed(speed) as u32));
    }
    out
}

/// Extract the queue index a queued command was assigned: the first eight
/// response parameter bytes as a little-endian 64-bit integer. A shorter
/// response is rejected as truncated.
pub fn parse_queued_index(params: &[u8]) -> (r: Result<u64, Error>)
    ensures
        params@.len() >= 8 ==> r == Ok::<u64, Error>(
            spec_u64_from_le_bytes(params@.subrange(0, 8)),
        ),
        params@.len() < 8 ==> r == Err::<u64, Error>(Error::Truncated),
{
    if params.len() < 8 {
        return Err(Error::Truncated);
    }
    let index = u64_from_le_bytes(vstd::slice::slice_subrange(params, 0, 8));
    Ok(index)
}

/// Parse a pose response: exactly 32 parameter bytes holding eight
/// little-endian 32-bit words — x, y, z, r, then the four joint angles. Any
/// other payload size is rejected as truncated.
pub fn parse_pose(params: &[u8]) -> (r: Result<Pose, Error>)
    ensures
        params@.len() == 32 ==> (r matches Ok(p) && p == (Pose {
            x: spec_u32_from_le_bytes(params@.subrange(0, 4)),
            y: spec_u32_from_le_bytes(params@.subrange(4, 8)),
            z: spec_u32_from_le_bytes(params@.subrange(8, 12)),
            r: spec_u32_from_le_bytes(params@.subrange(12, 16)),
            j1: spec_u32_from_le_bytes(params@.subrange(16, 20)),
            j2: spec_u32_from_le_bytes(params@.subrange(20, 24)),
            j3: spec_u32_from_le_bytes(params@.subrange(24, 28)),
            j4: spec_u32_from_le_bytes(params@.subrange(28, 32)),
        })),
        params@.len() != 32 ==> r == Err::<Pose, Error>(Error::Truncated),
{
    if params.len() != 32 {
        return Err(Error::Truncated);
    }
    let pose = Pose {
        x: u32_from_le_bytes(vstd::slice::slice_subrange(params, 0, 4)),
        y: u32_from_le_bytes(vstd::slice::slice_subrange(params, 4, 8)),
        z: u32_from_le_bytes(vstd::slice::slice_subrange(params, 8, 12)),
        r: u32_from_le_bytes(vstd::slice::slice_subrange(params, 12, 16)),
        j1: u32_from_le_bytes(vstd::slice::slice_subrange(params, 16, 20)),
        j2: u32_from_le_bytes(vstd::slice::slice_subrange(params, 20, 24)),
        j3: u32_from_le_bytes(vstd::slice::slice_subrange(params, 24, 28)),
        j4: u32_from_le_bytes(vstd::slice::slice_subrange(params, 28, 32)),
    };
    Ok(pose)
}

/// The robot-arm controller, owning the physical serial link. At most one
/// request/response exchange may be in flight at a time: the protocol has no
/// request identifiers, so responses match requests purely by arrival order.
/// Exclusive access comes from `&mut self` on every command method.
pub struct Dobot {
    serial: serial2::SerialPort,
}

/// An in-flight queued command, identified by the queue index the device
/// assigned to it. Consumed exactly once by [`WaitHandle::wait`].
pub struct WaitHandle {
    /// The index the device's executed-index counter must reach.
    pub command_index: u64,
}

impl WaitHandle {
    /// A handle for the queued command with the given assigned index.
    pub(crate) fn new(command_index: u64) -> (r: WaitHandle)
        ensures
            r.command_index == command_index,
    {
        WaitHandle { command_index }
    }

    /// Block until the device's executed-index counter reaches this command's
    /// index, polling the counter once per iteration. The wait is bounded:
    /// after `max_polls` polls without progress it gives up with `Timeout`
    /// instead of stalling forever; a caller that wants a wall-clock bound
    /// chooses `max_polls` from its polling interval.
    pub fn wait(self, dobot: &mut Dobot, max_polls: u64) -> (r: Result<(), Error>)
        ensures
            max_polls == 0 ==> r == Err::<(), Error>(Error::Timeout),
    {
        let mut polls: u64 = 0;
        while polls < max_polls
            invariant
                polls <= max_polls,
            decreases max_polls - polls,
        {
            let current_index = match dobot.get_queued_cmd_current_index() {
                Ok(index) => index,
                Err(e) => {
                    return Err(e);
                },
            };
            if current_index >= self.command_index {
                return Ok(());
            }
            polls = polls + 1;
        }
        Err(Error::Timeout)
    }
}

impl Dobot {
    /// Open the controller's serial device and run the startup sequence:
    /// start queued-command execution, clear the queue, program the default
    /// motion settings, and read the pose once.
    pub fn open() -> (r: Result<Dobot, Error>) {
        let serial = match serial_open(SERIAL_DEVICE, SERIAL_BAUD_RATE) {
            Ok(port) => port,
            Err(e) => {
                return Err(e);
            },
        };
        let mut dobot = Dobot { serial };
        match dobot.set_queued_cmd_start_exec() {
            Ok(()) => (),
            Err(e) => {
                return Err(e);
            },
        }
        match dobot.set_queued_cmd_clear() {
            Ok(()) => (),
            Err(e) => {
                return Err(e);
            },
        }
        match dobot.set_ptp_joint_params(
            DEFAULT_PTP_PARAM_BITS,
            DEFAULT_PTP_PARAM_BITS,
            DEFAULT_PTP_PARAM_BITS,
            DEFAULT_PTP_PARAM_BITS,
            DEFAULT_PTP_PARAM_BITS,
            DEFAULT_PTP_PARAM_BITS,
            DEFAULT_PTP_PARAM_BITS,
            DEFAULT_PTP_PARAM_BITS,
        ) {
            Ok(_) => (),
            Err(e) => {
                return Err(e);
            },
        }
        match dobot.set_ptp_coordinate_params(DEFAULT_PTP_PARAM_BITS, DEFAULT_PTP_PARAM_BITS) {
            Ok(_) => (),
            Err(e) => {
                return Err(e);
            },
        }
        match dobot.set_ptp_jump_params(DEFAULT_JUMP_HEIGHT_BITS, DEFAULT_PTP_PARAM_BITS) {
            Ok(_) => (),
            Err(e) => {
                return Err(e);
            },
        }
        match dobot.set_ptp_common_params(DEFAULT_PTP_RATIO_BITS, DEFAULT_PTP_RATIO_BITS) {
            Ok(_) => (),
            Err(e) => {
                return Err(e);
            },
        }
        match dobot.get_pose() {
            Ok(_) => (),
            Err(e) => {
                return Err(e);
            },
        }
        Ok(dobot)
    }

    /// Send one request frame and block for the matching response frame.
    /// Whatever arrives has passed the full decoder, so any returned frame is
    /// internally consistent; there is no retry at this layer.
    pub fn send_command(&mut self, request_msg: DobotMessage) -> (r: Result<DobotMessage, Error>)
        ensures
            r matches Ok(m) ==> m@.frame_consistent(),
    {
        let bytes = request_msg.to_bytes();
        match serial_write_all(&self.serial, bytes.as_slice()) {
            Ok(()) => (),
            Err(e) => {
                return Err(e);
            },
        }
        DobotMessage::from_async_reader(&self.serial)
    }

    /// Issue one queued command and return a handle for its assigned index.
    fn send_queued(&mut self, id: CommandID, params: Vec<u8>) -> (r: Result<WaitHandle, Error>)
        requires
            params@.len() <= 253,
    {
        let request_msg = DobotMessage::new(id, true, true, params).unwrap();
        let response_msg = match self.send_command(request_msg) {
            Ok(m) => m,
            Err(e) => {
                return Err(e);
            },
        };
        let index = match parse_queued_index(response_msg.params()) {
            Ok(index) => index,
            Err(e) => {
                return Err(e);
            },
        };
        Ok(WaitHandle::new(index))
    }

    /// Issue one non-queued command with no parameters and discard the
    /// response payload.
    fn send_plain(&mut self, id: CommandID) -> (r: Result<(), Error>) {
        let request_msg = DobotMessage::new(id, true, false, Vec::new()).unwrap();
        match self.send_command(request_msg) {
            Ok(_) => Ok(()),
            Err(e) => Err(e),
        }
    }

    /// Program the joint motion velocities and accelerations (queued).
    pub fn set_ptp_joint_params(
        &mut self,
        v_x: u32,
        v_y: u32,
        v_z: u32,
        v_r: u32,
        a_x: u32,
        a_y: u32,
        a_z: u32,
        a_r: u32,
    ) -> (r: Result<WaitHandle, Error>) {
        let params = ptp_joint_params_bytes(v_x, v_y, v_z, v_r, a_x, a_y, a_z, a_r);
        self.send_queued(CommandID::GetSetPtpJointParams, params)
    }

    /// Program the coordinate motion velocity and acceleration (queued).
    pub fn set_ptp_coordinate_params(&mut self, velocity: u32, acceleration: u32) -> (r: Result<
        WaitHandle,
        Error,
    >) {
        let params = ptp_coordinate_params_bytes(velocity, acceleration);
        self.send_queued(CommandID::GetSetPtpCoordinateParams, params)
    }

    /// Program the jump height and limit (queued).
    pub fn set_ptp_jump_params(&mut self, jump: u32, limit: u32) -> (r: Result<WaitHandle, Error>) {
        let params = ptp_jump_params_bytes(jump, limit);
        self.send_queued(CommandID::GetSetPtpJumpParams, params)
    }

    /// Program the common velocity and acceleration ratios (queued).
    pub fn set_ptp_common_params(&mut self, velocity: u32, acceleration: u32) -> (r: Result<
        WaitHandle,
        Error,
    >) {
        let params = ptp_common_params_bytes(velocity, acceleration);
        self.send_queued(CommandID::GetSetPtpCommonParams, params)
    }

    /// Command a point-to-point move to the given coordinates (queued). The
    /// coordinates are single-precision bit patterns.
    pub fn set_ptp_cmd(&mut self, x: u32, y: u32, z: u32, r: u32, mode: Mode) -> (res: Result<
        WaitHandle,
        Error,
    >) {
        let params = ptp_cmd_params_bytes(x, y, z, r, mode);
        self.send_queued(CommandID::SetPtpCmd, params)
    }

    /// Switch the suction-cup end effector on or off (queued).
    pub fn set_end_effector_suction_cup(&mut self, enable: bool) -> (r: Result<WaitHandle, Error>) {
        let mut params: Vec<u8> = Vec::new();
        params.push(0x01);
        params.push(if enable {
            1
        } else {
            0
        });
        self.send_queued(CommandID::GetSetEndEffectorSuctionCup, params)
    }

    /// Start executing queued commands.
    pub fn set_queued_cmd_start_exec(&mut self) -> (r: Result<(), Error>) {
        self.send_plain(CommandID::SetQueuedCmdStartExec)
    }

    /// Clear the device's command queue.
    pub fn set_queued_cmd_clear(&mut self) -> (r: Result<(), Error>) {
        self.send_plain(CommandID::SetQueuedCmdClear)
    }

    /// Read the device's executed-index counter: the index of the queued
    /// command it most recently completed.
    pub fn get_queued_cmd_current_index(&mut self) -> (r: Result<u64, Error>) {
        let request_msg = DobotMessage::new(
            CommandID::SetQueuedCmdCurrentIndex,
            false,
            false,
            Vec::new(),
        ).unwrap();
        let response_msg = match self.send_command(request_msg) {
            Ok(m) => m,
            Err(e) => {
                return Err(e);
            },
        };
        parse_queued_index(response_msg.params())
    }

    /// Start the homing calibration (queued).
    pub fn set_home(&mut self) -> (r: Result<WaitHandle, Error>) {
        self.send_queued(CommandID::SetHomeCmd, Vec::new())
    }

    /// Query the current measured pose. The response payload must be exactly
    /// 32 bytes — eight little-endian words — or it is rejected as truncated.
    pub fn get_pose(&mut self) -> (r: Result<Pose, Error>) {
        let request_msg = DobotMessage::new(CommandID::GetPose, false, false, Vec::new()).unwrap();
        let response_msg = match self.send_command(request_msg) {
            Ok(m) => m,
            Err(e) => {
                return Err(e);
            },
        };
        parse_pose(response_msg.params())
    }
}

} // verus!
