//! The motion/process state machine that sequences pickup, inspection,
//! routing and drop.
//!
//! One tick per control period: the caller snapshots all sensor inputs first,
//! then calls [`Controller::tick`], which decides at most one transition and
//! appends every command the transition issues — conveyor speed, arm target
//! pose, suction — to the output list in the same tick. Unmatched state/guard
//! combinations are a no-op: the state and destination are held unchanged.
//!
//! Pose coordinates are fixed-point hundredths of a device unit, so arrival
//! detection is exact integer arithmetic on squared distances.

use vstd::prelude::*;

use crate::reader::spec_elapsed_ms;
use crate::types::{Color, DobotPose, MotorSpeed, Presence, Suction};

verus! {

/// The states of the sorting sequence, exactly one active at a time.
#[derive(Copy, Clone, PartialEq, Eq, Structural, Debug)]
pub enum State {
    Initial,
    GetReady,
    WaitForBlock,
    PickUpBlock,
    LiftUpBlock,
    CheckColor,
    LiftUpFromColor,
    MoveToRed,
    MoveToGreen,
    MoveToBlue,
    MoveToMixed,
    DropBlock,
}

/// One command the sequencer issues to the external transport.
#[derive(Copy, Clone, PartialEq, Eq, Structural, Debug)]
pub enum Command {
    /// Set the conveyor-belt motor speed.
    SetConveyor(MotorSpeed),
    /// Command the arm to move to a pose.
    MoveTo(DobotPose),
    /// Switch the suction cup on or off.
    SetSuction(Suction),
}

/// Squared arrival tolerance: 0.5 device units is 50 hundredths, squared.
/// Arrival requires the squared distance to be strictly below this.
pub const ARRIVAL_TOLERANCE_SQ: i128 = 2500;

/// Dwell at the color sensor before the reading is latched, in milliseconds.
pub const COLOR_SETTLE_MS: u64 = 1000;

/// The conveyor speed used to feed blocks toward the pickup position.
#[verifier::allow_in_spec]
pub fn conveyor_belt_speed() -> MotorSpeed
    returns (MotorSpeed { speed: 7500 })
{
    MotorSpeed { speed: 7500 }
}

/// A stopped conveyor.
#[verifier::allow_in_spec]
pub fn conveyor_stopped() -> MotorSpeed
    returns (MotorSpeed { speed: 0 })
{
    MotorSpeed { speed: 0 }
}

/// The arm's parking pose on startup.
#[verifier::allow_in_spec]
pub fn initial_position() -> DobotPose
    returns (DobotPose { x: 16500, y: -500i32, z: 3000, r: 0 })
{
    DobotPose { x: 16500, y: -500, z: 3000, r: 0 }
}

/// Hovering above the block pickup position on the conveyor.
#[verifier::allow_in_spec]
pub fn above_block_position() -> DobotPose
    returns (DobotPose { x: 25100, y: -12300i32, z: 2500, r: 0 })
{
    DobotPose { x: 25100, y: -12300, z: 2500, r: 0 }
}

/// Touching down on a block waiting on the conveyor.
#[verifier::allow_in_spec]
pub fn block_pickup_position() -> DobotPose
    returns (DobotPose { x: 25100, y: -12300i32, z: 0, r: 0 })
{
    DobotPose { x: 25100, y: -12300, z: 0, r: 0 }
}

/// Holding a block against the color sensor.
#[verifier::allow_in_spec]
pub fn color_sensor_position() -> DobotPose
    returns (DobotPose { x: 17100, y: 5400, z: 2600, r: -800i32 })
{
    DobotPose { x: 17100, y: 5400, z: 2600, r: -800 }
}

/// Hovering above the color sensor after inspection.
#[verifier::allow_in_spec]
pub fn above_color_sensor_position() -> DobotPose
    returns (DobotPose { x: 17100, y: 5400, z: 5600, r: -800i32 })
{
    DobotPose { x: 17100, y: 5400, z: 5600, r: -800 }
}

/// The red bin's drop pose.
#[verifier::allow_in_spec]
pub fn block_dispose_red() -> DobotPose
    returns (DobotPose { x: 15000, y: 16200, z: 3000, r: -1500i32 })
{
    DobotPose { x: 15000, y: 16200, z: 3000, r: -1500 }
}

/// The green bin's drop pose.
#[verifier::allow_in_spec]
pub fn block_dispose_green() -> DobotPose
    returns (DobotPose { x: 10300, y: 17300, z: 3000, r: -1500i32 })
{
    DobotPose { x: 10300, y: 17300, z: 3000, r: -1500 }
}

/// The blue bin's drop pose.
#[verifier::allow_in_spec]
pub fn block_dispose_blue() -> DobotPose
    returns (DobotPose { x: 6300, y: 17500, z: 3000, r: -1500i32 })
{
    DobotPose { x: 6300, y: 17500, z: 3000, r: -1500 }
}

/// The mixed bin's drop pose, for ambiguous or unclassified blocks.
#[verifier::allow_in_spec]
pub fn block_dispose_mixed() -> DobotPose
    returns (DobotPose { x: 2000, y: 17700, z: 3300, r: -1000i32 })
{
    DobotPose { x: 2000, y: 17700, z: 3300, r: -1000 }
}

/// Squared Euclidean distance between two poses over x/y/z only; rotation is
/// excluded from arrival detection.
pub open spec fn spec_dist_sq(a: DobotPose, b: DobotPose) -> int {
    (a.x - b.x) * (a.x - b.x) + (a.y - b.y) * (a.y - b.y) + (a.z - b.z) * (a.z - b.z)
}

/// The bin a latched color reading routes to. A block is classified pure only
/// if exactly one channel reads its maximum of 255; every other reading —
/// including two saturated channels — routes to the mixed bin.
pub open spec fn color_dispatch(c: Color) -> State {
    if c.red == 255 && c.green != 255 && c.blue != 255 {
        State::MoveToRed
    } else if c.green == 255 && c.red != 255 && c.blue != 255 {
        State::MoveToGreen
    } else if c.blue == 255 && c.red != 255 && c.green != 255 {
        State::MoveToBlue
    } else {
        State::MoveToMixed
    }
}

/// The drop pose of the bin a routing state moves toward.
pub open spec fn dispose_position(s: State) -> DobotPose {
    match s {
        State::MoveToRed => block_dispose_red(),
        State::MoveToGreen => block_dispose_green(),
        State::MoveToBlue => block_dispose_blue(),
        _ => block_dispose_mixed(),
    }
}

/// Everything the sequencer reads in one tick, snapshotted before any
/// decision so a decision never sees some sensors pre-update and others
/// post-update.
#[derive(Copy, Clone, PartialEq, Eq, Structural, Debug)]
pub struct TickInputs {
    /// The arm's measured pose, if a fresh measurement exists.
    pub pose: Option<DobotPose>,
    /// Whether the presence-sensor link is available.
    pub presence_available: bool,
    /// The freshness-filtered presence reading.
    pub presence: Option<Presence>,
    /// The confirmed suction-cup state reported by the device.
    pub suction: Option<Suction>,
    /// Whether the color-sensor link is available.
    pub color_available: bool,
    /// The freshness-filtered color reading.
    pub color: Option<Color>,
    /// The tick's timestamp on a monotonic millisecond clock.
    pub now_ms: u64,
}

/// The sorting-cell sequencer: current state, commanded destination, the
/// settle timer's start, and the latched color reading.
#[derive(Copy, Clone, PartialEq, Eq, Structural, Debug)]
pub struct Controller {
    /// The active state of the sequence.
    pub state: State,
    /// The pose the sequencer currently expects the arm to reach.
    pub destination: DobotPose,
    /// When the color-inspection dwell began, in clock milliseconds.
    pub time_ms: u64,
    /// The color reading latched for routing.
    pub color: Color,
}

impl Controller {
    /// Arrival: a measured pose exists and its squared distance to the
    /// destination is strictly below the tolerance; no measurement means
    /// never arrived.
    pub open spec fn spec_arrived(self, pose: Option<DobotPose>) -> bool {
        match pose {
            Some(p) => spec_dist_sq(self.destination, p) < ARRIVAL_TOLERANCE_SQ,
            None => false,
        }
    }

    /// A fresh sequencer: parked state, initial destination, no color
    /// latched; issues the startup commands (conveyor stopped, suction off,
    /// move to the parking pose).
    pub fn new(now_ms: u64, out: &mut Vec<Command>) -> (r: Controller)
        ensures
            r.state == State::Initial,
            r.destination == initial_position(),
            r.time_ms == now_ms,
            r.color == (Color { red: 0, green: 0, blue: 0 }),
            final(out)@ == old(out)@ + spec_initial_out(),
    {
        let mut controller = Controller {
            state: State::Initial,
            destination: initial_position(),
            time_ms: now_ms,
            color: Color { red: 0, green: 0, blue: 0 },
        };
        controller.initial(out);
        controller
    }

    /// Whether the arm has arrived at the commanded destination.
    pub fn is_arrived(&self, dobot_pose: &Option<DobotPose>) -> (r: bool)
        ensures
            r == self.spec_arrived(*dobot_pose),
    {
        match dobot_pose {
            None => false,
            Some(p) => {
                let dx = self.destination.x as i128 - p.x as i128;
                let dy = self.destination.y as i128 - p.y as i128;
                let dz = self.destination.z as i128 - p.z as i128;
                proof {
                    assert(dx * dx <= 0x1_0000_0000i128 * 0x1_0000_0000i128 && dx * dx >= 0)
                        by (nonlinear_arith)
                        requires
                            -0x1_0000_0000i128 <= dx <= 0x1_0000_0000i128,
                    ;
                    assert(dy * dy <= 0x1_0000_0000i128 * 0x1_0000_0000i128 && dy * dy >= 0)
                        by (nonlinear_arith)
                        requires
                            -0x1_0000_0000i128 <= dy <= 0x1_0000_0000i128,
                    ;
                    assert(dz * dz <= 0x1_0000_0000i128 * 0x1_0000_0000i128 && dz * dz >= 0)
                        by (nonlinear_arith)
                        requires
                            -0x1_0000_0000i128 <= dz <= 0x1_0000_0000i128,
                    ;
                }
                let dist_sq = dx * dx + dy * dy + dz * dz;
                dist_sq < ARRIVAL_TOLERANCE_SQ
            },
        }
    }

    /// Park: reset to the initial state and destination, stop the conveyor,
    /// release suction, command the parking pose.
    pub fn initial(&mut self, out: &mut Vec<Command>)
        ensures
            *final(self) == spec_initial_post(*old(self)),
            final(out)@ == old(out)@ + spec_initial_out(),
    {
        self.state = State::Initial;
        self.destination = initial_position();
        out.push(Command::SetConveyor(conveyor_stopped()));
        out.push(Command::SetSuction(Suction { is_on: false }));
        out.push(Command::MoveTo(self.destination));
        proof {
            assert(out@ =~= old(out)@ + spec_initial_out());
        }
    }

    /// Head for the hover pose above the conveyor pickup position.
    pub fn get_ready(&mut self, out: &mut Vec<Command>)
        ensures
            *final(self) == spec_get_ready_post(*old(self)),
            final(out)@ == old(out)@ + spec_get_ready_out(),
    {
        self.state = State::GetReady;
        self.destination = above_block_position();
        out.push(Command::MoveTo(self.destination));
        proof {
            assert(out@ =~= old(out)@ + spec_get_ready_out());
        }
    }

    /// Start the conveyor and hold above the pickup position, waiting for a
    /// block to arrive.
    pub fn wait_for_block(&mut self, out: &mut Vec<Command>)
        ensures
            *final(self) == spec_wait_for_block_post(*old(self)),
            final(out)@ == old(out)@ + spec_wait_for_block_out(),
    {
        self.state = State::WaitForBlock;
        self.destination = above_block_position();
        out.push(Command::SetConveyor(conveyor_belt_speed()));
        out.push(Command::MoveTo(self.destination));
        proof {
            assert(out@ =~= old(out)@ + spec_wait_for_block_out());
        }
    }

    /// Stop the conveyor, enable suction and descend onto the block.
    pub fn pick_up_block(&mut self, out: &mut Vec<Command>)
        ensures
            *final(self) == spec_pick_up_block_post(*old(self)),
            final(out)@ == old(out)@ + spec_pick_up_block_out(),
    {
        self.state = State::PickUpBlock;
        self.destination = block_pickup_position();
        out.push(Command::SetConveyor(conveyor_stopped()));
        out.push(Command::SetSuction(Suction { is_on: true }));
        out.push(Command::MoveTo(self.destination));
        proof {
            assert(out@ =~= old(out)@ + spec_pick_up_block_out());
        }
    }

    /// Lift the gripped block back up above the conveyor.
    pub fn lift_up_block(&mut self, out: &mut Vec<Command>)
        ensures
            *final(self) == spec_lift_up_block_post(*old(self)),
            final(out)@ == old(out)@ + spec_lift_up_block_out(),
    {
        self.state = State::LiftUpBlock;
        self.destination = above_block_position();
        out.push(Command::MoveTo(self.destination));
        proof {
            assert(out@ =~= old(out)@ + spec_lift_up_block_out());
        }
    }

    /// Move the block to a new destination with the conveyor stopped.
    fn move_block_to(&mut self, state: State, destination: DobotPose, out: &mut Vec<Command>)
        ensures
            *final(self) == spec_move_block_to_post(*old(self), state, destination),
            final(out)@ == old(out)@ + spec_move_block_to_out(destination),
    {
        self.state = state;
        self.destination = destination;
        out.push(Command::SetConveyor(conveyor_stopped()));
        out.push(Command::MoveTo(self.destination));
        proof {
            assert(out@ =~= old(out)@ + spec_move_block_to_out(destination));
        }
    }

    /// Carry the block to the color sensor and start the settle timer.
    pub fn check_color(&mut self, now_ms: u64, out: &mut Vec<Command>)
        ensures
            *final(self) == spec_check_color_post(*old(self), now_ms),
            final(out)@ == old(out)@ + spec_move_block_to_out(color_sensor_position()),
    {
        self.time_ms = now_ms;
        self.move_block_to(State::CheckColor, color_sensor_position(), out);
    }

    /// Lift the block away from the color sensor after inspection.
    pub fn lift_up_from_color(&mut self, out: &mut Vec<Command>)
        ensures
            *final(self) == spec_lift_up_from_color_post(*old(self)),
            final(out)@ == old(out)@ + spec_lift_up_from_color_out(),
    {
        self.destination = above_color_sensor_position();
        out.push(Command::MoveTo(self.destination));
        self.state = State::LiftUpFromColor;
        proof {
            assert(out@ =~= old(out)@ + spec_lift_up_from_color_out());
        }
    }

    /// Carry the block to the red bin.
    pub fn move_to_red(&mut self, out: &mut Vec<Command>)
        ensures
            *final(self) == spec_move_block_to_post(*old(self), State::MoveToRed, block_dispose_red()),
            final(out)@ == old(out)@ + spec_move_block_to_out(block_dispose_red()),
    {
        self.move_block_to(State::MoveToRed, block_dispose_red(), out);
    }

    /// Carry the block to the green bin.
    pub fn move_to_green(&mut self, out: &mut Vec<Command>)
        ensures
            *final(self) == spec_move_block_to_post(
                *old(self),
                State::MoveToGreen,
                block_dispose_green(),
            ),
            final(out)@ == old(out)@ + spec_move_block_to_out(block_dispose_green()),
    {
        self.move_block_to(State::MoveToGreen, block_dispose_green(), out);
    }

    /// Carry the block to the blue bin.
    pub fn move_to_blue(&mut self, out: &mut Vec<Command>)
        ensures
            *final(self) == spec_move_block_to_post(
                *old(self),
                State::MoveToBlue,
                block_dispose_blue(),
            ),
            final(out)@ == old(out)@ + spec_move_block_to_out(block_dispose_blue()),
    {
        self.move_block_to(State::MoveToBlue, block_dispose_blue(), out);
    }

    /// Carry the block to the mixed bin.
    pub fn move_to_mixed(&mut self, out: &mut Vec<Command>)
        ensures
            *final(self) == spec_move_block_to_post(
                *old(self),
                State::MoveToMixed,
                block_dispose_mixed(),
            ),
            final(out)@ == old(out)@ + spec_move_block_to_out(block_dispose_mixed()),
    {
        self.move_block_to(State::MoveToMixed, block_dispose_mixed(), out);
    }

    /// Release the block over the bin; the destination is held unchanged.
    pub fn drop_block(&mut self, out: &mut Vec<Command>)
        ensures
            *final(self) == spec_drop_block_post(*old(self)),
            final(out)@ == old(out)@ + spec_drop_block_out(),
    {
        self.state = State::DropBlock;
        out.push(Command::SetSuction(Suction { is_on: false }));
        proof {
            assert(out@ =~= old(out)@ + spec_drop_block_out());
        }
    }

    /// One control tick: decide at most one transition from the snapshotted
    /// inputs and append every command it issues, in order. The conveyor is
    /// unconditionally stopped first whenever the presence-sensor link is
    /// unavailable, overriding state-specific conveyor commands.
    pub fn tick(&mut self, inputs: &TickInputs, out: &mut Vec<Command>)
        ensures
            *final(self) == spec_tick_post(*old(self), *inputs),
            final(out)@ == old(out)@ + spec_tick_out(*old(self), *inputs),
    {
        let ghost out0 = out@;
        if !inputs.presence_available {
            out.push(Command::SetConveyor(conveyor_stopped()));
        }
        match self.state {
            State::Initial => {
                if inputs.presence_available {
                    self.get_ready(out);
                }
            },
            State::GetReady => {
                if self.is_arrived(&inputs.pose) {
                    self.wait_for_block(out);
                }
            },
            State::WaitForBlock => {
                if let Some(presence) = inputs.presence {
                    if presence.present {
                        self.pick_up_block(out);
                    }
                }
            },
            State::PickUpBlock => {
                if self.is_arrived(&inputs.pose) {
                    self.lift_up_block(out);
                }
            },
            State::LiftUpBlock => {
                if self.is_arrived(&inputs.pose) {
                    if let Some(suction) = inputs.suction {
                        if suction.is_on {
                            if inputs.color_available {
                                self.check_color(inputs.now_ms, out);
                            } else {
                                self.move_to_mixed(out);
                            }
                        }
                    }
                }
            },
            State::CheckColor => {
                if self.is_arrived(&inputs.pose) {
                    let elapsed = if inputs.now_ms >= self.time_ms {
                        inputs.now_ms - self.time_ms
                    } else {
                        0
                    };
                    if elapsed > COLOR_SETTLE_MS {
                        if let Some(color) = inputs.color {
                            self.color = color;
                        }
                        self.lift_up_from_color(out);
                    }
                }
            },
            State::LiftUpFromColor => {
                if self.is_arrived(&inputs.pose) {
                    let c = self.color;
                    if c.red == 255 && c.green != 255 && c.blue != 255 {
                        self.move_to_red(out);
                    } else if c.green == 255 && c.red != 255 && c.blue != 255 {
                        self.move_to_green(out);
                    } else if c.blue == 255 && c.red != 255 && c.green != 255 {
                        self.move_to_blue(out);
                    } else {
                        self.move_to_mixed(out);
                    }
                }
            },
            State::MoveToRed | State::MoveToGreen | State::MoveToBlue | State::MoveToMixed => {
                if self.is_arrived(&inputs.pose) {
                    self.drop_block(out);
                }
            },
            State::DropBlock => {
                if let Some(suction) = inputs.suction {
                    if !suction.is_on {
                        self.get_ready(out);
                    }
                }
            },
        }
        proof {
            assert(out@ =~= out0 + spec_tick_out(*old(self), *inputs));
        }
    }
}

/// Post-state of parking.
pub open spec fn spec_initial_post(pre: Controller) -> Controller {
    Controller { state: State::Initial, destination: initial_position(), ..pre }
}

/// Commands issued by parking.
pub open spec fn spec_initial_out() -> Seq<Command> {
    seq![
        Command::SetConveyor(conveyor_stopped()),
        Command::SetSuction(Suction { is_on: false }),
        Command::MoveTo(initial_position()),
    ]
}

/// Post-state of heading for the hover pose above the pickup position.
pub open spec fn spec_get_ready_post(pre: Controller) -> Controller {
    Controller { state: State::GetReady, destination: above_block_position(), ..pre }
}

/// Commands issued when heading for the hover pose.
pub open spec fn spec_get_ready_out() -> Seq<Command> {
    seq![Command::MoveTo(above_block_position())]
}

/// Post-state of starting to wait for a block.
pub open spec fn spec_wait_for_block_post(pre: Controller) -> Controller {
    Controller { state: State::WaitForBlock, destination: above_block_position(), ..pre }
}

/// Commands issued when starting to wait for a block: the conveyor starts at
/// its fixed feed speed.
pub open spec fn spec_wait_for_block_out() -> Seq<Command> {
    seq![
        Command::SetConveyor(conveyor_belt_speed()),
        Command::MoveTo(above_block_position()),
    ]
}

/// Post-state of picking up the block.
pub open spec fn spec_pick_up_block_post(pre: Controller) -> Controller {
    Controller { state: State::PickUpBlock, destination: block_pickup_position(), ..pre }
}

/// Commands issued when picking up: conveyor stopped, suction on, descend.
pub open spec fn spec_pick_up_block_out() -> Seq<Command> {
    seq![
        Command::SetConveyor(conveyor_stopped()),
        Command::SetSuction(Suction { is_on: true }),
        Command::MoveTo(block_pickup_position()),
    ]
}

/// Post-state of lifting the gripped block.
pub open spec fn spec_lift_up_block_post(pre: Controller) -> Controller {
    Controller { state: State::LiftUpBlock, destination: above_block_position(), ..pre }
}

/// Commands issued when lifting the gripped block.
pub open spec fn spec_lift_up_block_out() -> Seq<Command> {
    seq![Command::MoveTo(above_block_position())]
}

/// Post-state of moving the block to a new destination.
pub open spec fn spec_move_block_to_post(
    pre: Controller,
    state: State,
    destination: DobotPose,
) -> Controller {
    Controller { state, destination, ..pre }
}

/// Commands issued when moving the block: conveyor stopped, then the move.
pub open spec fn spec_move_block_to_out(destination: DobotPose) -> Seq<Command> {
    seq![Command::SetConveyor(conveyor_stopped()), Command::MoveTo(destination)]
}

/// Post-state of carrying the block to the color sensor: the settle timer
/// starts at `now_ms`.
pub open spec fn spec_check_color_post(pre: Controller, now_ms: u64) -> Controller {
    Controller {
        state: State::CheckColor,
        destination: color_sensor_position(),
        time_ms: now_ms,
        ..pre
    }
}

/// Post-state of lifting away from the color sensor.
pub open spec fn spec_lift_up_from_color_post(pre: Controller) -> Controller {
    Controller { state: State::LiftUpFromColor, destination: above_color_sensor_position(), ..pre }
}

/// Commands issued when lifting away from the color sensor.
pub open spec fn spec_lift_up_from_color_out() -> Seq<Command> {
    seq![Command::MoveTo(above_color_sensor_position())]
}

/// Post-state of releasing the block.
pub open spec fn spec_drop_block_post(pre: Controller) -> Controller {
    Controller { state: State::DropBlock, ..pre }
}

/// Commands issued when releasing the block.
pub open spec fn spec_drop_block_out() -> Seq<Command> {
    seq![Command::SetSuction(Suction { is_on: false })]
}

/// Latch a color sample if one is present; keep the previous latch otherwise.
pub open spec fn spec_latch_color(pre: Controller, sample: Option<Color>) -> Controller {
    match sample {
        Some(c) => Controller { color: c, ..pre },
        None => pre,
    }
}

/// Whether the color-inspection dwell has elapsed strictly.
pub open spec fn spec_settled(pre: Controller, now_ms: u64) -> bool {
    spec_elapsed_ms(pre.time_ms, now_ms) > COLOR_SETTLE_MS
}

/// The transition table: the sequencer's state after one tick on the given
/// snapshot. Unmatched state/guard combinations hold the state unchanged.
pub open spec fn spec_tick_post(pre: Controller, inputs: TickInputs) -> Controller {
    match pre.state {
        State::Initial => if inputs.presence_available {
            spec_get_ready_post(pre)
        } else {
            pre
        },
        State::GetReady => if pre.spec_arrived(inputs.pose) {
            spec_wait_for_block_post(pre)
        } else {
            pre
        },
        State::WaitForBlock => if inputs.presence == Some(Presence { present: true }) {
            spec_pick_up_block_post(pre)
        } else {
            pre
        },
        State::PickUpBlock => if pre.spec_arrived(inputs.pose) {
            spec_lift_up_block_post(pre)
        } else {
            pre
        },
        State::LiftUpBlock => if pre.spec_arrived(inputs.pose) && inputs.suction == Some(
            Suction { is_on: true },
        ) {
            if inputs.color_available {
                spec_check_color_post(pre, inputs.now_ms)
            } else {
                spec_move_block_to_post(pre, State::MoveToMixed, block_dispose_mixed())
            }
        } else {
            pre
        },
        State::CheckColor => if pre.spec_arrived(inputs.pose) && spec_settled(pre, inputs.now_ms) {
            spec_lift_up_from_color_post(spec_latch_color(pre, inputs.color))
        } else {
            pre
        },
        State::LiftUpFromColor => if pre.spec_arrived(inputs.pose) {
            spec_move_block_to_post(
                pre,
                color_dispatch(pre.color),
                dispose_position(color_dispatch(pre.color)),
            )
        } else {
            pre
        },
        State::MoveToRed | State::MoveToGreen | State::MoveToBlue | State::MoveToMixed => if pre
            .spec_arrived(inputs.pose) {
            spec_drop_block_post(pre)
        } else {
            pre
        },
        State::DropBlock => if inputs.suction == Some(Suction { is_on: false }) {
            spec_get_ready_post(pre)
        } else {
            pre
        },
    }
}

/// The commands a transition issues, without the unconditional conveyor stop.
pub open spec fn spec_transition_out(pre: Controller, inputs: TickInputs) -> Seq<Command> {
    match pre.state {
        State::Initial => if inputs.presence_available {
            spec_get_ready_out()
        } else {
            seq![]
        },
        State::GetReady => if pre.spec_arrived(inputs.pose) {
            spec_wait_for_block_out()
        } else {
            seq![]
        },
        State::WaitForBlock => if inputs.presence == Some(Presence { present: true }) {
            spec_pick_up_block_out()
        } else {
            seq![]
        },
        State::PickUpBlock => if pre.spec_arrived(inputs.pose) {
            spec_lift_up_block_out()
        } else {
            seq![]
        },
        State::LiftUpBlock => if pre.spec_arrived(inputs.pose) && inputs.suction == Some(
            Suction { is_on: true },
        ) {
            if inputs.color_available {
                spec_move_block_to_out(color_sensor_position())
            } else {
                spec_move_block_to_out(block_dispose_mixed())
            }
        } else {
            seq![]
        },
        State::CheckColor => if pre.spec_arrived(inputs.pose) && spec_settled(pre, inputs.now_ms) {
            spec_lift_up_from_color_out()
        } else {
            seq![]
        },
        State::LiftUpFromColor => if pre.spec_arrived(inputs.pose) {
            spec_move_block_to_out(dispose_position(color_dispatch(pre.color)))
        } else {
            seq![]
        },
        State::MoveToRed | State::MoveToGreen | State::MoveToBlue | State::MoveToMixed => if pre
            .spec_arrived(inputs.pose) {
            spec_drop_block_out()
        } else {
            seq![]
        },
        State::DropBlock => if inputs.suction == Some(Suction { is_on: false }) {
            spec_get_ready_out()
        } else {
            seq![]
        },
    }
}

/// Everything one tick writes to the transport, in order: the unconditional
/// conveyor stop when the presence-sensor link is unavailable, then the
/// transition's own commands.
pub open spec fn spec_tick_out(pre: Controller, inputs: TickInputs) -> Seq<Command> {
    let prefix: Seq<Command> = if !inputs.presence_available {
        seq![Command::SetConveyor(conveyor_stopped())]
    } else {
        seq![]
    };
    prefix + spec_transition_out(pre, inputs)
}

/// Safety of the conveyor override: whenever the presence-sensor link is
/// unavailable, the tick's first command stops the conveyor, whatever the
/// state.
pub proof fn lemma_conveyor_stopped_when_presence_link_down(pre: Controller, inputs: TickInputs)
    requires
        !inputs.presence_available,
    ensures
        spec_tick_out(pre, inputs).len() > 0,
        spec_tick_out(pre, inputs)[0] == Command::SetConveyor(conveyor_stopped()),
{
}

} // verus!
