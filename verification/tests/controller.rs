use sorting_cell::controller::{
    above_block_position, above_color_sensor_position, block_dispose_mixed, block_dispose_red,
    block_pickup_position, color_sensor_position, conveyor_belt_speed, conveyor_stopped,
    initial_position, Command, Controller, State, TickInputs,
};
use sorting_cell::types::{Color, DobotPose, Presence, Suction};

fn no_inputs(now_ms: u64) -> TickInputs {
    TickInputs {
        pose: None,
        presence_available: true,
        presence: None,
        suction: None,
        color_available: false,
        color: None,
        now_ms,
    }
}

#[test]
fn startup_commands_and_state() {
    let mut out: Vec<Command> = Vec::new();
    let controller = Controller::new(0, &mut out);
    assert_eq!(controller.state, State::Initial);
    assert_eq!(controller.destination, initial_position());
    assert_eq!(
        out,
        vec![
            Command::SetConveyor(conveyor_stopped()),
            Command::SetSuction(Suction { is_on: false }),
            Command::MoveTo(initial_position()),
        ]
    );
}

#[test]
fn arrival_tolerance_boundary_is_strict() {
    let mut out: Vec<Command> = Vec::new();
    let mut controller = Controller::new(0, &mut out);
    controller.destination = DobotPose { x: 0, y: 0, z: 0, r: 0 };
    // 0.49 units away (49 hundredths): arrived.
    assert!(controller.is_arrived(&Some(DobotPose { x: 49, y: 0, z: 0, r: 0 })));
    // Exactly 0.5 units away: not arrived, the comparison is strict.
    assert!(!controller.is_arrived(&Some(DobotPose { x: 50, y: 0, z: 0, r: 0 })));
    // Rotation plays no part in arrival.
    assert!(controller.is_arrived(&Some(DobotPose { x: 0, y: 0, z: 0, r: 90000 })));
    // No measured pose: never arrived.
    assert!(!controller.is_arrived(&None));
}

#[test]
fn end_to_end_pickup_scenario() {
    let mut out: Vec<Command> = Vec::new();
    let mut controller = Controller::new(0, &mut out);
    assert_eq!(controller.state, State::Initial);

    // The presence-sensor link becomes available: one tick later the
    // sequencer heads for the hover pose above the conveyor.
    out.clear();
    controller.tick(&no_inputs(5), &mut out);
    assert_eq!(controller.state, State::GetReady);
    assert_eq!(controller.destination, above_block_position());
    assert_eq!(out, vec![Command::MoveTo(above_block_position())]);

    // Pose feedback converges to within tolerance: the next tick starts the
    // conveyor at a non-zero speed and waits for a block.
    out.clear();
    let mut inputs = no_inputs(10);
    inputs.pose = Some(above_block_position());
    controller.tick(&inputs, &mut out);
    assert_eq!(controller.state, State::WaitForBlock);
    assert_eq!(
        out,
        vec![
            Command::SetConveyor(conveyor_belt_speed()),
            Command::MoveTo(above_block_position()),
        ]
    );
    assert_ne!(conveyor_belt_speed().speed, 0);

    // A block is detected: the next tick stops the conveyor, switches suction
    // on and descends to the pickup pose.
    out.clear();
    let mut inputs = no_inputs(15);
    inputs.presence = Some(Presence { present: true });
    controller.tick(&inputs, &mut out);
    assert_eq!(controller.state, State::PickUpBlock);
    assert_eq!(controller.destination, block_pickup_position());
    assert!(out.contains(&Command::SetSuction(Suction { is_on: true })));
    assert!(out.contains(&Command::SetConveyor(conveyor_stopped())));
}

#[test]
fn lift_up_requires_confirmed_suction() {
    let mut out: Vec<Command> = Vec::new();
    let mut controller = Controller::new(0, &mut out);
    controller.state = State::LiftUpBlock;
    controller.destination = above_block_position();

    // Arrived but no suction confirmation: hold the state.
    out.clear();
    let mut inputs = no_inputs(5);
    inputs.pose = Some(above_block_position());
    controller.tick(&inputs, &mut out);
    assert_eq!(controller.state, State::LiftUpBlock);
    assert!(out.is_empty());

    // Suction confirmed and the color sensor available: go inspect, with the
    // settle timer started at this tick's clock.
    out.clear();
    let mut inputs = no_inputs(42);
    inputs.pose = Some(above_block_position());
    inputs.suction = Some(Suction { is_on: true });
    inputs.color_available = true;
    controller.tick(&inputs, &mut out);
    assert_eq!(controller.state, State::CheckColor);
    assert_eq!(controller.destination, color_sensor_position());
    assert_eq!(controller.time_ms, 42);
}

#[test]
fn lift_up_without_color_sensor_goes_to_mixed() {
    let mut out: Vec<Command> = Vec::new();
    let mut controller = Controller::new(0, &mut out);
    controller.state = State::LiftUpBlock;
    controller.destination = above_block_position();

    out.clear();
    let mut inputs = no_inputs(5);
    inputs.pose = Some(above_block_position());
    inputs.suction = Some(Suction { is_on: true });
    inputs.color_available = false;
    controller.tick(&inputs, &mut out);
    assert_eq!(controller.state, State::MoveToMixed);
    assert_eq!(controller.destination, block_dispose_mixed());
}

#[test]
fn color_settle_dwell_is_strict() {
    let mut out: Vec<Command> = Vec::new();
    let mut controller = Controller::new(0, &mut out);
    controller.state = State::CheckColor;
    controller.destination = color_sensor_position();
    controller.time_ms = 100;

    // Exactly the dwell: not yet.
    out.clear();
    let mut inputs = no_inputs(1100);
    inputs.pose = Some(color_sensor_position());
    inputs.color = Some(Color { red: 255, green: 0, blue: 0 });
    controller.tick(&inputs, &mut out);
    assert_eq!(controller.state, State::CheckColor);
    assert!(out.is_empty());

    // One millisecond past the dwell: latch the reading and lift away.
    out.clear();
    let mut inputs = no_inputs(1101);
    inputs.pose = Some(color_sensor_position());
    inputs.color = Some(Color { red: 255, green: 0, blue: 0 });
    controller.tick(&inputs, &mut out);
    assert_eq!(controller.state, State::LiftUpFromColor);
    assert_eq!(controller.destination, above_color_sensor_position());
    assert_eq!(controller.color, Color { red: 255, green: 0, blue: 0 });
    assert_eq!(out, vec![Command::MoveTo(above_color_sensor_position())]);
}

#[test]
fn pure_red_routes_to_red_bin() {
    let mut out: Vec<Command> = Vec::new();
    let mut controller = Controller::new(0, &mut out);
    controller.state = State::LiftUpFromColor;
    controller.destination = above_color_sensor_position();
    controller.color = Color { red: 255, green: 0, blue: 0 };

    out.clear();
    let mut inputs = no_inputs(5);
    inputs.pose = Some(above_color_sensor_position());
    controller.tick(&inputs, &mut out);
    assert_eq!(controller.state, State::MoveToRed);
    assert_eq!(controller.destination, block_dispose_red());
}

#[test]
fn two_saturated_channels_route_to_mixed_bin() {
    let mut out: Vec<Command> = Vec::new();
    let mut controller = Controller::new(0, &mut out);
    controller.state = State::LiftUpFromColor;
    controller.destination = above_color_sensor_position();
    controller.color = Color { red: 255, green: 255, blue: 0 };

    out.clear();
    let mut inputs = no_inputs(5);
    inputs.pose = Some(above_color_sensor_position());
    controller.tick(&inputs, &mut out);
    assert_eq!(controller.state, State::MoveToMixed);
    assert_eq!(controller.destination, block_dispose_mixed());
}

#[test]
fn drop_and_restart_cycle() {
    let mut out: Vec<Command> = Vec::new();
    let mut controller = Controller::new(0, &mut out);
    controller.state = State::MoveToRed;
    controller.destination = block_dispose_red();

    // Arrived at the bin: release the block.
    out.clear();
    let mut inputs = no_inputs(5);
    inputs.pose = Some(block_dispose_red());
    controller.tick(&inputs, &mut out);
    assert_eq!(controller.state, State::DropBlock);
    assert_eq!(out, vec![Command::SetSuction(Suction { is_on: false })]);

    // Suction confirmed off: head back for the next block.
    out.clear();
    let mut inputs = no_inputs(10);
    inputs.suction = Some(Suction { is_on: false });
    controller.tick(&inputs, &mut out);
    assert_eq!(controller.state, State::GetReady);
    assert_eq!(controller.destination, above_block_position());
}

#[test]
fn conveyor_stopped_whenever_presence_link_down() {
    let mut out: Vec<Command> = Vec::new();
    let mut controller = Controller::new(0, &mut out);
    controller.state = State::WaitForBlock;

    out.clear();
    let mut inputs = no_inputs(5);
    inputs.presence_available = false;
    controller.tick(&inputs, &mut out);
    assert_eq!(out[0], Command::SetConveyor(conveyor_stopped()));
    // Initial state with the link down: the stop is still issued and no
    // transition is taken.
    controller.state = State::Initial;
    out.clear();
    controller.tick(&inputs, &mut out);
    assert_eq!(controller.state, State::Initial);
    assert_eq!(out, vec![Command::SetConveyor(conveyor_stopped())]);
}

#[test]
fn unmatched_guards_hold_the_state() {
    let mut out: Vec<Command> = Vec::new();
    let mut controller = Controller::new(0, &mut out);
    controller.state = State::GetReady;
    controller.destination = above_block_position();

    out.clear();
    // Not arrived (still far away): nothing happens.
    let mut inputs = no_inputs(5);
    inputs.pose = Some(initial_position());
    controller.tick(&inputs, &mut out);
    assert_eq!(controller.state, State::GetReady);
    assert!(out.is_empty());
}

#[test]
fn wait_for_block_ignores_absent_block() {
    let mut out: Vec<Command> = Vec::new();
    let mut controller = Controller::new(0, &mut out);
    controller.state = State::WaitForBlock;
    controller.destination = above_block_position();

    out.clear();
    let mut inputs = no_inputs(5);
    inputs.presence = Some(Presence { present: false });
    controller.tick(&inputs, &mut out);
    assert_eq!(controller.state, State::WaitForBlock);
    assert!(out.is_empty());
}

#[test]
fn color_latch_keeps_previous_reading_when_sample_absent() {
    let mut out: Vec<Command> = Vec::new();
    let mut controller = Controller::new(0, &mut out);
    controller.state = State::CheckColor;
    controller.destination = color_sensor_position();
    controller.time_ms = 0;
    controller.color = Color { red: 0, green: 255, blue: 0 };

    out.clear();
    let mut inputs = no_inputs(2000);
    inputs.pose = Some(color_sensor_position());
    inputs.color = None;
    controller.tick(&inputs, &mut out);
    assert_eq!(controller.state, State::LiftUpFromColor);
    assert_eq!(controller.color, Color { red: 0, green: 255, blue: 0 });
}
