//! Plain value types exchanged between the sorting-cell processes.
//!
//! Pose coordinates are fixed-point: hundredths of a device unit
//! (hundredths of a millimeter for x/y/z, hundredths of a degree for r).
//! The fixed-point representation keeps arrival detection exact.

use vstd::prelude::*;

verus! {

/// Reading of the block-presence sensor at the pickup position.
#[derive(Copy, Clone, PartialEq, Eq, Structural, Debug)]
pub struct Presence {
    pub present: bool,
}

/// Availability flag published alongside each sensor's value stream.
#[derive(Copy, Clone, PartialEq, Eq, Structural, Debug)]
pub struct SensorState {
    pub is_on: bool,
}

/// One color reading: independent red/green/blue magnitudes, 0-255 each.
#[derive(Copy, Clone, PartialEq, Eq, Structural, Debug)]
pub struct Color {
    pub red: u8,
    pub green: u8,
    pub blue: u8,
}

/// Conveyor-belt motor speed command.
#[derive(Copy, Clone, PartialEq, Eq, Structural, Debug)]
pub struct MotorSpeed {
    pub speed: i32,
}

/// Cartesian arm target or measurement, in hundredths of a device unit.
#[derive(Copy, Clone, PartialEq, Eq, Structural, Debug)]
pub struct DobotPose {
    pub x: i32,
    pub y: i32,
    pub z: i32,
    pub r: i32,
}

/// Suction-cup end-effector state or command.
#[derive(Copy, Clone, PartialEq, Eq, Structural, Debug)]
pub struct Suction {
    pub is_on: bool,
}

} // verus!
