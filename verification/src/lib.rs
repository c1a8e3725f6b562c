//! Control core for a conveyor-fed pick-and-place sorting cell.
//!
//! The crate verifies the three subsystems where the engineering risk lives:
//! the binary serial protocol for the robot-arm controller (framing, 8-bit
//! wraparound checksums, queued-command dispatch and completion polling), the
//! staleness-aware sensor sampling layer, and the motion state machine that
//! sequences pickup, inspection, routing and drop.

use vstd::prelude::*;

pub mod base;
pub mod color_sensor;
pub mod command;
pub mod controller;
pub mod error;
pub mod message;
pub mod reader;
pub mod serial;
pub mod types;

verus! {

} // verus!
