//! Classification logic of the two-pin color sensor.
//!
//! The sensor reports its reading on two digital pins; reading the pins is
//! I/O and lives outside this crate, but the mapping from pin levels to a
//! color is fixed and verified here.

use vstd::prelude::*;

use crate::types::Color;

verus! {

/// The color a pin-level pair encodes.
pub open spec fn spec_color_from_pins(pin1: bool, pin2: bool) -> Color {
    match (pin1, pin2) {
        (false, false) => Color { red: 0, green: 0, blue: 0 },
        (false, true) => Color { red: 0, green: 0, blue: 255 },
        (true, false) => Color { red: 0, green: 255, blue: 0 },
        (true, true) => Color { red: 255, green: 0, blue: 0 },
    }
}

/// Map the sensor's two pin levels to the color they encode: both low is no
/// reading, pin two alone is blue, pin one alone is green, both high is red.
pub fn color_from_pins(pin1: bool, pin2: bool) -> (c: Color)
    ensures
        c == spec_color_from_pins(pin1, pin2),
{
    match (pin1, pin2) {
        (false, false) => Color { red: 0, green: 0, blue: 0 },
        (false, true) => Color { red: 0, green: 0, blue: 255 },
        (true, false) => Color { red: 0, green: 255, blue: 0 },
        (true, true) => Color { red: 255, green: 0, blue: 0 },
    }
}

} // verus!
