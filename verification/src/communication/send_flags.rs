//! Bits of `TeensySendMsg::flags`. Bits 8 to 15 are reserved for LEDs.

use vstd::prelude::*;

verus! {

/// Report an error to the controller.
pub const ERROR: u16 = 0x0001;

/// Fire the kicker.
pub const KICK: u16 = 0x0002;

/// Fire the chipper.
pub const CHIP: u16 = 0x0004;

/// Run the dribbler.
pub const DRIBBLER: u16 = 0x0008;

} // verus!
