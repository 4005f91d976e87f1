//! Verified core of the robot-side controller: the CrashPilot protocol
//! types, the Teensy HID packet formats and mailbox, and the integer
//! decision logic that turns commands into motor-controller packets.

pub mod communication;
pub mod config;
pub mod proto;
pub mod vec;
pub mod orca;
pub mod packets;
pub mod robot_logic;
pub mod teensy_link;

use vstd::prelude::*;

verus! {

/// Size of the packet sent to the motor controller.
pub const TEENSY_SEND_MSG_SIZE: usize = 17;

/// Minimum size of a packet received from the motor controller.
pub const TEENSY_RECEIVE_MSG_SIZE: usize = 7;

} // verus!
