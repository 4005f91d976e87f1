# tf_jetsoncode

Robot-side controller of a RoboCup Small Size League robot: it connects
the robot to the CrashPilot (UDP, protobuf), the onboard vision (Unix
socket) and the motor controller (USB HID), and runs a 500 Hz loop that
turns commands into motor-controller packets.

## Layout

- `src/` — the verified library (Verus):
  - `proto.rs` — CrashPilot messages as plain values; state and task
    numbers and names.
  - `communication.rs` — the motor-controller packets (received flags,
    17-byte command encoding, HID report framing), the latest-message
    mailbox, the vision frame and the pending-event buffer.
  - `teensy_link.rs` — decisions of the controller connection task:
    reconnect back-off, read classification, which payload to write.
  - `vec.rs` — integer vectors, saturating arithmetic and exact speed
    clamping.
  - `orca.rs` — the navigation interface: obstacles, intents, and the
    conversion of a velocity into whole-degree direction (against a table
    of half-degree tangents, each within 2^-32 of the true value) and
    rounded speed.
  - `robot_logic.rs` — heading checks, kick/chip release, speed limits,
    and which behaviour each game state and task selects.
  - `packets.rs` — the packet buffer and the integer steps of one loop
    iteration (taking new packets while dropping late or stale CrashPilot
    packets, own-robot selection, status report, final packet fields).
  - `config.rs` — configuration values and defaults.
- `tests/` — tests of the library.
- `app/` — the program: networking, HID, configuration file, protobuf
  encoding, and the floating-point geometry (ORCA collision avoidance,
  goalie, ball acquisition and receiving).
