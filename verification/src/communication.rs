//! Motor-controller (Teensy) packets and the exchange buffers between the
//! communication tasks and the robot loop.

pub mod send_flags;

use crate::proto::CpRobot;
use crate::{TEENSY_RECEIVE_MSG_SIZE, TEENSY_SEND_MSG_SIZE};
use vstd::prelude::*;

verus! {

/// Whether bit `bit` of `word` is set.
pub open spec fn bit_set_u32(word: u32, bit: u32) -> bool {
    (word >> bit) & 1u32 == 1u32
}

/// The two little-endian bytes of a 16-bit word.
pub open spec fn le16(v: u16) -> Seq<u8> {
    seq![(v % 256) as u8, (v / 256) as u8]
}

/// The 16-bit word held by two little-endian bytes.
pub open spec fn from_le16(b0: u8, b1: u8) -> u16 {
    (b0 + 256 * b1) as u16
}

/// The 32-bit word held by four little-endian bytes.
pub open spec fn from_le32(b0: u8, b1: u8, b2: u8, b3: u8) -> u32 {
    (b0 + 256 * b1 + 65536 * b2 + 16777216 * b3) as u32
}

/// The 32-bit word held by four big-endian bytes.
pub open spec fn from_be32(b0: u8, b1: u8, b2: u8, b3: u8) -> u32 {
    from_le32(b3, b2, b1, b0)
}

fn read_le32(b0: u8, b1: u8, b2: u8, b3: u8) -> (r: u32)
    ensures
        r == from_le32(b0, b1, b2, b3),
{
    b0 as u32 + 256u32 * (b1 as u32) + 65536u32 * (b2 as u32) + 16777216u32 * (b3 as u32)
}

/// Raw HID message received from the motor controller.
///
/// Bit 0 of `flags` is the error flag, bit 1 the ball sensor, bit 2 kick
/// ready, bit 3 chip ready, and bits 8.. hold buttons followed by DIP switches.
#[derive(Debug, Clone, Copy, PartialEq, Eq, Structural)]
pub struct TeensyRecMSG {
    pub flags: u32,
    pub batt_level: u8,
    pub current: u16,
}

impl Default for TeensyRecMSG {
    fn default() -> (r: Self)
        ensures
            r == (TeensyRecMSG { flags: 0, batt_level: 0, current: 0 }),
    {
        TeensyRecMSG { flags: 0, batt_level: 0, current: 0 }
    }
}

/// The message that a received HID report holds, if it is long enough.
pub open spec fn spec_rec_msg_from_report(buf: Seq<u8>) -> Option<TeensyRecMSG> {
    if buf.len() >= TEENSY_RECEIVE_MSG_SIZE {
        Some(
            TeensyRecMSG {
                flags: from_le32(buf[0], buf[1], buf[2], buf[3]),
                batt_level: buf[4],
                current: from_le16(buf[5], buf[6]),
            },
        )
    } else {
        None
    }
}

impl TeensyRecMSG {
    /// Reads a message from a received HID report: a little-endian `u32` of
    /// flags, the battery level, and a little-endian `u16` current. Shorter
    /// reports hold no message.
    pub fn from_report(buf: &[u8]) -> (r: Option<TeensyRecMSG>)
        ensures
            r == spec_rec_msg_from_report(buf@),
    {
        if buf.len() < TEENSY_RECEIVE_MSG_SIZE {
            return None;
        }
        let flags = read_le32(buf[0], buf[1], buf[2], buf[3]);
        let current: u16 = buf[5] as u16 + 256u16 * (buf[6] as u16);
        Some(TeensyRecMSG { flags, batt_level: buf[4], current })
    }

    /// The controller reports an error.
    pub fn error(&self) -> (r: bool)
        ensures
            r == bit_set_u32(self.flags, 0),
    {
        let f = self.flags;
        assert(f & (1u32 << 0u32) != 0 <==> (f >> 0u32) & 1u32 == 1u32) by (bit_vector);
        f & (1u32 << 0u32) != 0
    }

    /// The ball sensor sees a ball in the capturing zone.
    pub fn has_ball(&self) -> (r: bool)
        ensures
            r == bit_set_u32(self.flags, 1),
    {
        let f = self.flags;
        assert(f & (1u32 << 1u32) != 0 <==> (f >> 1u32) & 1u32 == 1u32) by (bit_vector);
        f & (1u32 << 1u32) != 0
    }

    /// The kicker is charged.
    pub fn kick_ready(&self) -> (r: bool)
        ensures
            r == bit_set_u32(self.flags, 2),
    {
        let f = self.flags;
        assert(f & (1u32 << 2u32) != 0 <==> (f >> 2u32) & 1u32 == 1u32) by (bit_vector);
        f & (1u32 << 2u32) != 0
    }

    /// The chipper is charged.
    pub fn chip_ready(&self) -> (r: bool)
        ensures
            r == bit_set_u32(self.flags, 3),
    {
        let f = self.flags;
        assert(f & (1u32 << 3u32) != 0 <==> (f >> 3u32) & 1u32 == 1u32) by (bit_vector);
        f & (1u32 << 3u32) != 0
    }

    /// Button (or DIP switch) number `idx` is pressed.
    pub fn button(&self, idx: u8) -> (r: bool)
        requires
            idx < 24,
        ensures
            r == bit_set_u32(self.flags, (8 + idx) as u32),
    {
        let f = self.flags;
        let b: u32 = 8u32 + idx as u32;
        assert(b < 32 ==> (f & (1u32 << b) != 0 <==> (f >> b) & 1u32 == 1u32)) by (bit_vector);
        f & (1u32 << b) != 0
    }

    /// Any of the eight buttons (bits 8 to 15) is pressed.
    pub fn has_any_button(&self) -> (r: bool)
        ensures
            r == exists|i: u32| 8 <= i < 16 && #[trigger] bit_set_u32(self.flags, i),
    {
        let f = self.flags;
        let r = f & 0xFF00u32 != 0;
        assert(r == (bit_set_u32(f, 8) || bit_set_u32(f, 9) || bit_set_u32(f, 10) || bit_set_u32(f, 11)
            || bit_set_u32(f, 12) || bit_set_u32(f, 13) || bit_set_u32(f, 14) || bit_set_u32(f, 15))) by (bit_vector)
            requires r == (f & 0xFF00u32 != 0);
        if !r {
            assert forall|i: u32| 8 <= i < 16 implies !#[trigger] bit_set_u32(f, i) by {
                assert(i == 8 || i == 9 || i == 10 || i == 11 || i == 12 || i == 13 || i == 14 || i == 15);
            }
        }
        r
    }
}

/// Raw HID message for the motor controller.
///
/// Bit 0 of `flags` is the error flag, bit 1 kick, bit 2 chip, bit 3
/// dribbler, and bits 8 to 15 drive the LEDs.
#[derive(Debug, Clone, Copy, PartialEq, Eq, Structural)]
pub struct TeensySendMsg {
    pub flags: u16,
    /// The game state, so that the robot follows HALT and STOP itself.
    pub state: u8,
    /// How strong to kick.
    pub kick_pwr: u8,
    /// How fast to run the dribbler.
    pub dribbler_pwr: u8,
    /// Movement direction in degrees.
    pub dir: u16,
    /// Movement speed in mm/s.
    pub speed: u16,
    /// Target orientation in degrees.
    pub orient: u16,
    /// Own orientation in degrees.
    pub self_orient: u16,
    /// Own velocity.
    pub vel_x: i16,
    pub vel_y: i16,
}

/// The all-zero message.
pub open spec fn default_send_msg() -> TeensySendMsg {
    TeensySendMsg {
        flags: 0,
        state: 0,
        kick_pwr: 0,
        dribbler_pwr: 0,
        dir: 0,
        speed: 0,
        orient: 0,
        self_orient: 0,
        vel_x: 0,
        vel_y: 0,
    }
}

impl Default for TeensySendMsg {
    fn default() -> (r: Self)
        ensures
            r == default_send_msg(),
    {
        TeensySendMsg {
            flags: 0,
            state: 0,
            kick_pwr: 0,
            dribbler_pwr: 0,
            dir: 0,
            speed: 0,
            orient: 0,
            self_orient: 0,
            vel_x: 0,
            vel_y: 0,
        }
    }
}

/// The message that 17 encoded bytes hold.
pub open spec fn spec_decode_send_msg(b: Seq<u8>) -> TeensySendMsg {
    TeensySendMsg {
        flags: from_le16(b[0], b[1]),
        state: b[2],
        kick_pwr: b[3],
        dribbler_pwr: b[4],
        dir: from_le16(b[5], b[6]),
        speed: from_le16(b[7], b[8]),
        orient: from_le16(b[9], b[10]),
        self_orient: from_le16(b[11], b[12]),
        vel_x: from_le16(b[13], b[14]) as i16,
        vel_y: from_le16(b[15], b[16]) as i16,
    }
}

impl TeensySendMsg {
    /// The wire layout: flags, state, kick power and dribbler power, then
    /// direction, speed, orientation and own orientation as little-endian
    /// `u16`, then the velocity as two little-endian `i16`.
    pub open spec fn spec_encode(&self) -> Seq<u8> {
        le16(self.flags) + seq![self.state, self.kick_pwr, self.dribbler_pwr] + le16(self.dir)
            + le16(self.speed) + le16(self.orient) + le16(self.self_orient) + le16(
            self.vel_x as u16,
        ) + le16(self.vel_y as u16)
    }

    /// Encodes the message into its 17-byte wire format.
    pub fn encode(&self) -> (r: [u8; TEENSY_SEND_MSG_SIZE])
        ensures
            r@ == self.spec_encode(),
    {
        let vx = self.vel_x as u16;
        let vy = self.vel_y as u16;
        let r: [u8; TEENSY_SEND_MSG_SIZE] = [
            (self.flags % 256) as u8,
            (self.flags / 256) as u8,
            self.state,
            self.kick_pwr,
            self.dribbler_pwr,
            (self.dir % 256) as u8,
            (self.dir / 256) as u8,
            (self.speed % 256) as u8,
            (self.speed / 256) as u8,
            (self.orient % 256) as u8,
            (self.orient / 256) as u8,
            (self.self_orient % 256) as u8,
            (self.self_orient / 256) as u8,
            (vx % 256) as u8,
            (vx / 256) as u8,
            (vy % 256) as u8,
            (vy / 256) as u8,
        ];
        assert(r@ =~= self.spec_encode());
        r
    }

    /// Sets the bits of `flag`.
    pub fn set_flag(&mut self, flag: u16)
        ensures
            *final(self) == (TeensySendMsg { flags: old(self).flags | flag, ..*old(self) }),
    {
        self.flags = self.flags | flag;
    }

    /// Clears all flags.
    pub fn clear_all_flags(&mut self)
        ensures
            *final(self) == (TeensySendMsg { flags: 0, ..*old(self) }),
    {
        self.flags = 0;
    }
}

/// Encoding loses nothing: every field is read back from its bytes.
pub proof fn lemma_encode_decode_round_trip(msg: TeensySendMsg)
    ensures
        msg.spec_encode().len() == TEENSY_SEND_MSG_SIZE,
        spec_decode_send_msg(msg.spec_encode()) == msg,
{
    let b = msg.spec_encode();
    let vx = msg.vel_x;
    let vy = msg.vel_y;
    assert((vx as u16) as i16 == vx) by (bit_vector);
    assert((vy as u16) as i16 == vy) by (bit_vector);
    assert(b[13] == ((vx as u16) % 256) as u8);
    assert(b[15] == ((vy as u16) % 256) as u8);
}

/// After `set_flag(flag)` every bit of `flag` is set, and setting it again
/// changes nothing.
pub proof fn lemma_set_flag_sets_bits(flags: u16, flag: u16)
    ensures
        (flags | flag) & flag == flag,
        (flags | flag) | flag == flags | flag,
        (flags | flag) & flags == flags,
{
    assert((flags | flag) & flag == flag) by (bit_vector);
    assert((flags | flag) | flag == flags | flag) by (bit_vector);
    assert((flags | flag) & flags == flags) by (bit_vector);
}

/// Size of an HID report written to the motor controller.
pub const HID_REPORT_SIZE: usize = 65;

/// The HID report that carries an encoded message: report id 0, the
/// payload, then zero padding.
pub open spec fn spec_hid_report(payload: Seq<u8>) -> Seq<u8> {
    seq![0u8] + payload + Seq::new((HID_REPORT_SIZE - 1 - TEENSY_SEND_MSG_SIZE) as nat, |i: int| 0u8)
}

/// Frames an encoded message into an HID report (the first byte is the
/// report id, 0).
pub fn hid_report(payload: &[u8; TEENSY_SEND_MSG_SIZE]) -> (r: [u8; HID_REPORT_SIZE])
    ensures
        r@ == spec_hid_report(payload@),
{
    let mut packet: [u8; HID_REPORT_SIZE] = [0u8; HID_REPORT_SIZE];
    let mut i: usize = 0;
    while i < TEENSY_SEND_MSG_SIZE
        invariant
            i <= TEENSY_SEND_MSG_SIZE,
            packet@.len() == HID_REPORT_SIZE,
            packet@[0] == 0u8,
            forall|j: int| 0 <= j < i ==> packet@[j + 1] == payload@[j],
            forall|j: int| i + 1 <= j < HID_REPORT_SIZE ==> packet@[j] == 0u8,
        decreases TEENSY_SEND_MSG_SIZE - i,
    {
        packet[i + 1] = payload[i];
        i = i + 1;
    }
    assert(packet@ =~= spec_hid_report(payload@));
    packet
}

/// The latest message for the motor controller, with a sequence number that
/// changes on every publication.
///
/// Producers publish faster than the HID task may send; the HID task skips
/// intermediate messages and only sends the newest.
#[derive(Debug, Clone, Copy)]
pub struct TeensyLastState {
    pub seq: u64,
    pub payload: Option<[u8; TEENSY_SEND_MSG_SIZE]>,
}

/// The state after publishing `payload`.
pub open spec fn spec_publish(s: TeensyLastState, payload: [u8; TEENSY_SEND_MSG_SIZE]) -> TeensyLastState {
    TeensyLastState {
        seq: if s.seq == u64::MAX { 0 } else { (s.seq + 1) as u64 },
        payload: Some(payload),
    }
}

/// The payload newer than `last_seq`, with its sequence number.
pub open spec fn spec_latest_after(s: TeensyLastState, last_seq: u64) -> Option<(u64, [u8; TEENSY_SEND_MSG_SIZE])> {
    if s.seq != last_seq {
        match s.payload {
            Some(p) => Some((s.seq, p)),
            None => None,
        }
    } else {
        None
    }
}

impl TeensyLastState {
    /// Nothing published yet.
    pub fn new() -> (r: Self)
        ensures
            r.seq == 0,
            r.payload is None,
    {
        TeensyLastState { seq: 0, payload: None }
    }

    /// Publishes a new payload, advancing the sequence number (wrapping).
    pub fn publish(&mut self, payload: [u8; TEENSY_SEND_MSG_SIZE])
        ensures
            *final(self) == spec_publish(*old(self), payload),
    {
        self.seq = self.seq.wrapping_add(1);
        self.payload = Some(payload);
    }

    /// The latest payload if it is newer than `last_seq`, otherwise `None`.
    pub fn latest_after(&self, last_seq: u64) -> (r: Option<(u64, [u8; TEENSY_SEND_MSG_SIZE])>)
        ensures
            r == spec_latest_after(*self, last_seq),
    {
        if self.seq != last_seq {
            match self.payload {
                Some(p) => Some((self.seq, p)),
                None => None,
            }
        } else {
            None
        }
    }
}

/// A reader that last saw the sequence number before a publication gets the
/// published payload with the new sequence number.
pub proof fn lemma_read_after_publish(s: TeensyLastState, payload: [u8; TEENSY_SEND_MSG_SIZE])
    ensures
        spec_latest_after(spec_publish(s, payload), s.seq) == Some(
            (spec_publish(s, payload).seq, payload),
        ),
{
}

/// A reader that has seen the current sequence number gets nothing until the
/// next publication.
pub proof fn lemma_no_repeat_read(s: TeensyLastState)
    ensures
        spec_latest_after(s, s.seq) is None,
{
}

/// Raw data from the onboard vision: the IEEE-754 bits of the ball's `x`,
/// `y` and `size` as the vision process sends them.
#[derive(Debug, Clone, Copy, PartialEq, Eq, Structural)]
pub struct VisionMsg {
    pub x: u32,
    pub y: u32,
    pub size: u32,
}

/// The vision message that a frame holds: `x` and `y` little-endian, `size`
/// big-endian. Frames of 12 bytes or fewer hold none.
pub open spec fn spec_vision_from_frame(buf: Seq<u8>) -> Option<VisionMsg> {
    if buf.len() > 12 {
        Some(
            VisionMsg {
                x: from_le32(buf[0], buf[1], buf[2], buf[3]),
                y: from_le32(buf[4], buf[5], buf[6], buf[7]),
                size: from_be32(buf[8], buf[9], buf[10], buf[11]),
            },
        )
    } else {
        None
    }
}

impl Default for VisionMsg {
    fn default() -> (r: Self)
        ensures
            r == (VisionMsg { x: 0, y: 0, size: 0 }),
    {
        VisionMsg { x: 0, y: 0, size: 0 }
    }
}

impl VisionMsg {
    /// Reads a vision message from a received frame.
    pub fn from_frame(buf: &[u8]) -> (r: Option<VisionMsg>)
        ensures
            r == spec_vision_from_frame(buf@),
    {
        if buf.len() <= 12 {
            return None;
        }
        let x = read_le32(buf[0], buf[1], buf[2], buf[3]);
        let y = read_le32(buf[4], buf[5], buf[6], buf[7]);
        let size = read_le32(buf[11], buf[10], buf[9], buf[8]);
        Some(VisionMsg { x, y, size })
    }
}

/// The newest data from each source that the robot loop has not consumed yet.
#[derive(Debug, Clone)]
pub struct Events {
    pub cp: Option<CpRobot>,
    pub vis: Option<VisionMsg>,
    pub teensy: Option<TeensyRecMSG>,
}

impl Default for Events {
    fn default() -> (r: Self)
        ensures
            r.cp is None && r.vis is None && r.teensy is None,
    {
        Events { cp: None, vis: None, teensy: None }
    }
}

impl Events {
    /// Drops all pending data.
    pub fn clear(&mut self)
        ensures
            final(self).cp is None,
            final(self).vis is None,
            final(self).teensy is None,
    {
        self.cp = None;
        self.vis = None;
        self.teensy = None;
    }

    /// Takes all pending data, leaving nothing pending.
    pub fn take(&mut self) -> (r: Self)
        ensures
            r.cp == old(self).cp,
            r.vis == old(self).vis,
            r.teensy == old(self).teensy,
            final(self).cp is None,
            final(self).vis is None,
            final(self).teensy is None,
    {
        Events { cp: self.cp.take(), vis: self.vis.take(), teensy: self.teensy.take() }
    }
}

/// Only the newest publication is delivered: a reader that missed several
/// publications gets the last payload, and only once.
pub proof fn lemma_newest_wins(
    s: TeensyLastState,
    first: [u8; TEENSY_SEND_MSG_SIZE],
    second: [u8; TEENSY_SEND_MSG_SIZE],
)
    ensures
        spec_latest_after(spec_publish(spec_publish(s, first), second), s.seq) == Some(
            (spec_publish(spec_publish(s, first), second).seq, second),
        ),
        spec_latest_after(
            spec_publish(spec_publish(s, first), second),
            spec_publish(spec_publish(s, first), second).seq,
        ) is None,
{
}

} // verus!
