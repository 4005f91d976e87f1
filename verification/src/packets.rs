//! The latest packet of each kind, as the robot loop sees them, and the
//! integer steps of one loop iteration.

use crate::communication::{default_send_msg, Events, TeensyRecMSG, TeensySendMsg, VisionMsg};
use crate::proto::{default_tracked_robot, CpRobot, CpTrackedRobot, CpVector2, RobotCp, Timestamp};
use crate::proto::{state_from_number, CpState};
use crate::robot_logic::{
    normalize_orientation, outside_field, spec_inside_field, spec_plan_state, StateAction,
    STOP_MAX_SPEED_MM_S,
};
use crate::communication::send_flags;
use crate::communication::bit_set_u32;
use vstd::prelude::*;

verus! {

/// The latest packets received from each source, the robot's own tracked
/// state, and the message being prepared for the controller.
#[derive(Debug, Clone)]
pub struct PacketBuffer {
    pub cp_data: CpRobot,
    pub vision_data: VisionMsg,
    pub teensy_data: TeensyRecMSG,
    pub robot_msg: TeensySendMsg,
    pub robot_self: CpTrackedRobot,
}

/// `i` is the first index of a robot with id `id` in `list`.
pub open spec fn is_first_with_id(list: Seq<CpTrackedRobot>, id: u32, i: int) -> bool {
    &&& 0 <= i < list.len()
    &&& list[i].robot_id == id
    &&& forall|j: int| 0 <= j < i ==> list[j].robot_id != id
}

/// The tracked robots of our own team: yellow when `team_color` is false,
/// blue otherwise.
pub open spec fn own_team(cp: CpRobot) -> Seq<CpTrackedRobot> {
    if !cp.infos.team_color {
        cp.robots_yellow@
    } else {
        cp.robots_blue@
    }
}

/// `new` is the first robot of `list` with id `id`, or `old` when there is
/// none.
pub open spec fn selects_robot(
    list: Seq<CpTrackedRobot>,
    id: u32,
    old: CpTrackedRobot,
    new: CpTrackedRobot,
) -> bool {
    ||| exists|i: int| #[trigger] is_first_with_id(list, id, i) && new == list[i]
    ||| (forall|i: int| 0 <= i < list.len() ==> list[i].robot_id != id) && new == old
}

/// The first robot with id `id` in `list`, if any.
pub fn find_robot(list: &Vec<CpTrackedRobot>, id: u32) -> (r: Option<CpTrackedRobot>)
    ensures
        r matches Some(x) ==> exists|i: int| #[trigger] is_first_with_id(list@, id, i) && list@[i] == x,
        r is None ==> forall|i: int| 0 <= i < list@.len() ==> list@[i].robot_id != id,
{
    let mut i: usize = 0;
    while i < list.len()
        invariant
            i <= list@.len(),
            forall|j: int| 0 <= j < i ==> list@[j].robot_id != id,
        decreases list@.len() - i,
    {
        if list[i].robot_id == id {
            assert(is_first_with_id(list@, id, i as int));
            return Some(list[i]);
        }
        i = i + 1;
    }
    None
}

/// Age (milliseconds) above which a CrashPilot packet is dropped as late.
pub const MAX_PACKET_AGE_MS: i64 = 400;

/// A timestamp as a number of nanoseconds.
pub open spec fn timestamp_nanos(t: Timestamp) -> int {
    t.seconds * 1_000_000_000 + t.nanos
}

/// A packet sent at `sent` is more than `MAX_PACKET_AGE_MS` old at `now`.
pub open spec fn spec_is_late(sent: Timestamp, now: Timestamp) -> bool {
    timestamp_nanos(now) - timestamp_nanos(sent) > MAX_PACKET_AGE_MS * 1_000_000
}

/// Whether a packet sent at `sent` is more than `MAX_PACKET_AGE_MS` old at
/// `now`.
pub fn packet_is_late(sent: Timestamp, now: Timestamp) -> (r: bool)
    ensures
        r == spec_is_late(sent, now),
{
    let sent_ns: i128 = sent.seconds as i128 * 1_000_000_000i128 + sent.nanos as i128;
    let now_ns: i128 = now.seconds as i128 * 1_000_000_000i128 + now.nanos as i128;
    now_ns - sent_ns > MAX_PACKET_AGE_MS as i128 * 1_000_000i128
}

/// A new CrashPilot packet `p` is taken at `now` when it is not late and is
/// newer than the packet `held` (any packet is newer than none).
pub open spec fn accepts_cp(held: CpRobot, p: CpRobot, now: Timestamp) -> bool {
    &&& !spec_is_late(p.timestamp, now)
    &&& (held.spec_is_default() || p.packet_id > held.packet_id)
}

/// The fields of a `PacketBuffer` before any packet arrived.
pub open spec fn is_fresh(p: PacketBuffer) -> bool {
    &&& p.cp_data.spec_is_default()
    &&& p.vision_data == (VisionMsg { x: 0, y: 0, size: 0 })
    &&& p.teensy_data == (TeensyRecMSG { flags: 0, batt_level: 0, current: 0 })
    &&& p.robot_msg == default_send_msg()
    &&& p.robot_self == default_tracked_robot()
}

/// `new` is `old` at the start of a loop iteration: the controller flags
/// cleared, no motion (direction and speed 0) until the behaviour chooses
/// one, and the own orientation reduced to `0..360` and reported.
pub open spec fn update_begun(old: PacketBuffer, new: PacketBuffer) -> bool {
    &&& new.robot_self == (CpTrackedRobot {
        orientation: old.robot_self.orientation % 360,
        ..old.robot_self
    })
    &&& new.robot_msg == (TeensySendMsg {
        flags: 0,
        dir: 0,
        speed: 0,
        self_orient: (old.robot_self.orientation % 360) as u16,
        ..old.robot_msg
    })
    &&& new.cp_data == old.cp_data
    &&& new.vision_data == old.vision_data
    &&& new.teensy_data == old.teensy_data
}

/// The robot is stopped at the end of a loop iteration: it is outside the
/// field or barely visible (visibility 20 or less).
pub open spec fn must_stop(p: PacketBuffer) -> bool {
    !spec_inside_field(p.cp_data.infos, p.robot_self.pos) || p.robot_self.visibility <= 20
}

/// The speed sent at the end of a loop iteration: 0 when the robot must
/// stop or the game is halted, the behaviour's speed capped at
/// `STOP_MAX_SPEED_MM_S` in STOP, the behaviour's speed otherwise.
pub open spec fn final_speed(p: PacketBuffer) -> u16 {
    let state = state_from_number(p.cp_data.cmd.state);
    if must_stop(p) || state == Some(CpState::StateHalt) {
        0
    } else if state == Some(CpState::StateStop) && p.robot_msg.speed > STOP_MAX_SPEED_MM_S {
        STOP_MAX_SPEED_MM_S
    } else {
        p.robot_msg.speed
    }
}

/// `new` is `old` at the end of a loop iteration: the game state and the own
/// velocity copied into the controller message, the direction and
/// orientation the behaviour chose kept, and the speed limited by
/// `final_speed`.
pub open spec fn update_finished(old: PacketBuffer, new: PacketBuffer) -> bool {
    let vel = match old.robot_self.vel {
        Some(v) => v,
        None => crate::robot_logic::origin(),
    };
    &&& new.robot_msg == (TeensySendMsg {
        state: old.cp_data.cmd.state as u8,
        vel_x: vel.x as i16,
        vel_y: vel.y as i16,
        speed: final_speed(old),
        ..old.robot_msg
    })
    &&& new.cp_data == old.cp_data
    &&& new.vision_data == old.vision_data
    &&& new.teensy_data == old.teensy_data
    &&& new.robot_self == old.robot_self
}

/// The behaviour chosen for the game state (task, goalie, halt) changes only
/// the controller message, and not the own orientation reported in it.
pub open spec fn behaviour_step(old: PacketBuffer, new: PacketBuffer) -> bool {
    &&& new.robot_msg.self_orient == old.robot_msg.self_orient
    &&& new.cp_data == old.cp_data
    &&& new.vision_data == old.vision_data
    &&& new.teensy_data == old.teensy_data
    &&& new.robot_self == old.robot_self
}

/// One iteration of the robot loop: whatever the behaviour does to the
/// controller message, the own orientation ends in `0..360`, equal to the
/// old one modulo 360, and is reported as the own orientation; the game
/// state is copied; an unknown game state (outside 1 to 5), whose behaviour
/// only raises the error flag, leaves exactly the error flag set; a robot
/// outside the field or barely visible, or in HALT, is sent speed 0; in STOP
/// the speed is at most `STOP_MAX_SPEED_MM_S`; otherwise the direction,
/// orientation and speed the behaviour chose are sent.
pub proof fn lemma_update_iteration(
    start: PacketBuffer,
    begun: PacketBuffer,
    behaved: PacketBuffer,
    finished: PacketBuffer,
    was_goalie: bool,
)
    requires
        update_begun(start, begun),
        behaviour_step(begun, behaved),
        spec_plan_state(begun.cp_data.cmd.state, was_goalie).0 is Error ==> behaved.robot_msg.flags
            == begun.robot_msg.flags | send_flags::ERROR,
        update_finished(behaved, finished),
    ensures
        0 <= finished.robot_self.orientation < 360,
        (finished.robot_self.orientation - start.robot_self.orientation) % 360 == 0,
        finished.robot_msg.self_orient == finished.robot_self.orientation as u16,
        finished.robot_msg.state == start.cp_data.cmd.state as u8,
        !(1 <= start.cp_data.cmd.state <= 5) ==> finished.robot_msg.flags == send_flags::ERROR,
        must_stop(start) ==> finished.robot_msg.speed == 0,
        start.cp_data.cmd.state == 1 ==> finished.robot_msg.speed == 0,
        start.cp_data.cmd.state == 2 ==> finished.robot_msg.speed <= STOP_MAX_SPEED_MM_S,
        finished.robot_msg.dir == behaved.robot_msg.dir,
        finished.robot_msg.orient == behaved.robot_msg.orient,
        !must_stop(start) && start.cp_data.cmd.state != 1 && start.cp_data.cmd.state != 2
            ==> finished.robot_msg.speed == behaved.robot_msg.speed,
{
    let o = start.robot_self.orientation as int;
    assert((o % 360 - o) % 360 == 0) by {
        vstd::arithmetic::div_mod::lemma_fundamental_div_mod(o, 360);
        vstd::arithmetic::div_mod::lemma_mod_multiples_vanish(-(o / 360), 0, 360);
    }
    assert(0u16 | 0x0001u16 == 0x0001u16) by (bit_vector);
}

impl PacketBuffer {
    /// A buffer holding only default packets.
    pub fn new() -> (r: Self)
        ensures
            is_fresh(r),
    {
        PacketBuffer {
            cp_data: CpRobot::default(),
            vision_data: VisionMsg::default(),
            teensy_data: TeensyRecMSG::default(),
            robot_msg: TeensySendMsg::default(),
            robot_self: CpTrackedRobot::default(),
        }
    }

    /// Resets every packet to its default.
    pub fn clear(&mut self)
        ensures
            is_fresh(*final(self)),
    {
        self.cp_data = CpRobot::default();
        self.vision_data = VisionMsg::default();
        self.teensy_data = TeensyRecMSG::default();
        self.robot_msg = TeensySendMsg::default();
        self.robot_self = CpTrackedRobot::default();
    }

    /// Replaces each packet for which the events hold a newer one. A
    /// CrashPilot packet that is late at `now`, or whose id is not newer
    /// than that of the packet held, is dropped.
    pub fn merge_events(&mut self, events: Events, now: Timestamp)
        ensures
            final(self).cp_data == match events.cp {
                Some(p) => if accepts_cp(old(self).cp_data, p, now) {
                    p
                } else {
                    old(self).cp_data
                },
                None => old(self).cp_data,
            },
            final(self).vision_data == match events.vis {
                Some(p) => p,
                None => old(self).vision_data,
            },
            final(self).teensy_data == match events.teensy {
                Some(p) => p,
                None => old(self).teensy_data,
            },
            final(self).robot_msg == old(self).robot_msg,
            final(self).robot_self == old(self).robot_self,
    {
        if let Some(p) = events.cp {
            if !packet_is_late(p.timestamp, now) && (self.cp_data.is_default() || p.packet_id
                > self.cp_data.packet_id) {
                self.cp_data = p;
            }
        }
        if let Some(p) = events.vis {
            self.vision_data = p;
        }
        if let Some(p) = events.teensy {
            self.teensy_data = p;
        }
    }

    /// The CrashPilot packet is addressed to the robot `robot_id` (or nothing
    /// was received yet).
    pub fn robot_id_matches(&self, robot_id: u8) -> (r: bool)
        ensures
            r == (self.cp_data.spec_is_default() || robot_id as u32 == self.cp_data.robot_id),
    {
        self.cp_data.is_default() || robot_id as u32 == self.cp_data.robot_id
    }

    /// Takes the robot's own tracked state from its team's list (yellow when
    /// `team_color` is false, blue otherwise): the first robot with id
    /// `robot_id`. Without one, the previous state stays.
    pub fn select_robot_self(&mut self, robot_id: u8)
        ensures
            selects_robot(
                own_team(old(self).cp_data),
                robot_id as u32,
                old(self).robot_self,
                final(self).robot_self,
            ),
            final(self).cp_data == old(self).cp_data,
            final(self).vision_data == old(self).vision_data,
            final(self).teensy_data == old(self).teensy_data,
            final(self).robot_msg == old(self).robot_msg,
    {
        let id = robot_id as u32;
        let found = if !self.cp_data.infos.team_color {
            find_robot(&self.cp_data.robots_yellow, id)
        } else {
            find_robot(&self.cp_data.robots_blue, id)
        };
        if let Some(r) = found {
            self.robot_self = r;
        }
    }

    /// The status report for the CrashPilot: battery and current from the
    /// controller, kicker ready when both kicker and chipper are charged,
    /// the error flag, and the id and timestamp of the last CrashPilot
    /// packet.
    pub fn cp_packet(&self, robot_id: u8) -> (r: RobotCp)
        ensures
            r == (RobotCp {
                robot_id: robot_id as u32,
                battery_voltage: Some(self.teensy_data.batt_level as u32),
                current: Some(self.teensy_data.current as u32),
                kicker_ready: bit_set_u32(self.teensy_data.flags, 2) && bit_set_u32(
                    self.teensy_data.flags,
                    3,
                ),
                has_ball: bit_set_u32(self.teensy_data.flags, 1),
                has_error: if bit_set_u32(self.teensy_data.flags, 0) {
                    Some(true)
                } else {
                    None
                },
                acting: Some(true),
                last_rec_packet: Some(self.cp_data.packet_id),
                timestamp: self.cp_data.timestamp,
            }),
    {
        RobotCp {
            robot_id: robot_id as u32,
            battery_voltage: Some(self.teensy_data.batt_level as u32),
            current: Some(self.teensy_data.current as u32),
            kicker_ready: self.teensy_data.kick_ready() && self.teensy_data.chip_ready(),
            has_ball: self.teensy_data.has_ball(),
            has_error: if self.teensy_data.error() {
                Some(true)
            } else {
                None
            },
            acting: Some(true),
            last_rec_packet: Some(self.cp_data.packet_id),
            timestamp: self.cp_data.timestamp,
        }
    }

    /// Starts a loop iteration: clears the controller flags and the motion
    /// (direction and speed), and reduces the own orientation to `0..360`,
    /// reporting it as the own orientation.
    pub fn begin_update(&mut self)
        ensures
            update_begun(*old(self), *final(self)),
            0 <= final(self).robot_self.orientation < 360,
    {
        self.robot_msg.clear_all_flags();
        self.robot_msg.dir = 0;
        self.robot_msg.speed = 0;
        let orient = normalize_orientation(self.robot_self.orientation);
        self.robot_self.orientation = orient;
        self.robot_msg.self_orient = orient as u16;
    }

    /// Ends a loop iteration: copies the game state and the own velocity
    /// into the controller message and limits the speed the behaviour chose:
    /// 0 when the robot is outside the field or barely visible (visibility
    /// 20 or less) or the game is halted, at most `STOP_MAX_SPEED_MM_S` in
    /// STOP.
    pub fn finish_update(&mut self)
        ensures
            update_finished(*old(self), *final(self)),
    {
        let state = self.cp_data.cmd.state;
        let vel = match self.robot_self.vel {
            Some(v) => v,
            None => crate::proto::CpVector2 { x: 0, y: 0 },
        };
        self.robot_msg.state = state as u8;
        self.robot_msg.vel_x = vel.x as i16;
        self.robot_msg.vel_y = vel.y as i16;
        let halted = match CpState::from_i32(state) {
            Some(CpState::StateHalt) => true,
            _ => false,
        };
        let stopped = match CpState::from_i32(state) {
            Some(CpState::StateStop) => true,
            _ => false,
        };
        if outside_field(&self.cp_data.infos, self.robot_self.pos) || self.robot_self.visibility
            <= 20 || halted {
            self.robot_msg.speed = 0;
        } else if stopped && self.robot_msg.speed > STOP_MAX_SPEED_MM_S {
            self.robot_msg.speed = STOP_MAX_SPEED_MM_S;
        }
    }
}

/// The tracked robots of the opposing team: blue when `team_color` is false,
/// yellow otherwise.
pub open spec fn opponent_team(cp: CpRobot) -> Seq<CpTrackedRobot> {
    if !cp.infos.team_color {
        cp.robots_blue@
    } else {
        cp.robots_yellow@
    }
}

/// The position of the first opponent with id `enemy_id`, or the origin
/// when there is none.
pub fn opponent_position(cp: &CpRobot, enemy_id: u32) -> (r: CpVector2)
    ensures
        ({
            ||| exists|i: int| #[trigger] is_first_with_id(opponent_team(*cp), enemy_id, i) && r == opponent_team(*cp)[i].pos
            ||| (forall|i: int| 0 <= i < opponent_team(*cp).len() ==> opponent_team(*cp)[i].robot_id != enemy_id)
                && r == (CpVector2 { x: 0, y: 0 })
        }),
{
    let found = if !cp.infos.team_color {
        find_robot(&cp.robots_blue, enemy_id)
    } else {
        find_robot(&cp.robots_yellow, enemy_id)
    };
    match found {
        Some(r) => r.pos,
        None => CpVector2 { x: 0, y: 0 },
    }
}


/// The speed the last step of a loop iteration sends: exactly the speed the
/// behaviour chose for a robot on the field with visibility above 20 in a
/// state other than HALT (1) and STOP (2); 0 for a robot off the field, with
/// visibility 20 or less, or in HALT; in STOP, on the field and visible, the
/// behaviour's speed capped at `STOP_MAX_SPEED_MM_S`. The game state is
/// copied and the behaviour's direction and orientation are kept.
pub proof fn lemma_finish_speed(old: PacketBuffer, new: PacketBuffer)
    requires
        update_finished(old, new),
    ensures
        ({
            let on_field = spec_inside_field(old.cp_data.infos, old.robot_self.pos);
            let state = old.cp_data.cmd.state;
            &&& on_field && old.robot_self.visibility > 20 && state != 1 && state != 2
                ==> new.robot_msg.speed == old.robot_msg.speed
            &&& (!on_field || old.robot_self.visibility <= 20 || state == 1) ==> new.robot_msg.speed == 0
            &&& on_field && old.robot_self.visibility > 20 && state == 2 ==> new.robot_msg.speed == (
            if old.robot_msg.speed > 1500 {
                1500
            } else {
                old.robot_msg.speed
            })
        }),
        new.robot_msg.state == old.cp_data.cmd.state as u8,
        new.robot_msg.dir == old.robot_msg.dir,
        new.robot_msg.orient == old.robot_msg.orient,
        new.robot_msg.flags == old.robot_msg.flags,
{
}

} // verus!
