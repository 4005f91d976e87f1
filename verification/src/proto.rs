//! The CrashPilot protocol messages, as plain values.
//!
//! The wire encoding (protobuf) is done outside the verified library; here the
//! messages are ordinary structs and the enumerations carry their protobuf
//! numbers and names.

use vstd::prelude::*;
use vstd::utf8::{encode_utf8, encode_utf8_decode_utf8};

verus! {

/// A point or velocity in the ssl-vision coordinate system (mm or mm/s).
#[derive(Debug, Clone, Copy, PartialEq, Eq, Structural)]
pub struct CpVector2 {
    pub x: i32,
    pub y: i32,
}

impl Default for CpVector2 {
    fn default() -> (r: Self)
        ensures
            r.x == 0 && r.y == 0,
    {
        CpVector2 { x: 0, y: 0 }
    }
}

/// The tracked ball.
#[derive(Debug, Clone, Copy, PartialEq, Eq, Structural)]
pub struct CpBall {
    /// The position in mm.
    pub pos: CpVector2,
    /// The velocity in mm/s.
    pub vel: Option<CpVector2>,
}

impl Default for CpBall {
    fn default() -> (r: Self)
        ensures
            r == (CpBall { pos: CpVector2 { x: 0, y: 0 }, vel: None }),
    {
        CpBall { pos: CpVector2 { x: 0, y: 0 }, vel: None }
    }
}

/// A single tracked robot.
#[derive(Debug, Clone, Copy, PartialEq, Eq, Structural)]
pub struct CpTrackedRobot {
    pub robot_id: u32,
    /// The position in mm.
    pub pos: CpVector2,
    /// The orientation in degrees.
    pub orientation: i32,
    /// The velocity.
    pub vel: Option<CpVector2>,
    /// 0 means not visible, 255 fully visible.
    pub visibility: u32,
}

/// The all-zero tracked robot (the protobuf default).
pub open spec fn default_tracked_robot() -> CpTrackedRobot {
    CpTrackedRobot {
        robot_id: 0,
        pos: CpVector2 { x: 0, y: 0 },
        orientation: 0,
        vel: None,
        visibility: 0,
    }
}

impl Default for CpTrackedRobot {
    fn default() -> (r: Self)
        ensures
            r == default_tracked_robot(),
    {
        CpTrackedRobot {
            robot_id: 0,
            pos: CpVector2 { x: 0, y: 0 },
            orientation: 0,
            vel: None,
            visibility: 0,
        }
    }
}

/// A protobuf timestamp.
#[derive(Debug, Clone, Copy, PartialEq, Eq, Structural)]
pub struct Timestamp {
    pub seconds: i64,
    pub nanos: i32,
}

/// The command for this robot: the game state, the task and its arguments.
#[derive(Debug, Clone, Copy, PartialEq, Eq, Structural)]
pub struct CpCommand {
    /// A `CpState` number.
    pub state: i32,
    /// A `CpTask` number.
    pub task: i32,
    pub pos: Option<CpVector2>,
    pub speed: Option<u32>,
    pub orientation: Option<u32>,
    pub kick_orient: Option<u32>,
    pub kick_speed: Option<u32>,
    pub enemy_id: Option<u32>,
    /// Drive straight to `pos`, without obstacle avoidance.
    pub raw: Option<bool>,
}

/// The all-zero command (the protobuf default).
pub open spec fn default_command() -> CpCommand {
    CpCommand {
        state: 0,
        task: 0,
        pos: None,
        speed: None,
        orientation: None,
        kick_orient: None,
        kick_speed: None,
        enemy_id: None,
        raw: None,
    }
}

/// Information about the game and the field.
#[derive(Debug, Clone, Copy, PartialEq, Eq, Structural)]
pub struct CpInfos {
    /// false for yellow and true for blue.
    pub team_color: bool,
    /// Our defensive side: false for x+ and true for x-.
    pub team_site: bool,
    pub width: u32,
    pub height: u32,
    pub runoff_width: u32,
    pub penalty_area_width: u32,
    pub penalty_area_height: u32,
    pub goal_width: u32,
}

/// The all-zero field information (the protobuf default).
pub open spec fn default_infos() -> CpInfos {
    CpInfos {
        team_color: false,
        team_site: false,
        width: 0,
        height: 0,
        runoff_width: 0,
        penalty_area_width: 0,
        penalty_area_height: 0,
        goal_width: 0,
    }
}

/// The message from the CrashPilot to the robot.
#[derive(Debug, Clone)]
pub struct CpRobot {
    pub robot_id: u32,
    pub timestamp: Timestamp,
    pub packet_id: u32,
    pub ball: CpBall,
    pub robots_yellow: Vec<CpTrackedRobot>,
    pub robots_blue: Vec<CpTrackedRobot>,
    pub cmd: CpCommand,
    pub infos: CpInfos,
}

impl CpRobot {
    /// The message holds only default values (nothing was received yet).
    pub open spec fn spec_is_default(&self) -> bool {
        &&& self.robot_id == 0
        &&& self.timestamp == (Timestamp { seconds: 0, nanos: 0 })
        &&& self.packet_id == 0
        &&& self.ball == (CpBall { pos: CpVector2 { x: 0, y: 0 }, vel: None })
        &&& self.robots_yellow@.len() == 0
        &&& self.robots_blue@.len() == 0
        &&& self.cmd == default_command()
        &&& self.infos == default_infos()
    }

    /// Whether the message equals the default message.
    pub fn is_default(&self) -> (r: bool)
        ensures
            r == self.spec_is_default(),
    {
        self.robot_id == 0 && self.timestamp.seconds == 0 && self.timestamp.nanos == 0
            && self.packet_id == 0 && self.ball.pos.x == 0 && self.ball.pos.y == 0
            && self.ball.vel.is_none() && self.robots_yellow.len() == 0
            && self.robots_blue.len() == 0 && self.cmd.state == 0 && self.cmd.task == 0
            && self.cmd.pos.is_none() && self.cmd.speed.is_none()
            && self.cmd.orientation.is_none() && self.cmd.kick_orient.is_none()
            && self.cmd.kick_speed.is_none() && self.cmd.enemy_id.is_none()
            && self.cmd.raw.is_none()
            && !self.infos.team_color && !self.infos.team_site && self.infos.width == 0
            && self.infos.height == 0 && self.infos.runoff_width == 0
            && self.infos.penalty_area_width == 0 && self.infos.penalty_area_height == 0
            && self.infos.goal_width == 0
    }
}

impl Default for CpRobot {
    fn default() -> (r: Self)
        ensures
            r.spec_is_default(),
    {
        CpRobot {
            robot_id: 0,
            timestamp: Timestamp { seconds: 0, nanos: 0 },
            packet_id: 0,
            ball: CpBall { pos: CpVector2 { x: 0, y: 0 }, vel: None },
            robots_yellow: Vec::new(),
            robots_blue: Vec::new(),
            cmd: CpCommand {
                state: 0,
                task: 0,
                pos: None,
                speed: None,
                orientation: None,
                kick_orient: None,
                kick_speed: None,
                enemy_id: None,
                raw: None,
            },
            infos: CpInfos {
                team_color: false,
                team_site: false,
                width: 0,
                height: 0,
                runoff_width: 0,
                penalty_area_width: 0,
                penalty_area_height: 0,
                goal_width: 0,
            },
        }
    }
}

/// The status packet the robot sends back to the CrashPilot.
#[derive(Debug, Clone, Copy, PartialEq, Eq, Structural)]
pub struct RobotCp {
    pub robot_id: u32,
    pub battery_voltage: Option<u32>,
    pub current: Option<u32>,
    pub kicker_ready: bool,
    pub has_ball: bool,
    pub has_error: Option<bool>,
    pub acting: Option<bool>,
    pub last_rec_packet: Option<u32>,
    /// The timestamp of the last CrashPilot packet.
    pub timestamp: Timestamp,
}

/// Whether two strings hold the same characters.
pub fn str_eq(a: &str, b: &str) -> (r: bool)
    ensures
        r == (a@ == b@),
{
    let ab = a.as_bytes();
    let bb = b.as_bytes();
    proof {
        encode_utf8_decode_utf8(a@);
        encode_utf8_decode_utf8(b@);
    }
    if ab.len() != bb.len() {
        return false;
    }
    let mut i: usize = 0;
    while i < ab.len()
        invariant
            ab@.len() == bb@.len(),
            i <= ab@.len(),
            forall|j: int| 0 <= j < i ==> ab@[j] == bb@[j],
            ab@ == encode_utf8(a@),
            bb@ == encode_utf8(b@),
        decreases ab@.len() - i,
    {
        if ab[i] != bb[i] {
            assert(ab@[i as int] != bb@[i as int]);
            assert(a@ != b@);
            return false;
        }
        i = i + 1;
    }
    assert(ab@ =~= bb@);
    true
}

/// The game state commanded by the game controller, through the CrashPilot.
#[derive(Debug, Clone, Copy, PartialEq, Eq, Structural, Hash, PartialOrd, Ord)]
pub enum CpState {
    StateUnspecified,
    /// The robot is not allowed to move.
    StateHalt,
    /// Max velocity 1.5 m/s and 0.5 m distance to the ball.
    StateStop,
    /// Listen to the task commands.
    StateFree,
    /// This robot is the goalie.
    StateGoalie,
    /// Drive to the substitution area and stop.
    StateSubstitute,
}

/// The protobuf number of each state.
pub open spec fn state_number(s: CpState) -> i32 {
    match s {
        CpState::StateUnspecified => 0,
        CpState::StateHalt => 1,
        CpState::StateStop => 2,
        CpState::StateFree => 3,
        CpState::StateGoalie => 4,
        CpState::StateSubstitute => 5,
    }
}

/// The state with a given protobuf number, if any.
pub open spec fn state_from_number(v: i32) -> Option<CpState> {
    if v == 0 {
        Some(CpState::StateUnspecified)
    } else if v == 1 {
        Some(CpState::StateHalt)
    } else if v == 2 {
        Some(CpState::StateStop)
    } else if v == 3 {
        Some(CpState::StateFree)
    } else if v == 4 {
        Some(CpState::StateGoalie)
    } else if v == 5 {
        Some(CpState::StateSubstitute)
    } else {
        None
    }
}

/// The protobuf field name of each state.
pub open spec fn state_name(s: CpState) -> Seq<char> {
    match s {
        CpState::StateUnspecified => "STATE_UNSPECIFIED"@,
        CpState::StateHalt => "STATE_HALT"@,
        CpState::StateStop => "STATE_STOP"@,
        CpState::StateFree => "STATE_FREE"@,
        CpState::StateGoalie => "STATE_GOALIE"@,
        CpState::StateSubstitute => "STATE_SUBSTITUTE"@,
    }
}

/// The state with a given protobuf field name, if any.
pub open spec fn state_from_name(v: Seq<char>) -> Option<CpState> {
    if v == "STATE_UNSPECIFIED"@ {
        Some(CpState::StateUnspecified)
    } else if v == "STATE_HALT"@ {
        Some(CpState::StateHalt)
    } else if v == "STATE_STOP"@ {
        Some(CpState::StateStop)
    } else if v == "STATE_FREE"@ {
        Some(CpState::StateFree)
    } else if v == "STATE_GOALIE"@ {
        Some(CpState::StateGoalie)
    } else if v == "STATE_SUBSTITUTE"@ {
        Some(CpState::StateSubstitute)
    } else {
        None
    }
}

impl CpState {
    /// The protobuf number of this state.
    pub fn as_i32(&self) -> (r: i32)
        ensures
            r == state_number(*self),
    {
        match self {
            CpState::StateUnspecified => 0,
            CpState::StateHalt => 1,
            CpState::StateStop => 2,
            CpState::StateFree => 3,
            CpState::StateGoalie => 4,
            CpState::StateSubstitute => 5,
        }
    }

    /// The state with the protobuf number `v`, or `None` for an unknown number.
    pub fn from_i32(v: i32) -> (r: Option<CpState>)
        ensures
            r == state_from_number(v),
    {
        if v == 0 {
            Some(CpState::StateUnspecified)
        } else if v == 1 {
            Some(CpState::StateHalt)
        } else if v == 2 {
            Some(CpState::StateStop)
        } else if v == 3 {
            Some(CpState::StateFree)
        } else if v == 4 {
            Some(CpState::StateGoalie)
        } else if v == 5 {
            Some(CpState::StateSubstitute)
        } else {
            None
        }
    }

    /// String value of the enum field names used in the ProtoBuf definition.
    pub fn as_str_name(&self) -> (r: &'static str)
        ensures
            r@ == state_name(*self),
    {
        match self {
            CpState::StateUnspecified => "STATE_UNSPECIFIED",
            CpState::StateHalt => "STATE_HALT",
            CpState::StateStop => "STATE_STOP",
            CpState::StateFree => "STATE_FREE",
            CpState::StateGoalie => "STATE_GOALIE",
            CpState::StateSubstitute => "STATE_SUBSTITUTE",
        }
    }

    /// Creates an enum from field names used in the ProtoBuf definition.
    pub fn from_str_name(value: &str) -> (r: Option<CpState>)
        ensures
            r == state_from_name(value@),
    {
        if str_eq(value, "STATE_UNSPECIFIED") {
            Some(CpState::StateUnspecified)
        } else if str_eq(value, "STATE_HALT") {
            Some(CpState::StateHalt)
        } else if str_eq(value, "STATE_STOP") {
            Some(CpState::StateStop)
        } else if str_eq(value, "STATE_FREE") {
            Some(CpState::StateFree)
        } else if str_eq(value, "STATE_GOALIE") {
            Some(CpState::StateGoalie)
        } else if str_eq(value, "STATE_SUBSTITUTE") {
            Some(CpState::StateSubstitute)
        } else {
            None
        }
    }
}

/// The task commanded by the CrashPilot.
#[derive(Debug, Clone, Copy, PartialEq, Eq, Structural, Hash, PartialOrd, Ord)]
pub enum CpTask {
    /// Unknown task.
    TaskUnspecified,
    /// Drive to the commanded position.
    TaskPos,
    /// Kick the ball in the `kick_orient` direction.
    TaskKick,
    /// Chip the ball in the `kick_orient` direction.
    TaskChip,
    /// Receive a pass.
    TaskRecKick,
    /// Steal the ball from another robot.
    TaskSteal,
    /// Dribble the ball to the commanded position.
    TaskDribble,
    /// Get the ball and move it to the commanded position.
    TaskPosBall,
    /// Block the robot `enemy_id`, or the goal.
    TaskBlock,
    /// Kick-off.
    StateKickoff,
    /// Free kick.
    StateFreekick,
}

/// The protobuf number of each task.
pub open spec fn task_number(t: CpTask) -> i32 {
    match t {
        CpTask::TaskUnspecified => 0,
        CpTask::TaskPos => 1,
        CpTask::TaskKick => 2,
        CpTask::TaskChip => 3,
        CpTask::TaskRecKick => 4,
        CpTask::TaskSteal => 5,
        CpTask::TaskDribble => 6,
        CpTask::TaskPosBall => 7,
        CpTask::TaskBlock => 8,
        CpTask::StateKickoff => 9,
        CpTask::StateFreekick => 11,
    }
}

/// The task with a given protobuf number, if any.
pub open spec fn task_from_number(v: i32) -> Option<CpTask> {
    if v == 0 {
        Some(CpTask::TaskUnspecified)
    } else if v == 1 {
        Some(CpTask::TaskPos)
    } else if v == 2 {
        Some(CpTask::TaskKick)
    } else if v == 3 {
        Some(CpTask::TaskChip)
    } else if v == 4 {
        Some(CpTask::TaskRecKick)
    } else if v == 5 {
        Some(CpTask::TaskSteal)
    } else if v == 6 {
        Some(CpTask::TaskDribble)
    } else if v == 7 {
        Some(CpTask::TaskPosBall)
    } else if v == 8 {
        Some(CpTask::TaskBlock)
    } else if v == 9 {
        Some(CpTask::StateKickoff)
    } else if v == 11 {
        Some(CpTask::StateFreekick)
    } else {
        None
    }
}

/// The protobuf field name of each task.
pub open spec fn task_name(t: CpTask) -> Seq<char> {
    match t {
        CpTask::TaskUnspecified => "TASK_UNSPECIFIED"@,
        CpTask::TaskPos => "TASK_POS"@,
        CpTask::TaskKick => "TASK_KICK"@,
        CpTask::TaskChip => "TASK_CHIP"@,
        CpTask::TaskRecKick => "TASK_REC_KICK"@,
        CpTask::TaskSteal => "TASK_STEAL"@,
        CpTask::TaskDribble => "TASK_DRIBBLE"@,
        CpTask::TaskPosBall => "TASK_PosBall"@,
        CpTask::TaskBlock => "TASK_BLOCK"@,
        CpTask::StateKickoff => "STATE_KICKOFF"@,
        CpTask::StateFreekick => "STATE_FREEKICK"@,
    }
}

/// The task recognised from a field name.
pub open spec fn task_from_name(v: Seq<char>) -> Option<CpTask> {
    if v == "TASK_UNSPECIFIED"@ {
        Some(CpTask::TaskUnspecified)
    } else if v == "TASK_POS"@ {
        Some(CpTask::TaskPos)
    } else if v == "TASK_KICK"@ {
        Some(CpTask::TaskKick)
    } else if v == "TASK_CHIP"@ {
        Some(CpTask::TaskChip)
    } else if v == "TASK_REC_KICK"@ {
        Some(CpTask::TaskRecKick)
    } else if v == "TASK_STEAL"@ {
        Some(CpTask::TaskSteal)
    } else if v == "TASK_DRIBBLE"@ {
        Some(CpTask::TaskDribble)
    } else if v == "TASK_PosBall"@ {
        Some(CpTask::TaskPosBall)
    } else if v == "TASK_BLOCK"@ {
        Some(CpTask::TaskBlock)
    } else if v == "STATE_KICKOFF"@ {
        Some(CpTask::StateKickoff)
    } else if v == "STATE_FREEKICK"@ {
        Some(CpTask::StateFreekick)
    } else {
        None
    }
}

impl CpTask {
    /// The protobuf number of the commanded task kind.
    pub fn as_i32(&self) -> (r: i32)
        ensures
            r == task_number(*self),
    {
        match self {
            CpTask::TaskUnspecified => 0,
            CpTask::TaskPos => 1,
            CpTask::TaskKick => 2,
            CpTask::TaskChip => 3,
            CpTask::TaskRecKick => 4,
            CpTask::TaskSteal => 5,
            CpTask::TaskDribble => 6,
            CpTask::TaskPosBall => 7,
            CpTask::TaskBlock => 8,
            CpTask::StateKickoff => 9,
            CpTask::StateFreekick => 11,
        }
    }

    /// The task with the protobuf number `v`, or `None` for an unknown number.
    pub fn from_i32(v: i32) -> (r: Option<CpTask>)
        ensures
            r == task_from_number(v),
    {
        if v == 0 {
            Some(CpTask::TaskUnspecified)
        } else if v == 1 {
            Some(CpTask::TaskPos)
        } else if v == 2 {
            Some(CpTask::TaskKick)
        } else if v == 3 {
            Some(CpTask::TaskChip)
        } else if v == 4 {
            Some(CpTask::TaskRecKick)
        } else if v == 5 {
            Some(CpTask::TaskSteal)
        } else if v == 6 {
            Some(CpTask::TaskDribble)
        } else if v == 7 {
            Some(CpTask::TaskPosBall)
        } else if v == 8 {
            Some(CpTask::TaskBlock)
        } else if v == 9 {
            Some(CpTask::StateKickoff)
        } else if v == 11 {
            Some(CpTask::StateFreekick)
        } else {
            None
        }
    }

    /// String value of the enum field names used in the ProtoBuf definition.
    pub fn as_str_name(&self) -> (r: &'static str)
        ensures
            r@ == task_name(*self),
    {
        match self {
            CpTask::TaskUnspecified => "TASK_UNSPECIFIED",
            CpTask::TaskPos => "TASK_POS",
            CpTask::TaskKick => "TASK_KICK",
            CpTask::TaskChip => "TASK_CHIP",
            CpTask::TaskRecKick => "TASK_REC_KICK",
            CpTask::TaskSteal => "TASK_STEAL",
            CpTask::TaskDribble => "TASK_DRIBBLE",
            CpTask::TaskPosBall => "TASK_PosBall",
            CpTask::TaskBlock => "TASK_BLOCK",
            CpTask::StateKickoff => "STATE_KICKOFF",
            CpTask::StateFreekick => "STATE_FREEKICK",
        }
    }

    /// Creates an enum from field names used in the ProtoBuf definition.
    pub fn from_str_name(value: &str) -> (r: Option<CpTask>)
        ensures
            r == task_from_name(value@),
    {
        if str_eq(value, "TASK_UNSPECIFIED") {
            Some(CpTask::TaskUnspecified)
        } else if str_eq(value, "TASK_POS") {
            Some(CpTask::TaskPos)
        } else if str_eq(value, "TASK_KICK") {
            Some(CpTask::TaskKick)
        } else if str_eq(value, "TASK_CHIP") {
            Some(CpTask::TaskChip)
        } else if str_eq(value, "TASK_REC_KICK") {
            Some(CpTask::TaskRecKick)
        } else if str_eq(value, "TASK_STEAL") {
            Some(CpTask::TaskSteal)
        } else if str_eq(value, "TASK_DRIBBLE") {
            Some(CpTask::TaskDribble)
        } else if str_eq(value, "TASK_PosBall") {
            Some(CpTask::TaskPosBall)
        } else if str_eq(value, "TASK_BLOCK") {
            Some(CpTask::TaskBlock)
        } else if str_eq(value, "STATE_KICKOFF") {
            Some(CpTask::StateKickoff)
        } else if str_eq(value, "STATE_FREEKICK") {
            Some(CpTask::StateFreekick)
        } else {
            None
        }
    }
}

/// Every state is recognised by its own protobuf name.
pub proof fn lemma_state_name_round_trip(s: CpState)
    ensures
        state_from_name(state_name(s)) == Some(s),
{
    reveal_strlit("STATE_UNSPECIFIED");
    reveal_strlit("STATE_HALT");
    reveal_strlit("STATE_STOP");
    reveal_strlit("STATE_FREE");
    reveal_strlit("STATE_GOALIE");
    reveal_strlit("STATE_SUBSTITUTE");
    assert("STATE_UNSPECIFIED"@.len() != "STATE_HALT"@.len());
    assert("STATE_UNSPECIFIED"@.len() != "STATE_STOP"@.len());
    assert("STATE_UNSPECIFIED"@.len() != "STATE_FREE"@.len());
    assert("STATE_UNSPECIFIED"@.len() != "STATE_GOALIE"@.len());
    assert("STATE_UNSPECIFIED"@.len() != "STATE_SUBSTITUTE"@.len());
    assert("STATE_HALT"@.len() != "STATE_UNSPECIFIED"@.len());
    assert("STATE_HALT"@[6] != "STATE_STOP"@[6]);
    assert("STATE_HALT"@[6] != "STATE_FREE"@[6]);
    assert("STATE_HALT"@.len() != "STATE_GOALIE"@.len());
    assert("STATE_HALT"@.len() != "STATE_SUBSTITUTE"@.len());
    assert("STATE_STOP"@.len() != "STATE_UNSPECIFIED"@.len());
    assert("STATE_STOP"@[6] != "STATE_HALT"@[6]);
    assert("STATE_STOP"@[6] != "STATE_FREE"@[6]);
    assert("STATE_STOP"@.len() != "STATE_GOALIE"@.len());
    assert("STATE_STOP"@.len() != "STATE_SUBSTITUTE"@.len());
    assert("STATE_FREE"@.len() != "STATE_UNSPECIFIED"@.len());
    assert("STATE_FREE"@[6] != "STATE_HALT"@[6]);
    assert("STATE_FREE"@[6] != "STATE_STOP"@[6]);
    assert("STATE_FREE"@.len() != "STATE_GOALIE"@.len());
    assert("STATE_FREE"@.len() != "STATE_SUBSTITUTE"@.len());
    assert("STATE_GOALIE"@.len() != "STATE_UNSPECIFIED"@.len());
    assert("STATE_GOALIE"@.len() != "STATE_HALT"@.len());
    assert("STATE_GOALIE"@.len() != "STATE_STOP"@.len());
    assert("STATE_GOALIE"@.len() != "STATE_FREE"@.len());
    assert("STATE_GOALIE"@.len() != "STATE_SUBSTITUTE"@.len());
    assert("STATE_SUBSTITUTE"@.len() != "STATE_UNSPECIFIED"@.len());
    assert("STATE_SUBSTITUTE"@.len() != "STATE_HALT"@.len());
    assert("STATE_SUBSTITUTE"@.len() != "STATE_STOP"@.len());
    assert("STATE_SUBSTITUTE"@.len() != "STATE_FREE"@.len());
    assert("STATE_SUBSTITUTE"@.len() != "STATE_GOALIE"@.len());
}

/// Every state is recovered from its own protobuf number.
pub proof fn lemma_state_number_round_trip(s: CpState)
    ensures
        state_from_number(state_number(s)) == Some(s),
{
}

/// Every task is recognised by its own protobuf name.
pub proof fn lemma_task_name_round_trip(t: CpTask)
    ensures
        task_from_name(task_name(t)) == Some(t),
{
    reveal_strlit("TASK_UNSPECIFIED");
    reveal_strlit("TASK_POS");
    reveal_strlit("TASK_KICK");
    reveal_strlit("TASK_CHIP");
    reveal_strlit("TASK_REC_KICK");
    reveal_strlit("TASK_STEAL");
    reveal_strlit("TASK_DRIBBLE");
    reveal_strlit("TASK_PosBall");
    reveal_strlit("TASK_BLOCK");
    reveal_strlit("STATE_KICKOFF");
    reveal_strlit("STATE_FREEKICK");
    assert("TASK_UNSPECIFIED"@.len() != "TASK_POS"@.len());
    assert("TASK_UNSPECIFIED"@.len() != "TASK_KICK"@.len());
    assert("TASK_UNSPECIFIED"@.len() != "TASK_CHIP"@.len());
    assert("TASK_UNSPECIFIED"@.len() != "TASK_REC_KICK"@.len());
    assert("TASK_UNSPECIFIED"@.len() != "TASK_STEAL"@.len());
    assert("TASK_UNSPECIFIED"@.len() != "TASK_DRIBBLE"@.len());
    assert("TASK_UNSPECIFIED"@.len() != "TASK_PosBall"@.len());
    assert("TASK_UNSPECIFIED"@.len() != "TASK_BLOCK"@.len());
    assert("TASK_UNSPECIFIED"@.len() != "STATE_KICKOFF"@.len());
    assert("TASK_UNSPECIFIED"@.len() != "STATE_FREEKICK"@.len());
    assert("TASK_POS"@.len() != "TASK_UNSPECIFIED"@.len());
    assert("TASK_POS"@.len() != "TASK_KICK"@.len());
    assert("TASK_POS"@.len() != "TASK_CHIP"@.len());
    assert("TASK_POS"@.len() != "TASK_REC_KICK"@.len());
    assert("TASK_POS"@.len() != "TASK_STEAL"@.len());
    assert("TASK_POS"@.len() != "TASK_DRIBBLE"@.len());
    assert("TASK_POS"@.len() != "TASK_PosBall"@.len());
    assert("TASK_POS"@.len() != "TASK_BLOCK"@.len());
    assert("TASK_POS"@.len() != "STATE_KICKOFF"@.len());
    assert("TASK_POS"@.len() != "STATE_FREEKICK"@.len());
    assert("TASK_KICK"@.len() != "TASK_UNSPECIFIED"@.len());
    assert("TASK_KICK"@.len() != "TASK_POS"@.len());
    assert("TASK_KICK"@[5] != "TASK_CHIP"@[5]);
    assert("TASK_KICK"@.len() != "TASK_REC_KICK"@.len());
    assert("TASK_KICK"@.len() != "TASK_STEAL"@.len());
    assert("TASK_KICK"@.len() != "TASK_DRIBBLE"@.len());
    assert("TASK_KICK"@.len() != "TASK_PosBall"@.len());
    assert("TASK_KICK"@.len() != "TASK_BLOCK"@.len());
    assert("TASK_KICK"@.len() != "STATE_KICKOFF"@.len());
    assert("TASK_KICK"@.len() != "STATE_FREEKICK"@.len());
    assert("TASK_CHIP"@.len() != "TASK_UNSPECIFIED"@.len());
    assert("TASK_CHIP"@.len() != "TASK_POS"@.len());
    assert("TASK_CHIP"@[5] != "TASK_KICK"@[5]);
    assert("TASK_CHIP"@.len() != "TASK_REC_KICK"@.len());
    assert("TASK_CHIP"@.len() != "TASK_STEAL"@.len());
    assert("TASK_CHIP"@.len() != "TASK_DRIBBLE"@.len());
    assert("TASK_CHIP"@.len() != "TASK_PosBall"@.len());
    assert("TASK_CHIP"@.len() != "TASK_BLOCK"@.len());
    assert("TASK_CHIP"@.len() != "STATE_KICKOFF"@.len());
    assert("TASK_CHIP"@.len() != "STATE_FREEKICK"@.len());
    assert("TASK_REC_KICK"@.len() != "TASK_UNSPECIFIED"@.len());
    assert("TASK_REC_KICK"@.len() != "TASK_POS"@.len());
    assert("TASK_REC_KICK"@.len() != "TASK_KICK"@.len());
    assert("TASK_REC_KICK"@.len() != "TASK_CHIP"@.len());
    assert("TASK_REC_KICK"@.len() != "TASK_STEAL"@.len());
    assert("TASK_REC_KICK"@.len() != "TASK_DRIBBLE"@.len());
    assert("TASK_REC_KICK"@.len() != "TASK_PosBall"@.len());
    assert("TASK_REC_KICK"@.len() != "TASK_BLOCK"@.len());
    assert("TASK_REC_KICK"@[0] != "STATE_KICKOFF"@[0]);
    assert("TASK_REC_KICK"@.len() != "STATE_FREEKICK"@.len());
    assert("TASK_STEAL"@.len() != "TASK_UNSPECIFIED"@.len());
    assert("TASK_STEAL"@.len() != "TASK_POS"@.len());
    assert("TASK_STEAL"@.len() != "TASK_KICK"@.len());
    assert("TASK_STEAL"@.len() != "TASK_CHIP"@.len());
    assert("TASK_STEAL"@.len() != "TASK_REC_KICK"@.len());
    assert("TASK_STEAL"@.len() != "TASK_DRIBBLE"@.len());
    assert("TASK_STEAL"@.len() != "TASK_PosBall"@.len());
    assert("TASK_STEAL"@[5] != "TASK_BLOCK"@[5]);
    assert("TASK_STEAL"@.len() != "STATE_KICKOFF"@.len());
    assert("TASK_STEAL"@.len() != "STATE_FREEKICK"@.len());
    assert("TASK_DRIBBLE"@.len() != "TASK_UNSPECIFIED"@.len());
    assert("TASK_DRIBBLE"@.len() != "TASK_POS"@.len());
    assert("TASK_DRIBBLE"@.len() != "TASK_KICK"@.len());
    assert("TASK_DRIBBLE"@.len() != "TASK_CHIP"@.len());
    assert("TASK_DRIBBLE"@.len() != "TASK_REC_KICK"@.len());
    assert("TASK_DRIBBLE"@.len() != "TASK_STEAL"@.len());
    assert("TASK_DRIBBLE"@[5] != "TASK_PosBall"@[5]);
    assert("TASK_DRIBBLE"@.len() != "TASK_BLOCK"@.len());
    assert("TASK_DRIBBLE"@.len() != "STATE_KICKOFF"@.len());
    assert("TASK_DRIBBLE"@.len() != "STATE_FREEKICK"@.len());
    assert("TASK_PosBall"@.len() != "TASK_UNSPECIFIED"@.len());
    assert("TASK_PosBall"@.len() != "TASK_POS"@.len());
    assert("TASK_PosBall"@.len() != "TASK_KICK"@.len());
    assert("TASK_PosBall"@.len() != "TASK_CHIP"@.len());
    assert("TASK_PosBall"@.len() != "TASK_REC_KICK"@.len());
    assert("TASK_PosBall"@.len() != "TASK_STEAL"@.len());
    assert("TASK_PosBall"@[5] != "TASK_DRIBBLE"@[5]);
    assert("TASK_PosBall"@.len() != "TASK_BLOCK"@.len());
    assert("TASK_PosBall"@.len() != "STATE_KICKOFF"@.len());
    assert("TASK_PosBall"@.len() != "STATE_FREEKICK"@.len());
    assert("TASK_BLOCK"@.len() != "TASK_UNSPECIFIED"@.len());
    assert("TASK_BLOCK"@.len() != "TASK_POS"@.len());
    assert("TASK_BLOCK"@.len() != "TASK_KICK"@.len());
    assert("TASK_BLOCK"@.len() != "TASK_CHIP"@.len());
    assert("TASK_BLOCK"@.len() != "TASK_REC_KICK"@.len());
    assert("TASK_BLOCK"@[5] != "TASK_STEAL"@[5]);
    assert("TASK_BLOCK"@.len() != "TASK_DRIBBLE"@.len());
    assert("TASK_BLOCK"@.len() != "TASK_PosBall"@.len());
    assert("TASK_BLOCK"@.len() != "STATE_KICKOFF"@.len());
    assert("TASK_BLOCK"@.len() != "STATE_FREEKICK"@.len());
    assert("STATE_KICKOFF"@.len() != "TASK_UNSPECIFIED"@.len());
    assert("STATE_KICKOFF"@.len() != "TASK_POS"@.len());
    assert("STATE_KICKOFF"@.len() != "TASK_KICK"@.len());
    assert("STATE_KICKOFF"@.len() != "TASK_CHIP"@.len());
    assert("STATE_KICKOFF"@[0] != "TASK_REC_KICK"@[0]);
    assert("STATE_KICKOFF"@.len() != "TASK_STEAL"@.len());
    assert("STATE_KICKOFF"@.len() != "TASK_DRIBBLE"@.len());
    assert("STATE_KICKOFF"@.len() != "TASK_PosBall"@.len());
    assert("STATE_KICKOFF"@.len() != "TASK_BLOCK"@.len());
    assert("STATE_KICKOFF"@.len() != "STATE_FREEKICK"@.len());
    assert("STATE_FREEKICK"@.len() != "TASK_UNSPECIFIED"@.len());
    assert("STATE_FREEKICK"@.len() != "TASK_POS"@.len());
    assert("STATE_FREEKICK"@.len() != "TASK_KICK"@.len());
    assert("STATE_FREEKICK"@.len() != "TASK_CHIP"@.len());
    assert("STATE_FREEKICK"@.len() != "TASK_REC_KICK"@.len());
    assert("STATE_FREEKICK"@.len() != "TASK_STEAL"@.len());
    assert("STATE_FREEKICK"@.len() != "TASK_DRIBBLE"@.len());
    assert("STATE_FREEKICK"@.len() != "TASK_PosBall"@.len());
    assert("STATE_FREEKICK"@.len() != "TASK_BLOCK"@.len());
    assert("STATE_FREEKICK"@.len() != "STATE_KICKOFF"@.len());
}

/// Every task is recovered from its own protobuf number.
pub proof fn lemma_task_number_round_trip(t: CpTask)
    ensures
        task_from_number(task_number(t)) == Some(t),
{
}

} // verus!
