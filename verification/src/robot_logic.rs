//! The integer decisions of the robot behaviour: heading checks, kick and
//! chip release, speed limits, and which behaviour each game state and task
//! selects.

use crate::communication::send_flags;
use crate::communication::TeensySendMsg;
use crate::proto::{
    state_from_number, task_from_number, CpCommand, CpInfos, CpRobot, CpState, CpTask,
    CpTrackedRobot, CpVector2,
};
use vstd::prelude::*;

verus! {

/// Largest heading error (degrees) at which a kick is released.
pub const KICK_HEADING_TOLERANCE_DEG: i32 = 3;

/// Largest heading error (degrees) at which a chip is released.
pub const CHIP_HEADING_TOLERANCE_DEG: i32 = 5;

/// Highest speed (mm/s) sent to the controller in the STOP game state.
pub const STOP_MAX_SPEED_MM_S: u16 = 1500;

/// Dribbler power used whenever the robot controls or acquires the ball.
pub const DRIBBLER_POWER: u8 = 200;

/// The absolute angle between two headings, in degrees (0 to 180).
pub open spec fn heading_error(current: int, target: int) -> int {
    let e = (target - current + 180) % 360 - 180;
    if e < 0 {
        -e
    } else {
        e
    }
}

/// `target - current` and `target - current + 180` both fit in an `i32`.
pub open spec fn heading_args_in_range(current: int, target: int) -> bool {
    i32::MIN <= target - current && target - current + 180 <= i32::MAX
}

/// The absolute angle between the `current` and `target` headings, in
/// degrees, taking the wrap-around at 360 into account.
pub fn heading_error_deg(current: i32, target: i32) -> (r: i32)
    requires
        heading_args_in_range(current as int, target as int),
    ensures
        r == heading_error(current as int, target as int),
        0 <= r <= 180,
{
    let e: i64 = target as i64 - current as i64 + 180;
    let m: i64 = match e.checked_rem_euclid(360) {
        Some(m) => m,
        None => 0,
    };
    let d: i64 = m - 180;
    if d < 0 {
        (-d) as i32
    } else {
        d as i32
    }
}

/// The heading error does not depend on the order of the two headings.
pub proof fn lemma_heading_error_symmetric(a: int, b: int)
    ensures
        heading_error(a, b) == heading_error(b, a),
{
    let d = b - a;
    let r1 = (d + 180) % 360;
    let r2 = (-d + 180) % 360;
    assert(r1 + r2 == 360 || (r1 == 0 && r2 == 0)) by {
        assert((d + 180) == 360 * ((d + 180) / 360) + r1);
        assert((-d + 180) == 360 * ((-d + 180) / 360) + r2);
    }
}

/// The heading error ignores whole turns.
pub proof fn lemma_heading_error_periodic(a: int, b: int, turns: int)
    ensures
        heading_error(a, b + 360 * turns) == heading_error(a, b),
        heading_error(a + 360 * turns, b) == heading_error(a, b),
{
    let d = b - a;
    assert((d + 360 * turns + 180) % 360 == (d + 180) % 360) by {
        vstd::arithmetic::div_mod::lemma_mod_multiples_vanish(turns, d + 180, 360);
    }
    assert((d - 360 * turns + 180) % 360 == (d + 180) % 360) by {
        vstd::arithmetic::div_mod::lemma_mod_multiples_vanish(-turns, d + 180, 360);
    }
}

/// A kick is released only with the ball in the capturing zone and the
/// robot facing the target within `KICK_HEADING_TOLERANCE_DEG`.
pub fn kick_release_ready(current: i32, target: i32, has_ball: bool) -> (r: bool)
    requires
        heading_args_in_range(current as int, target as int),
    ensures
        r == (has_ball && heading_error(current as int, target as int) <= KICK_HEADING_TOLERANCE_DEG),
{
    has_ball && heading_error_deg(current, target) <= KICK_HEADING_TOLERANCE_DEG
}

/// The speed used to push into the ball: the commanded speed (500 without
/// one) kept between 500 and 900 mm/s.
pub fn acquisition_speed(command_speed: Option<u32>) -> (r: u16)
    ensures
        r == match command_speed {
            Some(s) => if s < 500 {
                500
            } else if s > 900 {
                900
            } else {
                s
            },
            None => 500,
        },
{
    let s: u32 = match command_speed {
        Some(s) => s,
        None => 500,
    };
    if s < 500 {
        500
    } else if s > 900 {
        900
    } else {
        s as u16
    }
}

/// Only the goalie may enter its own penalty area.
pub fn allow_own_penalty_area(cp_data: &CpRobot) -> (r: bool)
    ensures
        r == (state_from_number(cp_data.cmd.state) == Some(CpState::StateGoalie)),
{
    match CpState::from_i32(cp_data.cmd.state) {
        Some(CpState::StateGoalie) => true,
        _ => false,
    }
}

/// An orientation in degrees reduced to `0..360`.
pub fn normalize_orientation(orientation: i32) -> (r: i32)
    ensures
        r == orientation % 360,
        0 <= r < 360,
{
    match orientation.checked_rem_euclid(360) {
        Some(m) => m,
        None => 0,
    }
}

/// Whether `pos` lies on the field including its run-off area.
pub open spec fn spec_inside_field(infos: CpInfos, pos: CpVector2) -> bool {
    let x_half2 = infos.width + 2 * infos.runoff_width;
    let y_half2 = infos.height + 2 * infos.runoff_width;
    -x_half2 <= 2 * pos.x <= x_half2 && -y_half2 <= 2 * pos.y <= y_half2
}

/// Whether `pos` lies on the field including its run-off area: within half
/// the field length plus the run-off in x, and half the width plus the
/// run-off in y.
pub fn inside_field(infos: &CpInfos, pos: CpVector2) -> (r: bool)
    ensures
        r == spec_inside_field(*infos, pos),
{
    let x_half2: i64 = infos.width as i64 + 2 * infos.runoff_width as i64;
    let y_half2: i64 = infos.height as i64 + 2 * infos.runoff_width as i64;
    let x2: i64 = 2 * pos.x as i64;
    let y2: i64 = 2 * pos.y as i64;
    -x_half2 <= x2 && x2 <= x_half2 && -y_half2 <= y2 && y2 <= y_half2
}

/// Whether `pos` lies outside the field and its run-off area.
pub fn outside_field(infos: &CpInfos, pos: CpVector2) -> (r: bool)
    ensures
        r == !spec_inside_field(*infos, pos),
{
    !inside_field(infos, pos)
}

/// Speed limit for driving to a commanded position: 1500 mm/s in STOP when
/// a faster speed is commanded, otherwise the commanded speed (0 without
/// one).
pub fn position_max_speed(speed: Option<u32>, stop: bool) -> (r: u32)
    ensures
        r == match speed {
            Some(s) => if s > 1500 && stop {
                1500
            } else {
                s
            },
            None => 0,
        },
{
    match speed {
        Some(s) => if s > 1500 && stop {
            1500
        } else {
            s
        },
        None => 0,
    }
}

/// The squared distance between two points.
pub open spec fn dist_sq(a: CpVector2, b: CpVector2) -> int {
    (a.x - b.x) * (a.x - b.x) + (a.y - b.y) * (a.y - b.y)
}

/// Radius (mm) within which the robot counts as arrived at its target.
pub const ARRIVED_RADIUS_MM: i64 = 60;

/// Whether `a` lies within `ARRIVED_RADIUS_MM` of `b`.
pub fn arrived(a: CpVector2, b: CpVector2) -> (r: bool)
    ensures
        r == (dist_sq(a, b) < ARRIVED_RADIUS_MM * ARRIVED_RADIUS_MM),
{
    let dx: i64 = a.x as i64 - b.x as i64;
    let dy: i64 = a.y as i64 - b.y as i64;
    assert(0 <= dx * dx <= 0xFFFF_FFFF_FFFF_FFFF) by (nonlinear_arith)
        requires
            -0x1_0000_0000 < dx < 0x1_0000_0000,
    ;
    assert(0 <= dy * dy <= 0xFFFF_FFFF_FFFF_FFFF) by (nonlinear_arith)
        requires
            -0x1_0000_0000 < dy < 0x1_0000_0000,
    ;
    let d2: i128 = (dx as i128) * (dx as i128) + (dy as i128) * (dy as i128);
    d2 < (ARRIVED_RADIUS_MM * ARRIVED_RADIUS_MM) as i128
}

/// Runs the dribbler at `DRIBBLER_POWER`.
pub fn enable_dribbler(msg: &mut TeensySendMsg)
    ensures
        *final(msg) == (TeensySendMsg {
            flags: old(msg).flags | send_flags::DRIBBLER,
            dribbler_pwr: DRIBBLER_POWER,
            ..*old(msg)
        }),
{
    msg.set_flag(send_flags::DRIBBLER);
    msg.dribbler_pwr = DRIBBLER_POWER;
}

/// What the robot does in a game state.
#[derive(Debug, Clone, Copy, PartialEq, Eq, Structural)]
pub enum StateAction {
    /// Unknown state: report an error to the controller.
    Error,
    /// The robot must not move.
    Halt,
    /// Follow the commanded task (`stop` in the STOP state).
    Command { stop: bool },
    /// Act as goalie.
    Goalie,
}

/// The action for a game state number, and whether the robot is the goalie
/// afterwards.
pub open spec fn spec_plan_state(state: i32, was_goalie: bool) -> (StateAction, bool) {
    match state_from_number(state) {
        Some(CpState::StateHalt) => (StateAction::Halt, was_goalie),
        Some(CpState::StateStop) => (
            if was_goalie {
                StateAction::Command { stop: true }
            } else {
                StateAction::Goalie
            },
            was_goalie,
        ),
        Some(CpState::StateFree) => (StateAction::Command { stop: false }, false),
        Some(CpState::StateGoalie) => (StateAction::Goalie, true),
        Some(CpState::StateSubstitute) => (StateAction::Halt, was_goalie),
        _ => (StateAction::Error, was_goalie),
    }
}

/// Chooses the behaviour for the commanded game state. FREE clears and
/// GOALIE sets the goalie memory; in STOP a robot that was the goalie
/// follows its task with the STOP speed limit, any other one acts as goalie.
pub fn plan_state(state: i32, was_goalie: bool) -> (r: (StateAction, bool))
    ensures
        r == spec_plan_state(state, was_goalie),
{
    match CpState::from_i32(state) {
        Some(CpState::StateHalt) => (StateAction::Halt, was_goalie),
        Some(CpState::StateStop) => (
            if was_goalie {
                StateAction::Command { stop: true }
            } else {
                StateAction::Goalie
            },
            was_goalie,
        ),
        Some(CpState::StateFree) => (StateAction::Command { stop: false }, false),
        Some(CpState::StateGoalie) => (StateAction::Goalie, true),
        Some(CpState::StateSubstitute) => (StateAction::Halt, was_goalie),
        _ => (StateAction::Error, was_goalie),
    }
}

/// The geometric work that a task leaves to the caller.
#[derive(Debug, Clone, Copy, PartialEq, Eq, Structural)]
pub enum CommandAction {
    /// Nothing more to do.
    Done,
    /// Drive to `target` at most at `max_speed_mm_s`, or receive a pass on
    /// the way; `raw` asks for a straight move without obstacle avoidance,
    /// and `arrived` tells whether the robot is already there.
    Position { max_speed_mm_s: u32, target: CpVector2, raw: bool, arrived: bool },
    /// Receive a pass without holding the ball.
    Receive,
    /// Acquire the ball.
    GetBall,
    /// Carry the held ball to `target`.
    CarryBall { target: CpVector2, max_speed_mm_s: u32 },
    /// Block the opponent robot `enemy_id`.
    BlockRobot { enemy_id: u32 },
    /// Defend the own goal.
    BlockGoal,
}

/// The origin, the default of an absent position.
pub open spec fn origin() -> CpVector2 {
    CpVector2 { x: 0, y: 0 }
}

/// `msg` with the dribbler running.
pub open spec fn with_dribbler(msg: TeensySendMsg) -> TeensySendMsg {
    TeensySendMsg { flags: msg.flags | send_flags::DRIBBLER, dribbler_pwr: DRIBBLER_POWER, ..msg }
}

/// `msg` driving as commanded: in the kick direction at the commanded
/// speed (0 for an absent value).
pub open spec fn with_commanded_motion(msg: TeensySendMsg, cmd: CpCommand) -> TeensySendMsg {
    TeensySendMsg {
        dir: cmd.kick_orient.unwrap_or(0u32) as u16,
        speed: cmd.speed.unwrap_or(0u32) as u16,
        ..msg
    }
}

/// Sets the controller message to drive as commanded: in the kick direction
/// at the commanded speed.
fn drive_as_commanded(msg: &mut TeensySendMsg, cmd: &CpCommand)
    ensures
        *final(msg) == with_commanded_motion(*old(msg), *cmd),
{
    msg.dir = match cmd.kick_orient {
        Some(o) => o as u16,
        None => 0,
    };
    msg.speed = match cmd.speed {
        Some(v) => v as u16,
        None => 0,
    };
}

/// The chip heading check cannot overflow.
pub open spec fn chip_heading_in_range(cmd: CpCommand, robot: CpTrackedRobot) -> bool {
    heading_args_in_range(robot.orientation as int, (cmd.kick_orient.unwrap_or(0u32) as i32) as int)
}

/// The kick heading check cannot overflow.
pub open spec fn kick_heading_in_range(cmd: CpCommand, robot: CpTrackedRobot) -> bool {
    heading_args_in_range(robot.orientation as int, (cmd.kick_orient.unwrap_or(0u32) as u16) as int)
}

/// The message and the remaining work after the integer part of a task.
pub open spec fn spec_plan_command(
    msg: TeensySendMsg,
    cmd: CpCommand,
    robot: CpTrackedRobot,
    has_ball: bool,
    stop: bool,
) -> (TeensySendMsg, CommandAction) {
    match task_from_number(cmd.task) {
        Some(CpTask::TaskPos) => {
            let max = match cmd.speed {
                Some(s) => if s > 1500 && stop {
                    1500u32
                } else {
                    s
                },
                None => 0u32,
            };
            let target = cmd.pos.unwrap_or(origin());
            (
                TeensySendMsg { orient: cmd.orientation.unwrap_or(0u32) as u16, ..msg },
                CommandAction::Position {
                    max_speed_mm_s: max,
                    target,
                    raw: cmd.raw.unwrap_or(false),
                    arrived: dist_sq(robot.pos, target) < ARRIVED_RADIUS_MM * ARRIVED_RADIUS_MM,
                },
            )
        },
        Some(CpTask::TaskKick) => {
            let orient = cmd.kick_orient.unwrap_or(0u32) as u16;
            let m = TeensySendMsg { orient, ..with_dribbler(msg) };
            if has_ball && heading_error(robot.orientation as int, orient as int)
                <= KICK_HEADING_TOLERANCE_DEG {
                (
                    with_commanded_motion(
                        TeensySendMsg {
                            kick_pwr: cmd.kick_speed.unwrap_or(0u32) as u8,
                            flags: m.flags | send_flags::KICK,
                            ..m
                        },
                        cmd,
                    ),
                    CommandAction::Done,
                )
            } else {
                (with_commanded_motion(m, cmd), CommandAction::Done)
            }
        },
        Some(CpTask::TaskChip) => {
            let target = cmd.kick_orient.unwrap_or(0u32);
            if heading_error(robot.orientation as int, target as i32 as int)
                > CHIP_HEADING_TOLERANCE_DEG {
                (
                    with_commanded_motion(TeensySendMsg { orient: target as u16, ..msg }, cmd),
                    CommandAction::Done,
                )
            } else {
                (
                    with_commanded_motion(
                        TeensySendMsg {
                            kick_pwr: cmd.kick_speed.unwrap_or(0u32) as u8,
                            flags: msg.flags | send_flags::CHIP,
                            ..msg
                        },
                        cmd,
                    ),
                    CommandAction::Done,
                )
            }
        },
        Some(CpTask::TaskRecKick) => {
            if has_ball {
                (TeensySendMsg { speed: 0, ..with_dribbler(msg) }, CommandAction::Done)
            } else {
                (with_dribbler(msg), CommandAction::Receive)
            }
        },
        Some(CpTask::TaskSteal) => (msg, CommandAction::GetBall),
        Some(CpTask::TaskDribble) => {
            if has_ball {
                (
                    TeensySendMsg {
                        orient: cmd.orientation.unwrap_or(0u32) as u16,
                        ..with_dribbler(msg)
                    },
                    CommandAction::CarryBall {
                        target: cmd.pos.unwrap_or(origin()),
                        max_speed_mm_s: cmd.speed.unwrap_or(0u32),
                    },
                )
            } else {
                (msg, CommandAction::GetBall)
            }
        },
        Some(CpTask::TaskPosBall) => {
            if has_ball {
                (
                    with_dribbler(msg),
                    CommandAction::CarryBall {
                        target: cmd.pos.unwrap_or(origin()),
                        max_speed_mm_s: cmd.speed.unwrap_or(0u32),
                    },
                )
            } else if robot.pos == cmd.pos.unwrap_or(origin()) {
                (with_commanded_motion(msg, cmd), CommandAction::Done)
            } else {
                (msg, CommandAction::GetBall)
            }
        },
        Some(CpTask::TaskBlock) => match cmd.enemy_id {
            Some(e) => (msg, CommandAction::BlockRobot { enemy_id: e }),
            None => (msg, CommandAction::BlockGoal),
        },
        Some(CpTask::StateKickoff) => (with_commanded_motion(msg, cmd), CommandAction::Done),
        Some(CpTask::StateFreekick) => (with_commanded_motion(msg, cmd), CommandAction::Done),
        _ => (
            with_commanded_motion(TeensySendMsg { flags: msg.flags | send_flags::ERROR, ..msg }, cmd),
            CommandAction::Done,
        ),
    }
}

/// Carries out the integer part of the commanded task on the controller
/// message and returns the geometric work that remains.
///
/// Kick: run the dribbler, face the kick direction, and kick once the ball
/// is held and the heading is within `KICK_HEADING_TOLERANCE_DEG`. Chip:
/// turn until within `CHIP_HEADING_TOLERANCE_DEG`, then chip. Receiving,
/// dribbling and carrying run the dribbler. An unknown task sets the error
/// flag. A task that leaves no geometric work (`Done`) drives as commanded,
/// in the kick direction at the commanded speed, except a receive with the
/// ball held, which stops.
pub fn plan_command(
    msg: &mut TeensySendMsg,
    cmd: &CpCommand,
    robot: &CpTrackedRobot,
    has_ball: bool,
    stop: bool,
) -> (r: CommandAction)
    requires
        task_from_number(cmd.task) == Some(CpTask::TaskKick) ==> kick_heading_in_range(*cmd, *robot),
        task_from_number(cmd.task) == Some(CpTask::TaskChip) ==> chip_heading_in_range(*cmd, *robot),
    ensures
        (*final(msg), r) == spec_plan_command(*old(msg), *cmd, *robot, has_ball, stop),
{
    match CpTask::from_i32(cmd.task) {
        Some(CpTask::TaskPos) => {
            let max = position_max_speed(cmd.speed, stop);
            let target = match cmd.pos {
                Some(p) => p,
                None => CpVector2 { x: 0, y: 0 },
            };
            msg.orient = match cmd.orientation {
                Some(o) => o as u16,
                None => 0,
            };
            let raw = match cmd.raw {
                Some(r) => r,
                None => false,
            };
            CommandAction::Position { max_speed_mm_s: max, target, raw, arrived: arrived(robot.pos, target) }
        },
        Some(CpTask::TaskKick) => {
            let kick_orient: u16 = match cmd.kick_orient {
                Some(o) => o as u16,
                None => 0,
            };
            let kick_power: u32 = match cmd.kick_speed {
                Some(k) => k,
                None => 0,
            };
            enable_dribbler(msg);
            msg.orient = kick_orient;
            if kick_release_ready(robot.orientation, kick_orient as i32, has_ball) {
                msg.kick_pwr = kick_power as u8;
                msg.set_flag(send_flags::KICK);
            }
            drive_as_commanded(msg, cmd);
            CommandAction::Done
        },
        Some(CpTask::TaskChip) => {
            let target: u32 = match cmd.kick_orient {
                Some(o) => o,
                None => 0,
            };
            if heading_error_deg(robot.orientation, target as i32) > CHIP_HEADING_TOLERANCE_DEG {
                msg.orient = target as u16;
            } else {
                msg.kick_pwr = match cmd.kick_speed {
                    Some(k) => k as u8,
                    None => 0,
                };
                msg.set_flag(send_flags::CHIP);
            }
            drive_as_commanded(msg, cmd);
            CommandAction::Done
        },
        Some(CpTask::TaskRecKick) => {
            enable_dribbler(msg);
            if has_ball {
                msg.speed = 0;
                CommandAction::Done
            } else {
                CommandAction::Receive
            }
        },
        Some(CpTask::TaskSteal) => CommandAction::GetBall,
        Some(CpTask::TaskDribble) => {
            if has_ball {
                enable_dribbler(msg);
                msg.orient = match cmd.orientation {
                    Some(o) => o as u16,
                    None => 0,
                };
                CommandAction::CarryBall {
                    target: match cmd.pos {
                        Some(p) => p,
                        None => CpVector2 { x: 0, y: 0 },
                    },
                    max_speed_mm_s: match cmd.speed {
                        Some(s) => s,
                        None => 0,
                    },
                }
            } else {
                CommandAction::GetBall
            }
        },
        Some(CpTask::TaskPosBall) => {
            let target = match cmd.pos {
                Some(p) => p,
                None => CpVector2 { x: 0, y: 0 },
            };
            if has_ball {
                enable_dribbler(msg);
                CommandAction::CarryBall {
                    target,
                    max_speed_mm_s: match cmd.speed {
                        Some(s) => s,
                        None => 0,
                    },
                }
            } else if robot.pos.x == target.x && robot.pos.y == target.y {
                drive_as_commanded(msg, cmd);
                CommandAction::Done
            } else {
                CommandAction::GetBall
            }
        },
        Some(CpTask::TaskBlock) => match cmd.enemy_id {
            Some(e) => CommandAction::BlockRobot { enemy_id: e },
            None => CommandAction::BlockGoal,
        },
        Some(CpTask::StateKickoff) => {
            drive_as_commanded(msg, cmd);
            CommandAction::Done
        },
        Some(CpTask::StateFreekick) => {
            drive_as_commanded(msg, cmd);
            CommandAction::Done
        },
        _ => {
            msg.set_flag(send_flags::ERROR);
            drive_as_commanded(msg, cmd);
            CommandAction::Done
        },
    }
}

/// While acquiring the ball, once it is held: stop and face the commanded
/// orientation (the own orientation without one).
pub fn hold_acquired_ball(msg: &mut TeensySendMsg, cmd_orientation: Option<u32>, own_orientation: i32)
    ensures
        *final(msg) == (TeensySendMsg {
            speed: 0,
            orient: cmd_orientation.unwrap_or(own_orientation as u32) as u16,
            ..*old(msg)
        }),
{
    msg.speed = 0;
    msg.orient = match cmd_orientation {
        Some(o) => o as u16,
        None => (own_orientation as u32) as u16,
    };
}

/// Caps the speed of a pass-receiving move at the position speed limit (at
/// least 350 mm/s, truncated to 16 bits).
pub fn cap_receive_speed(msg: &mut TeensySendMsg, max_speed_mm_s: u32)
    ensures
        *final(msg) == (TeensySendMsg {
            speed: if (old(msg).speed as int) < (if max_speed_mm_s < 350 { 350u32 } else { max_speed_mm_s }) as u16 {
                old(msg).speed
            } else {
                (if max_speed_mm_s < 350 { 350u32 } else { max_speed_mm_s }) as u16
            },
            ..*old(msg)
        }),
{
    let cap: u16 = (if max_speed_mm_s < 350 { 350u32 } else { max_speed_mm_s }) as u16;
    if msg.speed >= cap {
        msg.speed = cap;
    }
}

/// The ball-avoidance radius for the ORCA step, when it does not depend on
/// the robot's heading: 550 mm in STOP, 0 in other states and tasks. While
/// stealing in FREE the radius depends on the angle between the robot and
/// the ball, and `None` is returned.
pub fn ball_avoidance_plan(cp_data: &CpRobot) -> (r: Option<u32>)
    ensures
        r == match state_from_number(cp_data.cmd.state) {
            Some(CpState::StateStop) => Some(550u32),
            Some(CpState::StateFree) => if task_from_number(cp_data.cmd.task) == Some(CpTask::TaskSteal) {
                None
            } else {
                Some(0u32)
            },
            _ => Some(0u32),
        },
{
    match CpState::from_i32(cp_data.cmd.state) {
        Some(CpState::StateStop) => Some(550),
        Some(CpState::StateFree) => match CpTask::from_i32(cp_data.cmd.task) {
            Some(CpTask::TaskSteal) => None,
            _ => Some(0),
        },
        _ => Some(0),
    }
}

/// Setting the error, chip or dribbler flag leaves the kick bit alone.
proof fn lemma_other_flags_keep_kick(f: u16)
    ensures
        (f | send_flags::ERROR) & send_flags::KICK == f & send_flags::KICK,
        (f | send_flags::CHIP) & send_flags::KICK == f & send_flags::KICK,
        (f | send_flags::DRIBBLER) & send_flags::KICK == f & send_flags::KICK,
{
    assert((f | 0x0001u16) & 0x0002u16 == f & 0x0002u16) by (bit_vector);
    assert((f | 0x0004u16) & 0x0002u16 == f & 0x0002u16) by (bit_vector);
    assert((f | 0x0008u16) & 0x0002u16 == f & 0x0002u16) by (bit_vector);
}

/// The kicker fires only in the kick task, with the ball in the capturing
/// zone and the robot facing the kick direction within
/// `KICK_HEADING_TOLERANCE_DEG`: otherwise planning a task never changes the
/// kick bit.
pub proof fn lemma_kick_needs_ball_and_aim(
    msg: TeensySendMsg,
    cmd: CpCommand,
    robot: CpTrackedRobot,
    has_ball: bool,
    stop: bool,
)
    ensures
        (spec_plan_command(msg, cmd, robot, has_ball, stop).0.flags & send_flags::KICK) != (msg.flags
            & send_flags::KICK) ==> {
            &&& has_ball
            &&& task_from_number(cmd.task) == Some(CpTask::TaskKick)
            &&& heading_error(robot.orientation as int, (cmd.kick_orient.unwrap_or(0u32) as u16) as int)
                <= KICK_HEADING_TOLERANCE_DEG
        },
{
    lemma_other_flags_keep_kick(msg.flags);
}

/// The chipper fires only in the chip task with the robot facing the chip
/// direction within `CHIP_HEADING_TOLERANCE_DEG`.
pub proof fn lemma_chip_needs_aim(
    msg: TeensySendMsg,
    cmd: CpCommand,
    robot: CpTrackedRobot,
    has_ball: bool,
    stop: bool,
)
    ensures
        (spec_plan_command(msg, cmd, robot, has_ball, stop).0.flags & send_flags::CHIP) != (msg.flags
            & send_flags::CHIP) ==> {
            &&& task_from_number(cmd.task) == Some(CpTask::TaskChip)
            &&& heading_error(robot.orientation as int, (cmd.kick_orient.unwrap_or(0u32) as i32) as int)
                <= CHIP_HEADING_TOLERANCE_DEG
        },
{
    let f = msg.flags;
    assert((f | 0x0001u16) & 0x0004u16 == f & 0x0004u16) by (bit_vector);
    assert((f | 0x0002u16) & 0x0004u16 == f & 0x0004u16) by (bit_vector);
    assert((f | 0x0008u16) & 0x0004u16 == f & 0x0004u16) by (bit_vector);
    assert(((f | 0x0008u16) | 0x0002u16) & 0x0004u16 == f & 0x0004u16) by (bit_vector);
}


/// What each game state number selects, and what the goalie memory becomes.
/// The task is followed only in FREE (3) and, by a former goalie, in STOP
/// (2), and the STOP speed limit applies exactly in STOP; HALT (1) and
/// SUBSTITUTE (5) halt; GOALIE (4), and STOP for any robot that was not the
/// goalie, act as goalie; every other number is an error. FREE clears the
/// goalie memory, GOALIE sets it, every other state keeps it.
pub proof fn lemma_plan_state_by_number(state: i32, was_goalie: bool)
    ensures
        spec_plan_state(state, was_goalie).0 matches StateAction::Command { stop } ==> {
            &&& stop == (state == 2)
            &&& (state == 3 || (state == 2 && was_goalie))
        },
        (state == 3 || (state == 2 && was_goalie)) ==> spec_plan_state(state, was_goalie).0 is Command,
        (spec_plan_state(state, was_goalie).0 is Halt) == (state == 1 || state == 5),
        (spec_plan_state(state, was_goalie).0 is Goalie) == (state == 4 || (state == 2 && !was_goalie)),
        (spec_plan_state(state, was_goalie).0 is Error) == !(1 <= state <= 5),
        spec_plan_state(state, was_goalie).1 == (if state == 3 {
            false
        } else if state == 4 {
            true
        } else {
            was_goalie
        }),
{
}

/// Whenever the ball is carried or a pass is received, the dribbler runs at
/// `DRIBBLER_POWER`; so it does while kicking.
pub proof fn lemma_dribbler_runs_while_handling_the_ball(
    msg: TeensySendMsg,
    cmd: CpCommand,
    robot: CpTrackedRobot,
    has_ball: bool,
    stop: bool,
)
    ensures
        ({
            let (m, a) = spec_plan_command(msg, cmd, robot, has_ball, stop);
            (a is CarryBall || a is Receive || task_from_number(cmd.task) == Some(CpTask::TaskKick))
                ==> (m.flags & send_flags::DRIBBLER) == send_flags::DRIBBLER && m.dribbler_pwr
                == DRIBBLER_POWER
        }),
{
    let f = msg.flags;
    assert((f | 0x0008u16) & 0x0008u16 == 0x0008u16) by (bit_vector);
    assert(((f | 0x0008u16) | 0x0002u16) & 0x0008u16 == 0x0008u16) by (bit_vector);
}

/// The field is symmetric about both axes, contains its centre, and a point
/// closer to the centre on both axes than a point on the field is on the
/// field too.
pub proof fn lemma_field_symmetric_and_convex(infos: CpInfos, p: CpVector2, q: CpVector2)
    ensures
        spec_inside_field(infos, CpVector2 { x: 0, y: 0 }),
        p.x != i32::MIN ==> (spec_inside_field(infos, CpVector2 { x: (-p.x) as i32, y: p.y })
            == spec_inside_field(infos, p)),
        p.y != i32::MIN ==> (spec_inside_field(infos, CpVector2 { x: p.x, y: (-p.y) as i32 })
            == spec_inside_field(infos, p)),
        spec_inside_field(infos, p) && -(p.x as int) <= q.x <= p.x && -(p.y as int) <= q.y <= p.y
            ==> spec_inside_field(infos, q),
        2 * p.x > infos.width + 2 * infos.runoff_width ==> !spec_inside_field(infos, p),
        2 * p.y > infos.height + 2 * infos.runoff_width ==> !spec_inside_field(infos, p),
{
}

} // verus!
