use tf_jetsoncode::communication::send_flags;
use tf_jetsoncode::communication::TeensySendMsg;
use tf_jetsoncode::proto::{CpCommand, CpInfos, CpRobot, CpTrackedRobot, CpVector2};
use tf_jetsoncode::robot_logic::{
    acquisition_speed, allow_own_penalty_area, arrived, ball_avoidance_plan, cap_receive_speed,
    heading_error_deg, hold_acquired_ball, inside_field, kick_release_ready, normalize_orientation, outside_field,
    plan_command, plan_state, position_max_speed, CommandAction, StateAction,
    KICK_HEADING_TOLERANCE_DEG,
};

#[test]
fn heading_error_wraps_around_zero() {
    assert_eq!(heading_error_deg(359, 1), 2);
    assert_eq!(heading_error_deg(1, 359), 2);
    assert_eq!(heading_error_deg(10, 350), 20);
}

#[test]
fn kick_heading_tolerance_is_tight_enough_for_goal_shots() {
    assert!(KICK_HEADING_TOLERANCE_DEG <= 3);
}

#[test]
fn kick_release_requires_ir_ball_possession() {
    assert!(kick_release_ready(10, 12, true));
    assert!(!kick_release_ready(10, 12, false));
    assert!(!kick_release_ready(10, 20, true));
}

#[test]
fn heading_error_is_symmetric_and_bounded() {
    assert_eq!(heading_error_deg(0, 180), 180);
    assert_eq!(heading_error_deg(180, 0), 180);
    assert_eq!(heading_error_deg(30, 30 + 720), 0);
    assert_eq!(heading_error_deg(-90, 90), 180);
    assert_eq!(heading_error_deg(45, 100), heading_error_deg(100, 45));
}

#[test]
fn acquisition_speed_is_clamped() {
    assert_eq!(acquisition_speed(None), 500);
    assert_eq!(acquisition_speed(Some(100)), 500);
    assert_eq!(acquisition_speed(Some(700)), 700);
    assert_eq!(acquisition_speed(Some(5000)), 900);
}

#[test]
fn orientation_is_normalized() {
    assert_eq!(normalize_orientation(-90), 270);
    assert_eq!(normalize_orientation(725), 5);
    assert_eq!(normalize_orientation(0), 0);
    assert_eq!(normalize_orientation(-360), 0);
}

fn infos() -> CpInfos {
    CpInfos {
        team_color: true,
        team_site: true,
        width: 9000,
        height: 6000,
        runoff_width: 300,
        penalty_area_width: 2000,
        penalty_area_height: 1000,
        goal_width: 1000,
    }
}

#[test]
fn field_bounds_include_runoff() {
    let i = infos();
    assert!(inside_field(&i, CpVector2 { x: 4800, y: 0 }));
    assert!(!inside_field(&i, CpVector2 { x: 4801, y: 0 }));
    assert!(inside_field(&i, CpVector2 { x: -4800, y: -3300 }));
    assert!(outside_field(&i, CpVector2 { x: 0, y: -3301 }));
    assert!(!outside_field(&i, CpVector2 { x: 100, y: 100 }));
}

#[test]
fn position_speed_limit_in_stop() {
    assert_eq!(position_max_speed(Some(3000), true), 1500);
    assert_eq!(position_max_speed(Some(3000), false), 3000);
    assert_eq!(position_max_speed(Some(1000), true), 1000);
    assert_eq!(position_max_speed(None, true), 0);
}

#[test]
fn arrival_radius_is_sixty_mm() {
    assert!(arrived(CpVector2 { x: 0, y: 0 }, CpVector2 { x: 59, y: 0 }));
    assert!(!arrived(CpVector2 { x: 0, y: 0 }, CpVector2 { x: 60, y: 0 }));
    assert!(!arrived(CpVector2 { x: i32::MIN, y: 0 }, CpVector2 { x: i32::MAX, y: 0 }));
}

#[test]
fn game_states_select_behaviours() {
    assert_eq!(plan_state(0, false), (StateAction::Error, false));
    assert_eq!(plan_state(1, true), (StateAction::Halt, true));
    assert_eq!(plan_state(2, false), (StateAction::Goalie, false));
    assert_eq!(plan_state(2, true), (StateAction::Command { stop: true }, true));
    assert_eq!(plan_state(3, true), (StateAction::Command { stop: false }, false));
    assert_eq!(plan_state(4, false), (StateAction::Goalie, true));
    assert_eq!(plan_state(5, false), (StateAction::Halt, false));
    assert_eq!(plan_state(42, true), (StateAction::Error, true));
}

fn command(task: i32) -> CpCommand {
    CpCommand {
        state: 3,
        task,
        pos: Some(CpVector2 { x: 1000, y: -500 }),
        speed: Some(2000),
        orientation: Some(90),
        kick_orient: Some(12),
        kick_speed: Some(150),
        enemy_id: None,
        raw: None,
    }
}

fn robot(orientation: i32) -> CpTrackedRobot {
    CpTrackedRobot {
        robot_id: 2,
        pos: CpVector2 { x: 0, y: 0 },
        orientation,
        vel: None,
        visibility: 255,
    }
}

#[test]
fn kick_task_kicks_only_when_aimed_with_ball() {
    let mut msg = TeensySendMsg::default();
    let action = plan_command(&mut msg, &command(2), &robot(10), true, false);
    assert_eq!(action, CommandAction::Done);
    assert_eq!(msg.flags, send_flags::DRIBBLER | send_flags::KICK);
    assert_eq!(msg.kick_pwr, 150);
    assert_eq!(msg.orient, 12);
    assert_eq!(msg.dribbler_pwr, 200);
    // No geometric work left: drive as commanded.
    assert_eq!(msg.dir, 12);
    assert_eq!(msg.speed, 2000);

    let mut msg = TeensySendMsg::default();
    plan_command(&mut msg, &command(2), &robot(10), false, false);
    assert_eq!(msg.flags, send_flags::DRIBBLER);
    assert_eq!(msg.kick_pwr, 0);
}

#[test]
fn chip_task_turns_then_chips() {
    let mut msg = TeensySendMsg::default();
    plan_command(&mut msg, &command(3), &robot(100), true, false);
    assert_eq!(msg.orient, 12);
    assert_eq!(msg.flags, 0);

    let mut msg = TeensySendMsg::default();
    plan_command(&mut msg, &command(3), &robot(16), true, false);
    assert_eq!(msg.flags, send_flags::CHIP);
    assert_eq!(msg.kick_pwr, 150);
    assert_eq!((msg.dir, msg.speed), (12, 2000));
}

#[test]
fn receiving_with_the_ball_stops() {
    let mut msg = TeensySendMsg::default();
    msg.speed = 900;
    assert_eq!(plan_command(&mut msg, &command(4), &robot(0), true, false), CommandAction::Done);
    assert_eq!(msg.speed, 0);
    let mut msg = TeensySendMsg::default();
    let mut unknown = command(42);
    unknown.speed = None;
    unknown.kick_orient = None;
    msg.speed = 900;
    msg.dir = 30;
    plan_command(&mut msg, &unknown, &robot(0), false, false);
    assert_eq!(msg.flags, send_flags::ERROR);
    assert_eq!((msg.dir, msg.speed), (0, 0));
}

#[test]
fn other_tasks_leave_geometry_to_the_caller() {
    let mut msg = TeensySendMsg::default();
    assert_eq!(
        plan_command(&mut msg, &command(1), &robot(0), false, true),
        CommandAction::Position {
            max_speed_mm_s: 1500,
            target: CpVector2 { x: 1000, y: -500 },
            raw: false,
            arrived: false
        }
    );
    assert_eq!(msg.orient, 90);

    let mut raw_move = command(1);
    raw_move.raw = Some(true);
    raw_move.speed = Some(1200);
    let mut msg = TeensySendMsg::default();
    assert_eq!(
        plan_command(&mut msg, &raw_move, &robot(0), false, false),
        CommandAction::Position {
            max_speed_mm_s: 1200,
            target: CpVector2 { x: 1000, y: -500 },
            raw: true,
            arrived: false
        }
    );

    let mut msg = TeensySendMsg::default();
    assert_eq!(plan_command(&mut msg, &command(4), &robot(0), true, false), CommandAction::Done);
    assert_eq!(msg.speed, 0);
    assert_eq!(msg.flags, send_flags::DRIBBLER);

    let mut msg = TeensySendMsg::default();
    assert_eq!(plan_command(&mut msg, &command(4), &robot(0), false, false), CommandAction::Receive);

    let mut msg = TeensySendMsg::default();
    assert_eq!(plan_command(&mut msg, &command(5), &robot(0), true, false), CommandAction::GetBall);
    assert_eq!(msg, TeensySendMsg::default());

    let mut msg = TeensySendMsg::default();
    assert_eq!(
        plan_command(&mut msg, &command(6), &robot(0), true, false),
        CommandAction::CarryBall { target: CpVector2 { x: 1000, y: -500 }, max_speed_mm_s: 2000 }
    );
    assert_eq!(msg.orient, 90);

    let mut msg = TeensySendMsg::default();
    assert_eq!(plan_command(&mut msg, &command(7), &robot(0), false, false), CommandAction::GetBall);

    let mut block = command(8);
    let mut msg = TeensySendMsg::default();
    assert_eq!(plan_command(&mut msg, &block, &robot(0), false, false), CommandAction::BlockGoal);
    block.enemy_id = Some(3);
    assert_eq!(
        plan_command(&mut msg, &block, &robot(0), false, false),
        CommandAction::BlockRobot { enemy_id: 3 }
    );

    let mut msg = TeensySendMsg::default();
    assert_eq!(plan_command(&mut msg, &command(0), &robot(0), false, false), CommandAction::Done);
    assert_eq!(msg.flags, send_flags::ERROR);
    let mut msg = TeensySendMsg::default();
    assert_eq!(plan_command(&mut msg, &command(10), &robot(0), false, false), CommandAction::Done);
    assert_eq!(msg.flags, send_flags::ERROR);
}

#[test]
fn receive_speed_is_capped() {
    let mut msg = TeensySendMsg::default();
    msg.speed = 4000;
    cap_receive_speed(&mut msg, 100);
    assert_eq!(msg.speed, 350);
    msg.speed = 4000;
    cap_receive_speed(&mut msg, 2000);
    assert_eq!(msg.speed, 2000);
    msg.speed = 1000;
    cap_receive_speed(&mut msg, 2000);
    assert_eq!(msg.speed, 1000);
}

#[test]
fn goalie_state_allows_penalty_area_and_avoidance_radius() {
    let mut cp = CpRobot::default();
    cp.cmd.state = 4;
    assert!(allow_own_penalty_area(&cp));
    assert_eq!(ball_avoidance_plan(&cp), Some(0));
    cp.cmd.state = 2;
    assert!(!allow_own_penalty_area(&cp));
    assert_eq!(ball_avoidance_plan(&cp), Some(550));
    cp.cmd.state = 3;
    cp.cmd.task = 5;
    assert_eq!(ball_avoidance_plan(&cp), None);
    cp.cmd.task = 1;
    assert_eq!(ball_avoidance_plan(&cp), Some(0));
}

#[test]
fn kick_heading_works_for_any_orientation() {
    // 372 degrees faces the kick direction 12 after a whole turn.
    let mut msg = TeensySendMsg::default();
    plan_command(&mut msg, &command(2), &robot(372), true, false);
    assert_eq!(msg.flags, send_flags::DRIBBLER | send_flags::KICK);
    let mut msg = TeensySendMsg::default();
    plan_command(&mut msg, &command(2), &robot(-348), true, false);
    assert_eq!(msg.flags, send_flags::DRIBBLER | send_flags::KICK);
    assert_eq!(heading_error_deg(i32::MIN + 1000, 0), 152);
}

#[test]
fn held_ball_stops_and_faces_the_command() {
    let mut msg = TeensySendMsg::default();
    msg.speed = 700;
    msg.flags = send_flags::DRIBBLER;
    hold_acquired_ball(&mut msg, Some(135), 20);
    assert_eq!(msg.speed, 0);
    assert_eq!(msg.orient, 135);
    assert_eq!(msg.flags, send_flags::DRIBBLER);
    hold_acquired_ball(&mut msg, None, 20);
    assert_eq!(msg.orient, 20);
    hold_acquired_ball(&mut msg, Some(65536 + 7), 20);
    assert_eq!(msg.orient, 7);
}
