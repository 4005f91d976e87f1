use tf_jetsoncode::communication::TeensySendMsg;
use tf_jetsoncode::orca::{
    append_others, ball_obstacle, collect_others, nav_command_to_teensy, vel_to_dir_speed_deg_1,
    MovingObstacle, NavCommand, OtherRobot,
};
use tf_jetsoncode::proto::{CpRobot, CpTrackedRobot, CpVector2};
use tf_jetsoncode::vec::Vec2i;

#[test]
fn clamp_speed() {
    let v = Vec2i::new(3000, 0).with_speed_clamped(1000);
    assert!(v.x.abs() <= 1000);
    assert_eq!(v.y, 0);
}

#[test]
fn vel_to_dir_speed_deg_1_convention() {
    assert_eq!(vel_to_dir_speed_deg_1(Vec2i::new(0, 0)), (0, 0));
    assert_eq!(vel_to_dir_speed_deg_1(Vec2i::new(1000, 0)).0, 0);
    assert_eq!(vel_to_dir_speed_deg_1(Vec2i::new(0, 1000)).0, 90);
    assert_eq!(vel_to_dir_speed_deg_1(Vec2i::new(-1000, 0)).0, 180);
    assert_eq!(vel_to_dir_speed_deg_1(Vec2i::new(0, -1000)).0, 270);
}

#[test]
fn direction_rounds_to_whole_degrees() {
    assert_eq!(vel_to_dir_speed_deg_1(Vec2i::new(1000, 1000)), (45, 1414));
    assert_eq!(vel_to_dir_speed_deg_1(Vec2i::new(-1000, 1000)).0, 135);
    assert_eq!(vel_to_dir_speed_deg_1(Vec2i::new(-1000, -1000)).0, 225);
    assert_eq!(vel_to_dir_speed_deg_1(Vec2i::new(1000, -1000)).0, 315);
    // atan2(1, 1000) is 0.057 degrees, atan2(9, 1000) is 0.516 degrees.
    assert_eq!(vel_to_dir_speed_deg_1(Vec2i::new(1000, 1)).0, 0);
    assert_eq!(vel_to_dir_speed_deg_1(Vec2i::new(1000, 9)).0, 1);
    assert_eq!(vel_to_dir_speed_deg_1(Vec2i::new(1000, -1)).0, 0);
    assert_eq!(vel_to_dir_speed_deg_1(Vec2i::new(1000, -9)).0, 359);
    // 3-4-5 triangle: 53.13 degrees, speed 5.
    assert_eq!(vel_to_dir_speed_deg_1(Vec2i::new(3, 4)), (53, 5));
    assert_eq!(vel_to_dir_speed_deg_1(Vec2i::new(-1, 0)), (180, 1));
}

#[test]
fn speed_is_rounded_and_capped() {
    assert_eq!(vel_to_dir_speed_deg_1(Vec2i::new(1, 1)).1, 1);
    assert_eq!(vel_to_dir_speed_deg_1(Vec2i::new(2, 2)).1, 3);
    assert_eq!(vel_to_dir_speed_deg_1(Vec2i::new(100_000, 0)).1, u16::MAX);
    assert_eq!(vel_to_dir_speed_deg_1(Vec2i::new(i32::MIN, i32::MIN)).1, u16::MAX);
    assert_eq!(vel_to_dir_speed_deg_1(Vec2i::new(i32::MIN, i32::MIN)).0, 225);
}

#[test]
fn nav_command_sets_direction_and_speed_only() {
    let mut msg = TeensySendMsg::default();
    msg.orient = 77;
    msg.kick_pwr = 5;
    nav_command_to_teensy(&mut msg, NavCommand { vel_mm_s: Vec2i::new(0, -1500), debug: None });
    assert_eq!(msg.dir, 270);
    assert_eq!(msg.speed, 1500);
    assert_eq!(msg.orient, 77);
    assert_eq!(msg.kick_pwr, 5);
}

#[test]
fn speed_clamping_keeps_direction_and_rounds() {
    assert_eq!(Vec2i::new(0, 0).with_speed_clamped(100), Vec2i::new(0, 0));
    assert_eq!(Vec2i::new(30, 40).with_speed_clamped(50), Vec2i::new(30, 40));
    assert_eq!(Vec2i::new(30, 40).with_speed_clamped(10), Vec2i::new(6, 8));
    assert_eq!(Vec2i::new(-300, 400).with_speed_clamped(100), Vec2i::new(-60, 80));
    // 1000 * 1000 / 1414.2 = 707.1
    assert_eq!(Vec2i::new(1000, -1000).with_speed_clamped(1000), Vec2i::new(707, -707));
    assert_eq!(Vec2i::new(3000, 0).with_speed_clamped(0), Vec2i::new(0, 0));
    let big = Vec2i::new(i32::MIN, i32::MAX);
    assert_eq!(big.with_speed_clamped(u32::MAX), big);
    assert_eq!(big.with_speed_clamped(1 << 31), Vec2i::new(-1518500250, 1518500250));
}

#[test]
fn saturating_vector_arithmetic() {
    assert_eq!(Vec2i::new(i32::MAX, 1).add(Vec2i::new(1, 1)), Vec2i::new(i32::MAX, 2));
    assert_eq!(Vec2i::new(i32::MIN, 5).sub(Vec2i::new(1, 10)), Vec2i::new(i32::MIN, -5));
    assert_eq!(Vec2i::new(1 << 30, -3).mul(4), Vec2i::new(i32::MAX, -12));
    assert_eq!(Vec2i::new(3, 4).norm_squared(), 25);
}

fn robot_at(id: u32, x: i32) -> CpTrackedRobot {
    CpTrackedRobot {
        robot_id: id,
        pos: CpVector2 { x, y: 0 },
        orientation: 0,
        vel: if id == 3 { Some(CpVector2 { x: 5, y: 6 }) } else { None },
        visibility: 255,
    }
}

#[test]
fn obstacles_skip_self_and_ignored_robots() {
    let mut cp = CpRobot::default();
    cp.robots_yellow = vec![robot_at(1, 10), robot_at(2, 20)];
    cp.robots_blue = vec![robot_at(1, 30), robot_at(3, 40), robot_at(4, 50)];
    let others = collect_others(&cp, 1, &[4], 90);
    assert_eq!(
        others,
        vec![
            OtherRobot { id: 2, pos_mm: Vec2i::new(20, 0), vel_mm_s: Vec2i::new(0, 0), radius_mm: 90 },
            OtherRobot { id: 1, pos_mm: Vec2i::new(30, 0), vel_mm_s: Vec2i::new(0, 0), radius_mm: 90 },
            OtherRobot { id: 3, pos_mm: Vec2i::new(40, 0), vel_mm_s: Vec2i::new(5, 6), radius_mm: 90 },
        ]
    );
    let mut out = others.clone();
    append_others(&mut out, &[robot_at(7, 1), robot_at(1, 2)], Some(1), &[], 50);
    assert_eq!(out.len(), 4);
    assert_eq!(out[3].radius_mm, 50);
    append_others(&mut out, &[robot_at(1, 2)], None, &[], 50);
    assert_eq!(out.len(), 5);
}

#[test]
fn blue_team_skips_self_among_blue_robots_only() {
    let mut cp = CpRobot::default();
    cp.infos.team_color = true;
    cp.robots_yellow = vec![robot_at(1, 10), robot_at(2, 20)];
    cp.robots_blue = vec![robot_at(1, 30), robot_at(3, 40)];
    let ids: Vec<u32> = collect_others(&cp, 1, &[], 90).iter().map(|o| o.id).collect();
    assert_eq!(ids, vec![1, 2, 3]);
    let xs: Vec<i32> = collect_others(&cp, 1, &[], 90).iter().map(|o| o.pos_mm.x).collect();
    assert_eq!(xs, vec![10, 20, 40]);
}

#[test]
fn ball_is_an_obstacle_only_with_a_radius() {
    let mut cp = CpRobot::default();
    cp.ball.pos = CpVector2 { x: 300, y: -20 };
    assert_eq!(ball_obstacle(&cp, 0), None);
    assert_eq!(
        ball_obstacle(&cp, 180),
        Some(MovingObstacle { pos_mm: Vec2i::new(300, -20), vel_mm_s: Vec2i::new(0, 0), radius_mm: 180 })
    );
}
