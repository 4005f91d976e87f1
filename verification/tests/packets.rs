use tf_jetsoncode::communication::send_flags;
use tf_jetsoncode::communication::{Events, TeensyRecMSG, VisionMsg};
use tf_jetsoncode::config::{Config, TeensyConfig};
use tf_jetsoncode::packets::{opponent_position, packet_is_late, PacketBuffer};
use tf_jetsoncode::proto::{CpRobot, CpTrackedRobot, CpVector2, RobotCp, Timestamp};
use tf_jetsoncode::robot_logic::{plan_state, StateAction};

fn robot_at(id: u32, x: i32, orientation: i32) -> CpTrackedRobot {
    CpTrackedRobot {
        robot_id: id,
        pos: CpVector2 { x, y: 0 },
        orientation,
        vel: Some(CpVector2 { x: 100, y: -70000 }),
        visibility: 255,
    }
}

fn cp_packet(team_color: bool) -> CpRobot {
    let mut cp = CpRobot::default();
    cp.robot_id = 2;
    cp.packet_id = 17;
    cp.infos.team_color = team_color;
    cp.infos.width = 9000;
    cp.infos.height = 6000;
    cp.infos.runoff_width = 300;
    cp.robots_yellow = vec![robot_at(1, 10, 0), robot_at(2, 20, 0), robot_at(2, 30, 0)];
    cp.robots_blue = vec![robot_at(2, 40, -90)];
    cp
}

#[test]
fn events_replace_packets() {
    let mut packets = PacketBuffer::new();
    let events = Events {
        cp: Some(cp_packet(false)),
        vis: None,
        teensy: Some(TeensyRecMSG { flags: 2, batt_level: 90, current: 5 }),
    };
    let now = Timestamp { seconds: 0, nanos: 0 };
    packets.merge_events(events, now);
    assert_eq!(packets.cp_data.packet_id, 17);
    assert_eq!(packets.vision_data, VisionMsg::default());
    assert_eq!(packets.teensy_data.batt_level, 90);
    packets.merge_events(Events::default(), now);
    assert_eq!(packets.cp_data.packet_id, 17);
}

fn cp_event(packet_id: u32, team_color: bool, sent: Timestamp) -> Events {
    let mut cp = cp_packet(team_color);
    cp.packet_id = packet_id;
    cp.timestamp = sent;
    Events { cp: Some(cp), vis: None, teensy: None }
}

#[test]
fn stale_crashpilot_packets_are_dropped() {
    let mut packets = PacketBuffer::new();
    let sent = Timestamp { seconds: 100, nanos: 0 };
    let now = Timestamp { seconds: 100, nanos: 250_000_000 };
    packets.merge_events(cp_event(17, false, sent), now);
    assert_eq!(packets.cp_data.packet_id, 17);
    // Not newer than the packet held: dropped.
    packets.merge_events(cp_event(17, true, sent), now);
    assert!(!packets.cp_data.infos.team_color);
    packets.merge_events(cp_event(12, true, sent), now);
    assert_eq!(packets.cp_data.packet_id, 17);
    // Newer: taken.
    packets.merge_events(cp_event(18, true, sent), now);
    assert_eq!(packets.cp_data.packet_id, 18);
    assert!(packets.cp_data.infos.team_color);
}

#[test]
fn late_crashpilot_packets_are_dropped() {
    let mut packets = PacketBuffer::new();
    let sent = Timestamp { seconds: 100, nanos: 500_000_000 };
    packets.merge_events(cp_event(5, false, sent), Timestamp { seconds: 100, nanos: 900_000_001 });
    assert!(packets.cp_data.is_default());
    packets.merge_events(cp_event(5, false, sent), Timestamp { seconds: 100, nanos: 900_000_000 });
    assert_eq!(packets.cp_data.packet_id, 5);
    assert!(!packet_is_late(sent, Timestamp { seconds: 100, nanos: 900_000_000 }));
    assert!(packet_is_late(sent, Timestamp { seconds: 100, nanos: 900_000_001 }));
    assert!(packet_is_late(Timestamp { seconds: -1, nanos: 999_999_999 }, Timestamp { seconds: 0, nanos: 400_000_000 }));
    assert!(!packet_is_late(Timestamp { seconds: 7, nanos: 0 }, Timestamp { seconds: 6, nanos: 0 }));
    assert!(!packet_is_late(Timestamp { seconds: i64::MIN, nanos: i32::MIN }, Timestamp { seconds: i64::MIN, nanos: i32::MIN }));
    assert!(packet_is_late(Timestamp { seconds: i64::MIN, nanos: 0 }, Timestamp { seconds: i64::MAX, nanos: 0 }));
}

#[test]
fn own_robot_is_taken_from_own_team() {
    let mut packets = PacketBuffer::new();
    assert!(packets.robot_id_matches(2));
    packets.cp_data = cp_packet(false);
    assert!(packets.robot_id_matches(2));
    assert!(!packets.robot_id_matches(3));
    packets.cp_data.robot_id = 258;
    assert!(!packets.robot_id_matches(2));
    packets.select_robot_self(2);
    assert_eq!(packets.robot_self.pos.x, 20);
    packets.cp_data.infos.team_color = true;
    packets.select_robot_self(2);
    assert_eq!(packets.robot_self.pos.x, 40);
    packets.select_robot_self(9);
    assert_eq!(packets.robot_self.pos.x, 40);
}

#[test]
fn status_report() {
    let mut packets = PacketBuffer::new();
    packets.cp_data = cp_packet(false);
    packets.cp_data.timestamp = Timestamp { seconds: 1_700_000_000, nanos: 5 };
    packets.teensy_data = TeensyRecMSG { flags: 0b1111, batt_level: 160, current: 2500 };
    assert_eq!(
        packets.cp_packet(2),
        RobotCp {
            robot_id: 2,
            battery_voltage: Some(160),
            current: Some(2500),
            kicker_ready: true,
            has_ball: true,
            has_error: Some(true),
            acting: Some(true),
            last_rec_packet: Some(17),
            timestamp: Timestamp { seconds: 1_700_000_000, nanos: 5 },
        }
    );
    packets.teensy_data.flags = 0b0100;
    let report = packets.cp_packet(2);
    assert!(!report.kicker_ready);
    assert!(!report.has_ball);
    assert_eq!(report.has_error, None);
}

#[test]
fn update_keeps_the_behaviour_motion_and_stops_invisible_robots() {
    let mut packets = PacketBuffer::new();
    packets.cp_data = cp_packet(true);
    packets.cp_data.cmd.state = 3;
    packets.cp_data.cmd.speed = Some(1200);
    packets.cp_data.cmd.kick_orient = Some(45);
    packets.cp_data.cmd.orientation = Some(400);
    packets.select_robot_self(2);
    packets.robot_msg.set_flag(send_flags::KICK);
    packets.robot_msg.speed = 700;
    packets.robot_msg.dir = 10;
    packets.begin_update();
    assert_eq!(packets.robot_msg.flags, 0);
    assert_eq!((packets.robot_msg.dir, packets.robot_msg.speed), (0, 0));
    assert_eq!(packets.robot_self.orientation, 270);
    assert_eq!(packets.robot_msg.self_orient, 270);
    // The behaviour chooses a motion.
    packets.robot_msg.dir = 135;
    packets.robot_msg.speed = 2500;
    packets.robot_msg.orient = 90;
    packets.finish_update();
    assert_eq!(packets.robot_msg.state, 3);
    assert_eq!(packets.robot_msg.speed, 2500);
    assert_eq!(packets.robot_msg.dir, 135);
    assert_eq!(packets.robot_msg.orient, 90);
    assert_eq!(packets.robot_msg.vel_x, 100);
    assert_eq!(packets.robot_msg.vel_y, (-70000i32) as i16);

    packets.robot_self.visibility = 20;
    packets.finish_update();
    assert_eq!(packets.robot_msg.speed, 0);
    packets.robot_msg.speed = 2500;
    packets.robot_self.visibility = 21;
    packets.robot_self.pos.x = 5000;
    packets.finish_update();
    assert_eq!(packets.robot_msg.speed, 0);
}

#[test]
fn halt_sends_no_speed_and_stop_caps_it() {
    let mut packets = PacketBuffer::new();
    packets.cp_data = cp_packet(false);
    packets.select_robot_self(2);
    packets.cp_data.cmd.speed = Some(1000);
    packets.cp_data.cmd.state = 1;
    packets.begin_update();
    packets.robot_msg.speed = 1000;
    packets.finish_update();
    assert_eq!(packets.robot_msg.speed, 0);

    packets.cp_data.cmd.state = 2;
    packets.cp_data.cmd.speed = Some(3000);
    packets.begin_update();
    packets.robot_msg.speed = 3000;
    packets.robot_msg.dir = 77;
    packets.finish_update();
    assert_eq!(packets.robot_msg.speed, 1500);
    assert_eq!(packets.robot_msg.dir, 77);
    packets.robot_msg.speed = 1200;
    packets.finish_update();
    assert_eq!(packets.robot_msg.speed, 1200);
}

#[test]
fn unknown_state_iteration_sets_only_the_error_flag() {
    let mut packets = PacketBuffer::new();
    packets.cp_data = cp_packet(false);
    packets.cp_data.cmd.state = 9;
    packets.cp_data.cmd.speed = Some(800);
    packets.robot_self = robot_at(2, 20, -725);
    packets.robot_msg.set_flag(send_flags::KICK | send_flags::DRIBBLER);
    packets.robot_msg.speed = 600;
    packets.begin_update();
    let (action, _) = plan_state(packets.cp_data.cmd.state, false);
    assert_eq!(action, StateAction::Error);
    packets.robot_msg.set_flag(send_flags::ERROR);
    packets.finish_update();
    assert_eq!(packets.robot_self.orientation, 355);
    assert_eq!(packets.robot_msg.self_orient, 355);
    assert_eq!(packets.robot_msg.flags, send_flags::ERROR);
    assert_eq!(packets.robot_msg.state, 9);
    assert_eq!(packets.robot_msg.speed, 0);
}

#[test]
fn fresh_buffer_and_defaults() {
    let mut packets = PacketBuffer::new();
    assert!(packets.cp_data.is_default());
    packets.cp_data = cp_packet(false);
    packets.clear();
    assert!(packets.cp_data.is_default());
    let cfg = Config::default();
    assert_eq!(cfg.robot_id, 1);
    assert_eq!(cfg.onboard_vision_socket_path, "/tmp/ov_socket");
    assert_eq!(cfg.cp_config.host, [10, 0, 64, 221]);
    assert_eq!(cfg.cp_config.status_bind_port(), 2050);
    assert_eq!(TeensyConfig::default(), TeensyConfig { vid: 0x16C0, pid: 0x0486 });
}

#[test]
fn blocked_opponent_is_found_in_the_other_team() {
    let cp = cp_packet(false);
    assert_eq!(opponent_position(&cp, 2), CpVector2 { x: 40, y: 0 });
    assert_eq!(opponent_position(&cp, 1), CpVector2 { x: 0, y: 0 });
    let cp = cp_packet(true);
    assert_eq!(opponent_position(&cp, 2), CpVector2 { x: 20, y: 0 });
}
