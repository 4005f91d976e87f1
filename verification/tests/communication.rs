use tf_jetsoncode::communication::send_flags;
use tf_jetsoncode::communication::{
    hid_report, Events, TeensyLastState, TeensyRecMSG, TeensySendMsg, VisionMsg,
};
use tf_jetsoncode::proto::CpRobot;

#[test]
fn received_flags_are_decoded() {
    let msg = TeensyRecMSG { flags: 0b1011 | (1 << 10), batt_level: 200, current: 1500 };
    assert!(msg.error());
    assert!(msg.has_ball());
    assert!(!msg.kick_ready());
    assert!(msg.chip_ready());
    assert!(msg.button(2));
    assert!(!msg.button(1));
    assert!(msg.has_any_button());
    let none = TeensyRecMSG { flags: 0xFFFF_00FF, batt_level: 0, current: 0 };
    assert!(!none.has_any_button());
    assert!(none.button(8));
}

#[test]
fn received_report_is_parsed() {
    let buf = [0x0F, 0x01, 0x00, 0x80, 77, 0x34, 0x12, 9, 9];
    let msg = TeensyRecMSG::from_report(&buf).unwrap();
    assert_eq!(msg, TeensyRecMSG { flags: 0x8000_010F, batt_level: 77, current: 0x1234 });
    assert_eq!(TeensyRecMSG::from_report(&buf[..6]), None);
    assert!(TeensyRecMSG::from_report(&buf[..7]).is_some());
}

#[test]
fn send_message_layout() {
    let msg = TeensySendMsg {
        flags: 0x0102,
        state: 3,
        kick_pwr: 4,
        dribbler_pwr: 5,
        dir: 0x0607,
        speed: 0x0809,
        orient: 0x0A0B,
        self_orient: 0x0C0D,
        vel_x: -2,
        vel_y: 0x0E0F,
    };
    assert_eq!(
        msg.encode(),
        [0x02, 0x01, 3, 4, 5, 0x07, 0x06, 0x09, 0x08, 0x0B, 0x0A, 0x0D, 0x0C, 0xFE, 0xFF, 0x0F, 0x0E]
    );
    assert_eq!(TeensySendMsg::default().encode(), [0u8; 17]);
}

#[test]
fn flags_are_set_and_cleared() {
    let mut msg = TeensySendMsg::default();
    msg.set_flag(send_flags::KICK);
    msg.set_flag(send_flags::DRIBBLER);
    msg.set_flag(send_flags::KICK);
    assert_eq!(msg.flags, 0b1010);
    msg.speed = 12;
    msg.clear_all_flags();
    assert_eq!(msg.flags, 0);
    assert_eq!(msg.speed, 12);
}

#[test]
fn hid_report_carries_payload_after_report_id() {
    let mut payload = [0u8; 17];
    for (i, b) in payload.iter_mut().enumerate() {
        *b = i as u8 + 1;
    }
    let report = hid_report(&payload);
    assert_eq!(report.len(), 65);
    assert_eq!(report[0], 0);
    assert_eq!(&report[1..18], &payload[..]);
    assert!(report[18..].iter().all(|b| *b == 0));
}

#[test]
fn mailbox_delivers_newest_payload_once() {
    let mut state = TeensyLastState::new();
    assert_eq!(state.latest_after(0), None);
    state.publish([1u8; 17]);
    state.publish([2u8; 17]);
    assert_eq!(state.latest_after(0), Some((2, [2u8; 17])));
    assert_eq!(state.latest_after(2), None);
    state.publish([3u8; 17]);
    assert_eq!(state.latest_after(2), Some((3, [3u8; 17])));
    let mut wrap = TeensyLastState { seq: u64::MAX, payload: None };
    wrap.publish([4u8; 17]);
    assert_eq!(wrap.latest_after(u64::MAX), Some((0, [4u8; 17])));
}

#[test]
fn vision_frame_is_parsed() {
    let mut buf = [0u8; 13];
    buf[0..4].copy_from_slice(&1.5f32.to_le_bytes());
    buf[4..8].copy_from_slice(&(-2.0f32).to_le_bytes());
    buf[8..12].copy_from_slice(&3.25f32.to_be_bytes());
    let msg = VisionMsg::from_frame(&buf).unwrap();
    assert_eq!(f32::from_bits(msg.x), 1.5);
    assert_eq!(f32::from_bits(msg.y), -2.0);
    assert_eq!(f32::from_bits(msg.size), 3.25);
    assert_eq!(VisionMsg::from_frame(&buf[..12]), None);
}

#[test]
fn events_are_taken_once() {
    let mut events = Events::default();
    events.cp = Some(CpRobot::default());
    events.teensy = Some(TeensyRecMSG::default());
    let taken = events.take();
    assert!(taken.cp.is_some());
    assert!(taken.teensy.is_some());
    assert!(taken.vis.is_none());
    assert!(events.cp.is_none() && events.vis.is_none() && events.teensy.is_none());
    events.vis = Some(VisionMsg::default());
    events.clear();
    assert!(events.vis.is_none());
}
