use tf_jetsoncode::proto::{str_eq, CpRobot, CpState, CpTask};

const STATES: [CpState; 6] = [
    CpState::StateUnspecified,
    CpState::StateHalt,
    CpState::StateStop,
    CpState::StateFree,
    CpState::StateGoalie,
    CpState::StateSubstitute,
];

const TASKS: [CpTask; 11] = [
    CpTask::TaskUnspecified,
    CpTask::TaskPos,
    CpTask::TaskKick,
    CpTask::TaskChip,
    CpTask::TaskRecKick,
    CpTask::TaskSteal,
    CpTask::TaskDribble,
    CpTask::TaskPosBall,
    CpTask::TaskBlock,
    CpTask::StateKickoff,
    CpTask::StateFreekick,
];

#[test]
fn state_names_and_numbers_round_trip() {
    for s in STATES {
        assert_eq!(CpState::from_str_name(s.as_str_name()), Some(s));
        assert_eq!(CpState::from_i32(s.as_i32()), Some(s));
    }
    assert_eq!(CpState::StateGoalie.as_str_name(), "STATE_GOALIE");
    assert_eq!(CpState::StateSubstitute.as_i32(), 5);
    assert_eq!(CpState::from_str_name("STATE_STOPPED"), None);
    assert_eq!(CpState::from_i32(6), None);
    assert_eq!(CpState::from_i32(-1), None);
}

#[test]
fn task_names_and_numbers_round_trip() {
    for t in TASKS {
        assert_eq!(CpTask::from_str_name(t.as_str_name()), Some(t));
        assert_eq!(CpTask::from_i32(t.as_i32()), Some(t));
    }
    assert_eq!(CpTask::from_str_name("TASK_BLOCK"), Some(CpTask::TaskBlock));
    assert_eq!(CpTask::TaskPosBall.as_str_name(), "TASK_PosBall");
    assert_eq!(CpTask::from_str_name("TASK_POSBALL"), None);
    assert_eq!(CpTask::StateFreekick.as_i32(), 11);
    assert_eq!(CpTask::from_i32(10), None);
}

#[test]
fn string_comparison() {
    assert!(str_eq("abc", "abc"));
    assert!(!str_eq("abc", "abd"));
    assert!(!str_eq("abc", "ab"));
    assert!(str_eq("", ""));
    assert!(str_eq("grüße", "grüße"));
}

#[test]
fn default_message_is_recognised() {
    let mut cp = CpRobot::default();
    assert!(cp.is_default());
    cp.packet_id = 1;
    assert!(!cp.is_default());
}
