use tf_jetsoncode::communication::{TeensyLastState, TeensyRecMSG};
use tf_jetsoncode::teensy_link::{
    contains_bytes, is_would_block, read_error_outcome, read_ok_outcome, ReadOutcome, TeensyLink,
    INITIAL_BACKOFF_MS, MAX_BACKOFF_MS,
};

#[test]
fn backoff_doubles_up_to_the_limit() {
    let mut link = TeensyLink::new();
    let waits: Vec<u64> = (0..8).map(|_| link.retry_delay()).collect();
    assert_eq!(waits, vec![100, 200, 400, 800, 1600, 3200, 5000, 5000]);
    link.connected();
    assert_eq!(link.backoff_ms, INITIAL_BACKOFF_MS);
    assert!(link.retry_delay() <= MAX_BACKOFF_MS);
}

#[test]
fn would_block_errors_only_drain() {
    assert!(is_would_block("hidapi error: Would block"));
    assert!(is_would_block("operation would block"));
    assert!(is_would_block("Resource temporarily unavailable (os error 11)"));
    assert!(!is_would_block("No such device"));
    assert_eq!(read_error_outcome("would block"), ReadOutcome::Drained);
    assert_eq!(read_error_outcome("device disconnected"), ReadOutcome::Disconnected);
    assert!(contains_bytes(b"abc", b""));
    assert!(!contains_bytes(b"ab", b"abc"));
    assert!(contains_bytes(b"xxabc", b"abc"));
}

#[test]
fn reads_are_classified() {
    let report = [1u8, 0, 0, 0, 50, 10, 0];
    assert_eq!(
        read_ok_outcome(&report),
        ReadOutcome::Store(TeensyRecMSG { flags: 1, batt_level: 50, current: 10 })
    );
    assert_eq!(read_ok_outcome(&report[..3]), ReadOutcome::Drained);
}

#[test]
fn each_payload_is_written_once() {
    let mut mailbox = TeensyLastState::new();
    let mut link = TeensyLink::new();
    assert_eq!(link.next_write(&mailbox), None);
    mailbox.publish([7u8; 17]);
    let report = link.next_write(&mailbox).unwrap();
    assert_eq!(report[0], 0);
    assert_eq!(report[1], 7);
    assert_eq!(report[17], 7);
    assert_eq!(report[18], 0);
    assert_eq!(link.last_seq, 1);
    assert_eq!(link.next_write(&mailbox), None);
    link.connected();
    assert!(link.next_write(&mailbox).is_some());
}
