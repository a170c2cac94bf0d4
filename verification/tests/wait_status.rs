use qemu_wrapper::wait_status::{
    child_status_outcome, grandchild_status, grandchild_wait_status, mimic_wait_status,
    is_decodable_wait_status, MimicAction, WaitStatus,
};

#[test]
fn qemu_powerdown_is_a_failure() {
    assert_eq!(grandchild_status(WaitStatus::Exited(10, 0), 7), WaitStatus::Exited(10, 1));
    assert_eq!(grandchild_status(WaitStatus::Exited(10, 0), 0), WaitStatus::Exited(10, 1));
}

#[test]
fn configured_exit_code_is_success() {
    assert_eq!(grandchild_status(WaitStatus::Exited(10, 7), 7), WaitStatus::Exited(10, 0));
    assert_eq!(grandchild_status(WaitStatus::Exited(10, 3), 7), WaitStatus::Exited(10, 3));
    assert_eq!(grandchild_status(WaitStatus::Exited(10, 1), 1), WaitStatus::Exited(10, 0));
}

#[test]
fn other_statuses_pass_through() {
    let statuses = [
        WaitStatus::Signaled(10, 9, false),
        WaitStatus::Stopped(10, 19),
        WaitStatus::Continued(10),
        WaitStatus::StillAlive,
    ];
    for status in statuses {
        assert_eq!(grandchild_status(status, 0), status);
    }
}

#[test]
fn decodes_raw_grandchild_statuses() {
    // Linux encodings: exit code in bits 8..16, terminating signal in the low 7 bits.
    assert_eq!(grandchild_wait_status(42, 7 << 8, 7), Some(WaitStatus::Exited(42, 0)));
    assert_eq!(grandchild_wait_status(42, 0, 7), Some(WaitStatus::Exited(42, 1)));
    assert_eq!(grandchild_wait_status(42, 3 << 8, 7), Some(WaitStatus::Exited(42, 3)));
    assert_eq!(grandchild_wait_status(42, 9, 7), Some(WaitStatus::Signaled(42, 9, false)));
    assert_eq!(grandchild_wait_status(42, 0x80 | 6, 7), Some(WaitStatus::Signaled(42, 6, true)));
    assert_eq!(grandchild_wait_status(42, 0xffff, 7), Some(WaitStatus::Continued(42)));
}

#[test]
fn mimic_reproduces_exit_and_signal() {
    assert_eq!(mimic_wait_status(WaitStatus::Exited(1, 5)), MimicAction::Exit(5));
    assert_eq!(
        mimic_wait_status(WaitStatus::Signaled(1, 15, true)),
        MimicAction::EmulateDefaultHandler(15)
    );
    assert_eq!(
        mimic_wait_status(WaitStatus::Stopped(1, 19)),
        MimicAction::Unexpected(WaitStatus::Stopped(1, 19))
    );
    assert_eq!(mimic_wait_status(WaitStatus::StillAlive), MimicAction::Unexpected(WaitStatus::StillAlive));
}

#[test]
fn parent_waits_while_child_still_alive() {
    assert_eq!(child_status_outcome(WaitStatus::StillAlive), None);
    assert_eq!(child_status_outcome(WaitStatus::Exited(3, 0)), Some(WaitStatus::Exited(3, 0)));
    assert_eq!(child_status_outcome(WaitStatus::Continued(3)), Some(WaitStatus::Continued(3)));
}

#[test]
fn decodable_raw_statuses() {
    for raw in [0, 7 << 8, 9, 0x80 | 6, 0x137f, 0xffff, -256] {
        assert!(is_decodable_wait_status(raw), "{raw:#x}");
    }
    for raw in [0xff, 0x7ff, 0x1ff, -1, 0x17ff] {
        assert!(!is_decodable_wait_status(raw), "{raw:#x}");
    }
    assert_eq!(grandchild_wait_status(5, 0x137f, 7), Some(WaitStatus::Stopped(5, 19)));
}
