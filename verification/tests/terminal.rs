use qemu_wrapper::terminal::TerminalGuard;

#[test]
fn takes_the_foreground_only_when_needed() {
    let guard = TerminalGuard::new(Some(100));
    assert_eq!(guard.move_to_foreground(200), Some(200));
    assert_eq!(guard.move_to_foreground(100), None);
    assert_eq!(TerminalGuard::new(None).move_to_foreground(200), None);
}

#[test]
fn gives_the_terminal_back_while_holding_it() {
    let guard = TerminalGuard::new(Some(100));
    assert_eq!(guard.reset(200, 200), Some(100));
    assert_eq!(guard.reset(300, 200), None);
    assert_eq!(TerminalGuard::new(None).reset(200, 200), None);
    // taking the foreground and then resetting restores the original group
    let taken = guard.move_to_foreground(200);
    assert_eq!(taken, Some(200));
    assert_eq!(guard.reset(200, 200), guard.foreground_process_group);
}

#[test]
fn forwards_to_the_original_foreground_group() {
    assert_eq!(TerminalGuard::new(Some(100)).signal_foreground_process_group(), Some(100));
    assert_eq!(TerminalGuard::new(None).signal_foreground_process_group(), None);
}
