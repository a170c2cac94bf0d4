use qemu_wrapper::arguments::Arguments;
use qemu_wrapper::guest::port_data;
use qemu_wrapper::signals::{handled_signals, parent_signal_action, ParentAction, Signal};
use qemu_wrapper::supervisor::{ChildAction, DescriptorActions, Supervisor};
use qemu_wrapper::wait_status::WaitStatus;

#[test]
fn interrupt_before_ready_powers_down_once_ready_and_connected() {
    let mut s = Supervisor::new(7);
    assert!(!s.powerdown_due());
    assert_eq!(s.on_signal(Signal::Interrupt, false), ChildAction::RequestPowerdown);
    assert!(!s.powerdown_due());
    assert_eq!(
        s.on_descriptors(true, false),
        DescriptorActions { accept_monitor: true, close_ready_descriptor: false }
    );
    assert!(!s.listener_open);
    assert!(s.monitor_connected);
    assert!(!s.powerdown_due());
    assert_eq!(
        s.on_descriptors(false, true),
        DescriptorActions { accept_monitor: false, close_ready_descriptor: true }
    );
    assert!(s.powerdown_due());
    // stays due: the command is written again at each wake-up
    assert_eq!(s.on_signal(Signal::TerminalOutput, false), ChildAction::Ignore);
    assert!(s.powerdown_due());
}

#[test]
fn second_termination_signal_kills() {
    for (first, second) in [
        (Signal::Hangup, Signal::Terminate),
        (Signal::Quit, Signal::Interrupt),
        (Signal::Other(10), Signal::Other(12)),
    ] {
        let mut s = Supervisor::new(1);
        assert_eq!(s.on_signal(first, false), ChildAction::RequestPowerdown);
        assert_eq!(s.on_signal(second, true), ChildAction::KillGrandchild);
        assert_eq!(s.on_signal(second, false), ChildAction::KillGrandchild);
    }
}

#[test]
fn job_control_signals() {
    let mut s = Supervisor::new(1);
    let before = s;
    assert_eq!(s.on_signal(Signal::Child, false), ChildAction::CheckGrandchild);
    assert_eq!(s.on_signal(Signal::TerminalStop, true), ChildAction::StopGrandchildAndSelf);
    assert_eq!(
        s.on_signal(Signal::TerminalStop, false),
        ChildAction::SignalForegroundGroup(Signal::TerminalStop)
    );
    assert_eq!(s.on_signal(Signal::TerminalInput, false), ChildAction::Ignore);
    assert_eq!(s.on_signal(Signal::TerminalOutput, true), ChildAction::Ignore);
    assert_eq!(s, before);
}

#[test]
fn grandchild_status_uses_the_configured_exit_code() {
    let s = Supervisor::new(7);
    assert_eq!(s.grandchild_status(100, 7 << 8), Some(WaitStatus::Exited(100, 0)));
    assert_eq!(s.grandchild_status(100, 0), Some(WaitStatus::Exited(100, 1)));
}

#[test]
fn handled_signal_list() {
    assert_eq!(
        handled_signals(),
        vec![
            Signal::Hangup,
            Signal::Interrupt,
            Signal::Quit,
            Signal::Terminate,
            Signal::Child,
            Signal::TerminalStop,
            Signal::TerminalInput,
            Signal::TerminalOutput,
        ]
    );
}

#[test]
fn parent_forwards_all_but_child_and_stop() {
    assert_eq!(parent_signal_action(Signal::Child), ParentAction::ReapChild);
    assert_eq!(parent_signal_action(Signal::TerminalStop), ParentAction::StopChildThenSelf);
    for signal in [Signal::Interrupt, Signal::Hangup, Signal::TerminalInput, Signal::Other(30)] {
        assert_eq!(parent_signal_action(signal), ParentAction::ForwardToChild(signal));
    }
}

#[test]
fn interrupted_run_reports_the_guest_exit_code_as_success() {
    let args: Vec<String> = [
        "qemu-wrapper", "--ready-for-exit-signal-port", "0xf5", "--exit-port", "0xf4",
        "--exit-code", "7", "x86_64", "-nographic",
    ]
    .iter()
    .map(|s| s.to_string())
    .collect();
    let arguments = match Arguments::parse(&args) {
        Ok(arguments) => arguments,
        Err(_) => panic!("parse"),
    };
    let mut s = Supervisor::new(arguments.exit_code);
    // SIGINT arrives before QEMU has even connected
    assert_eq!(s.on_signal(Signal::Interrupt, false), ChildAction::RequestPowerdown);
    s.on_descriptors(true, false);
    s.on_descriptors(false, true);
    assert!(s.powerdown_due());
    // the guest sees the power button and writes its exit code to the debug-exit port
    let data = port_data(u8::try_from(arguments.exit_code).expect("byte exit code"));
    let qemu_exit = (i32::from(data) << 1) | 1;
    assert_eq!(s.on_signal(Signal::Child, false), ChildAction::CheckGrandchild);
    assert_eq!(s.grandchild_status(321, qemu_exit << 8), Some(WaitStatus::Exited(321, 0)));
}
