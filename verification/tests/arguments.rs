use qemu_wrapper::arguments::{Arguments, ArgumentsError, OptionName, OPTIONS_USAGE};
use qemu_wrapper::number::{parse_byte, parse_i32};

fn strings(items: &[&str]) -> Vec<String> {
    items.iter().map(|s| s.to_string()).collect()
}

fn usage_for(argv0: &str) -> String {
    format!("Usage: {argv0} [OPTIONS]\n\n{OPTIONS_USAGE}")
}

#[test]
fn parses_the_integration_command_line() {
    let args = strings(&[
        "qemu-wrapper",
        "--ready-for-exit-signal-port",
        "0xf5",
        "--exit-port",
        "0xf4",
        "--exit-code",
        "7",
        "x86_64",
        "-drive",
        "if=pflash,format=raw,readonly=on,file=code.fd",
        "-nic",
        "none",
        "-nographic",
        "-no-reboot",
    ]);
    let parsed = match Arguments::parse(&args) {
        Ok(parsed) => parsed,
        Err(_) => panic!("parse failed"),
    };
    assert_eq!(parsed.exit_code, 7);
    assert_eq!(parsed.child_arguments.ready_for_exit_signal_port, 0xf5);
    assert_eq!(parsed.child_arguments.exit_port, 0xf4);
    assert_eq!(parsed.child_arguments.guest_architecture, "x86_64");
    assert_eq!(
        parsed.child_arguments.qemu_arguments,
        strings(&[
            "-drive",
            "if=pflash,format=raw,readonly=on,file=code.fd",
            "-nic",
            "none",
            "-nographic",
            "-no-reboot",
        ])
    );
}

#[test]
fn accepts_inline_values_and_last_value_wins() {
    let args = strings(&[
        "w",
        "--exit-code=9",
        "--exit-port=0XF4",
        "--ready-for-exit-signal-port=245",
        "--exit-code",
        "11",
        "aarch64",
    ]);
    let parsed = match Arguments::parse(&args) {
        Ok(parsed) => parsed,
        Err(_) => panic!("parse failed"),
    };
    assert_eq!(parsed.exit_code, 11);
    assert_eq!(parsed.child_arguments.exit_port, 0xf4);
    assert_eq!(parsed.child_arguments.ready_for_exit_signal_port, 245);
    assert_eq!(parsed.child_arguments.guest_architecture, "aarch64");
    assert!(parsed.child_arguments.qemu_arguments.is_empty());
}

#[test]
fn double_dash_ends_options() {
    let args = strings(&[
        "w", "--exit-code", "1", "--exit-port", "2", "--ready-for-exit-signal-port", "3", "--",
        "--exit-code", "-x",
    ]);
    let parsed = match Arguments::parse(&args) {
        Ok(parsed) => parsed,
        Err(_) => panic!("parse failed"),
    };
    assert_eq!(parsed.child_arguments.guest_architecture, "--exit-code");
    assert_eq!(parsed.child_arguments.qemu_arguments, strings(&["-x"]));
}

#[test]
fn options_after_the_architecture_go_to_qemu() {
    let args = strings(&[
        "w", "--exit-code", "1", "--exit-port", "2", "--ready-for-exit-signal-port", "3", "x86_64",
        "--help", "-h",
    ]);
    let parsed = match Arguments::parse(&args) {
        Ok(parsed) => parsed,
        Err(_) => panic!("parse failed"),
    };
    assert_eq!(parsed.child_arguments.qemu_arguments, strings(&["--help", "-h"]));
}

#[test]
fn help_gives_the_usage_message() {
    for flag in ["-h", "--help"] {
        let args = strings(&["qemu-wrapper", flag]);
        match Arguments::parse(&args) {
            Err(ArgumentsError::Help(message)) => assert_eq!(message, usage_for("qemu-wrapper")),
            _ => panic!("expected help"),
        }
    }
}

#[test]
fn usage_without_program_name() {
    assert_eq!(Arguments::usage(None, "body"), "Usage:  [OPTIONS]\n\nbody");
    assert_eq!(Arguments::usage(Some("prog"), "body"), "Usage: prog [OPTIONS]\n\nbody");
    match Arguments::parse(&Vec::new()) {
        Err(ArgumentsError::MissingOption(OptionName::ReadyForExitSignalPort)) => {}
        _ => panic!("expected missing option"),
    }
}

#[test]
fn missing_guest_architecture() {
    let args = strings(&[
        "w", "--exit-code", "1", "--exit-port", "2", "--ready-for-exit-signal-port", "3",
    ]);
    match Arguments::parse(&args) {
        Err(ArgumentsError::MissingGuestArchitecture(message)) => {
            assert_eq!(message, usage_for("w"))
        }
        _ => panic!("expected missing guest architecture"),
    }
}

#[test]
fn missing_options_are_reported_in_order() {
    let cases: [(&[&str], OptionName); 3] = [
        (&["w", "x86_64"], OptionName::ReadyForExitSignalPort),
        (&["w", "--ready-for-exit-signal-port", "1", "x86_64"], OptionName::ExitPort),
        (&["w", "--ready-for-exit-signal-port", "1", "--exit-port", "2", "x86_64"], OptionName::ExitCode),
    ];
    for (args, expected) in cases {
        match Arguments::parse(&strings(args)) {
            Err(ArgumentsError::MissingOption(name)) => assert_eq!(name, expected),
            _ => panic!("expected missing option"),
        }
    }
}

#[test]
fn unrecognized_options() {
    for option in ["-x", "--verbose", "--help=yes", "-hh"] {
        match Arguments::parse(&strings(&["w", option, "x86_64"])) {
            Err(ArgumentsError::UnrecognizedOption(o)) => assert_eq!(o, option),
            _ => panic!("expected unrecognized option"),
        }
    }
}

#[test]
fn missing_and_invalid_values() {
    match Arguments::parse(&strings(&["w", "--exit-port"])) {
        Err(ArgumentsError::MissingValue(OptionName::ExitPort)) => {}
        _ => panic!("expected missing value"),
    }
    for value in ["256", "0x100", "0x", "", "-1", "12a", "0xg1", "ff"] {
        match Arguments::parse(&strings(&["w", "--exit-port", value, "x86_64"])) {
            Err(ArgumentsError::InvalidValue(OptionName::ExitPort, v)) => assert_eq!(v, value),
            _ => panic!("expected invalid port for {value:?}"),
        }
    }
    for value in ["", "-", "+", "12a", "0x7", "2147483648", "-2147483649", " 1", "1.0"] {
        match Arguments::parse(&strings(&["w", "--exit-code", value, "x86_64"])) {
            Err(ArgumentsError::InvalidValue(OptionName::ExitCode, v)) => assert_eq!(v, value),
            _ => panic!("expected invalid exit code for {value:?}"),
        }
    }
    match Arguments::parse(&strings(&["w", "--exit-port=0x1ff", "x86_64"])) {
        Err(ArgumentsError::InvalidValue(OptionName::ExitPort, v)) => assert_eq!(v, "0x1ff"),
        _ => panic!("expected invalid inline value"),
    }
}

#[test]
fn errors_come_before_help() {
    match Arguments::parse(&strings(&["w", "-h", "--bogus"])) {
        Err(ArgumentsError::UnrecognizedOption(o)) => assert_eq!(o, "--bogus"),
        _ => panic!("expected unrecognized option"),
    }
    match Arguments::parse(&strings(&["w", "-h", "x86_64", "--bogus"])) {
        Err(ArgumentsError::Help(_)) => {}
        _ => panic!("expected help"),
    }
}

#[test]
fn byte_numbers() {
    assert_eq!(parse_byte("0"), Some(0));
    assert_eq!(parse_byte("255"), Some(255));
    assert_eq!(parse_byte("0255"), Some(255));
    assert_eq!(parse_byte("0xff"), Some(255));
    assert_eq!(parse_byte("0XaB"), Some(0xab));
    assert_eq!(parse_byte("0x00000f"), Some(15));
    assert_eq!(parse_byte("99999999999999999999"), None);
    assert_eq!(parse_byte("+1"), None);
    assert_eq!(parse_byte("1 "), None);
}

#[test]
fn exit_code_is_a_signed_decimal_i32() {
    for (value, expected) in [
        ("256", 256),
        ("-1", -1),
        ("+3", 3),
        ("007", 7),
        ("2147483647", i32::MAX),
        ("-2147483648", i32::MIN),
    ] {
        let args = strings(&[
            "w", "--exit-code", value, "--exit-port", "2", "--ready-for-exit-signal-port", "3",
            "x86_64",
        ]);
        match Arguments::parse(&args) {
            Ok(parsed) => assert_eq!(parsed.exit_code, expected),
            Err(_) => panic!("parse failed for {value:?}"),
        }
        assert_eq!(parse_i32(value), value.parse::<i32>().ok());
    }
    for value in ["", "-", "+", "+-1", "12a", "2147483648", "-2147483649", "99999999999"] {
        assert_eq!(parse_i32(value), None);
        assert_eq!(value.parse::<i32>().ok(), None);
    }
}
