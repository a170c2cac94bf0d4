use qemu_wrapper::arguments::ChildArguments;
use qemu_wrapper::command::{monitor_socket_path, plugin_path, qemu_command};
use qemu_wrapper::text::{push_decimal, push_hex_byte, str_eq};

#[test]
fn builds_the_qemu_command_line() {
    let arguments = ChildArguments {
        ready_for_exit_signal_port: 0xf5,
        exit_port: 0xf4,
        guest_architecture: "x86_64".to_string(),
        qemu_arguments: vec!["-nographic".to_string(), "-no-reboot".to_string()],
    };
    let command = qemu_command(arguments, "monitor-12.sock", "libqemu_plugin_ready.so", 5);
    assert_eq!(command.program, "qemu-system-x86_64");
    assert_eq!(
        command.arguments,
        vec![
            "-chardev",
            "socket,id=mon0,path=monitor-12.sock,server=off",
            "-mon",
            "chardev=mon0",
            "-device",
            "isa-debug-exit,iobase=0xf4,iosize=0x01",
            "-plugin",
            "libqemu_plugin_ready.so,port=245,fd=5",
            "-nographic",
            "-no-reboot",
        ]
    );
}

#[test]
fn small_ports_are_zero_padded() {
    let arguments = ChildArguments {
        ready_for_exit_signal_port: 0,
        exit_port: 0x7,
        guest_architecture: "riscv64".to_string(),
        qemu_arguments: Vec::new(),
    };
    let command = qemu_command(arguments, "m", "p", 0);
    assert_eq!(command.program, "qemu-system-riscv64");
    assert_eq!(command.arguments[5], "isa-debug-exit,iobase=0x07,iosize=0x01");
    assert_eq!(command.arguments[7], "p,port=0,fd=0");
    assert_eq!(command.arguments.len(), 8);
}

#[test]
fn monitor_socket_names() {
    assert_eq!(monitor_socket_path(0), "monitor-0.sock");
    assert_eq!(monitor_socket_path(4242), "monitor-4242.sock");
    assert_eq!(monitor_socket_path(u32::MAX), "monitor-4294967295.sock");
}

#[test]
fn plugin_paths() {
    assert_eq!(plugin_path(None, "so"), "libqemu_plugin_ready.so");
    assert_eq!(plugin_path(None, "dylib"), "libqemu_plugin_ready.dylib");
    assert_eq!(plugin_path(None, ""), "libqemu_plugin_ready");
    assert_eq!(plugin_path(Some("/opt/lib"), "so"), "/opt/lib/libqemu_plugin_ready.so");
    assert_eq!(plugin_path(Some("/opt/lib/"), "so"), "/opt/lib/libqemu_plugin_ready.so");
    assert_eq!(plugin_path(Some(""), "so"), "libqemu_plugin_ready.so");
}

#[test]
fn number_rendering() {
    for (value, expected) in [(0u8, "0x00"), (0x0a, "0x0a"), (0xf5, "0xf5"), (0xff, "0xff")] {
        let mut s = String::from(">");
        push_hex_byte(&mut s, value);
        assert_eq!(s, format!(">{expected}"));
        assert_eq!(expected, format!("{value:#04x}"));
    }
    for value in [0u64, 9, 10, 99, 100, 12345, u64::MAX] {
        let mut s = String::new();
        push_decimal(&mut s, value);
        assert_eq!(s, value.to_string());
    }
    assert!(str_eq("abc", "abc"));
    assert!(!str_eq("abc", "abd"));
    assert!(!str_eq("ab", "abc"));
    assert!(str_eq("", ""));
}
