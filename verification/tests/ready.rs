use qemu_wrapper::ready::{ArgValue, ConfigureError, PluginArgument, Ready, TARGET};

fn integer(name: &str, value: i64) -> PluginArgument {
    PluginArgument { name: name.to_string(), value: ArgValue::Integer(value) }
}

#[test]
fn configure() {
    let mut ready = Ready::new();
    let result = ready.configure(&vec![integer("port", 0xff), integer("fd", 3)], TARGET);
    assert!(result.is_ok(), "configure");
    assert_eq!(ready.opcode, [0xe6, 0xff]);
    assert_eq!(ready.fd, Some(3));
}

#[test]
fn configure_only_once() {
    let mut ready = Ready::new();
    assert!(ready.configure(&vec![integer("fd", 5), integer("port", 0xf5)], "x86_64").is_ok());
    match ready.configure(&vec![integer("port", 1), integer("fd", 6)], "x86_64") {
        Err(ConfigureError::AlreadyConfigured) => {}
        _ => panic!("expected already configured"),
    }
    assert_eq!(ready.opcode, [0xe6, 0xf5]);
    assert_eq!(ready.fd, Some(5));
}

#[test]
fn configure_errors_leave_the_plugin_unconfigured() {
    let cases: Vec<(Vec<PluginArgument>, &str)> = vec![
        (vec![integer("port", 1), integer("fd", 3)], "aarch64"),
        (vec![PluginArgument { name: "port".into(), value: ArgValue::Bool(true) }], TARGET),
        (vec![PluginArgument { name: "fd".into(), value: ArgValue::Text("x".into()) }], TARGET),
        (vec![integer("port", 256)], TARGET),
        (vec![integer("port", -1)], TARGET),
        (vec![integer("fd", 1 << 31)], TARGET),
        (vec![integer("fd", -1)], TARGET),
        (vec![integer("speed", 1)], TARGET),
        (vec![integer("port", 1), integer("port", 2)], TARGET),
        (vec![integer("fd", 1), integer("fd", 2)], TARGET),
        (vec![integer("fd", 1)], TARGET),
        (vec![integer("port", 1)], TARGET),
    ];
    for (index, (arguments, target)) in cases.iter().enumerate() {
        let mut ready = Ready::new();
        let error = match ready.configure(arguments, target) {
            Err(error) => error,
            Ok(()) => panic!("case {index} configured"),
        };
        let matches = match (index, &error) {
            (0, ConfigureError::UnexpectedTarget(t)) => t == "aarch64",
            (1, ConfigureError::NonInteger(n)) => n == "port",
            (2, ConfigureError::NonInteger(n)) => n == "fd",
            (3, ConfigureError::PortOutOfRange(n)) | (4, ConfigureError::PortOutOfRange(n)) => {
                n == "port"
            }
            (5, ConfigureError::DescriptorTooLarge(n)) => n == "fd",
            (6, ConfigureError::DescriptorNegative(n)) => n == "fd",
            (7, ConfigureError::Unknown(n)) => n == "speed",
            (8, ConfigureError::Duplicate(n)) => n == "port",
            (9, ConfigureError::Duplicate(n)) => n == "fd",
            (10, ConfigureError::MissingPort) => true,
            (11, ConfigureError::MissingDescriptor) => true,
            _ => false,
        };
        assert!(matches, "case {index}");
        assert_eq!(ready.opcode, [0, 0]);
        assert_eq!(ready.fd, None);
    }
}

#[test]
fn first_bad_argument_is_reported() {
    let mut ready = Ready::new();
    match ready.configure(&vec![integer("speed", 1), integer("port", 300)], TARGET) {
        Err(ConfigureError::Unknown(n)) => assert_eq!(n, "speed"),
        _ => panic!("expected unknown argument"),
    }
}

#[test]
fn recognizes_only_the_configured_out_instruction() {
    let mut ready = Ready::new();
    assert!(ready.configure(&vec![integer("port", 0xf5), integer("fd", 4)], TARGET).is_ok());
    assert!(ready.is_ready_instruction(2, 2, [0xe6, 0xf5]));
    assert!(!ready.is_ready_instruction(2, 2, [0xe6, 0xf4]));
    assert!(!ready.is_ready_instruction(2, 2, [0xe7, 0xf5]));
    assert!(!ready.is_ready_instruction(3, 2, [0xe6, 0xf5]));
    assert!(!ready.is_ready_instruction(2, 1, [0xe6, 0xf5]));
}

#[test]
fn ready_descriptor_is_handed_out_once() {
    let mut ready = Ready::new();
    assert!(ready.configure(&vec![integer("port", 0xf5), integer("fd", 4)], TARGET).is_ok());
    assert_eq!(ready.take_ready_descriptor(), Some(4));
    assert_eq!(ready.take_ready_descriptor(), None);
    assert_eq!(ready.opcode, [0xe6, 0xf5]);
}
