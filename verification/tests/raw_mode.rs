use qemu_wrapper::raw_mode::{raw_attributes, TerminalAttributes, ISIG};

// Linux flag values
const ICANON: u32 = 0o2;
const ECHO: u32 = 0o10;
const OPOST: u32 = 0o1;
const ICRNL: u32 = 0o400;
const CS8: u32 = 0o60;

fn cooked(local_flags: u32) -> TerminalAttributes {
    TerminalAttributes {
        input_flags: ICRNL,
        output_flags: OPOST,
        control_flags: 0,
        local_flags,
        line: 0,
        control_chars: [3; 32],
        input_speed: 15,
        output_speed: 15,
    }
}

#[test]
fn raw_mode_keeps_isig_from_the_original() {
    let raw = raw_attributes(cooked(ISIG | ICANON | ECHO));
    assert_eq!(raw.local_flags, ISIG);
    assert_eq!(raw.input_flags & ICRNL, 0);
    assert_eq!(raw.output_flags & OPOST, 0);
    assert_eq!(raw.control_flags & CS8, CS8);
    // cfmakeraw reads one byte at a time without a timeout (VTIME at 5, VMIN at 6)
    let mut expected = [3; 32];
    expected[5] = 0;
    expected[6] = 1;
    assert_eq!(raw.control_chars, expected);
    assert_eq!(raw.input_speed, 15);
}

#[test]
fn raw_mode_without_isig_stays_without() {
    let raw = raw_attributes(cooked(ICANON | ECHO));
    assert_eq!(raw.local_flags, 0);
}
