//! Raw terminal mode that keeps the terminal's choice of generating signals from keys.
use nix::libc::termios as LibcTermios;
use nix::sys::termios::{cfmakeraw, Termios};
use vstd::prelude::*;

verus! {

/// Linux's `ISIG` local flag: the terminal turns interrupt, quit and suspend keys into signals.
pub const ISIG: u32 = 1;

/// A terminal's attributes as plain values (Linux's `struct termios`).
#[derive(Clone, Copy)]
pub struct TerminalAttributes {
    pub input_flags: u32,
    pub output_flags: u32,
    pub control_flags: u32,
    pub local_flags: u32,
    pub line: u8,
    pub control_chars: [u8; 32],
    pub input_speed: u32,
    pub output_speed: u32,
}

/// What `nix::sys::termios::cfmakeraw` (the C library's `cfmakeraw`) makes of the attributes.
pub uninterp spec fn made_raw(attributes: TerminalAttributes) -> TerminalAttributes;

/// Calls `nix::sys::termios::cfmakeraw` on the attributes; the contract states only that the
/// result is `made_raw` of them (which flags the C library clears and sets is left unsaid).
#[verifier::external_body]
fn make_raw(a: TerminalAttributes) -> (r: TerminalAttributes)
    ensures
        r == made_raw(a),
{
    let mut t = Termios::from(LibcTermios {
        c_iflag: a.input_flags, c_oflag: a.output_flags, c_cflag: a.control_flags,
        c_lflag: a.local_flags, c_line: a.line, c_cc: a.control_chars,
        c_ispeed: a.input_speed, c_ospeed: a.output_speed,
    });
    cfmakeraw(&mut t);
    let r = LibcTermios::from(t);
    TerminalAttributes {
        input_flags: r.c_iflag, output_flags: r.c_oflag, control_flags: r.c_cflag,
        local_flags: r.c_lflag, line: r.c_line, control_chars: r.c_cc,
        input_speed: r.c_ispeed, output_speed: r.c_ospeed,
    }
}

/// The attributes that put a terminal in raw mode: `cfmakeraw` of the original attributes, with
/// the original `ISIG` flag kept, so keys still raise signals where they did before.
pub fn raw_attributes(original: TerminalAttributes) -> (r: TerminalAttributes)
    ensures
        r == (TerminalAttributes {
            local_flags: made_raw(original).local_flags | (original.local_flags & ISIG),
            ..made_raw(original)
        }),
{
    let mut raw = make_raw(original);
    raw.local_flags = raw.local_flags | (original.local_flags & ISIG);
    raw
}

} // verus!
