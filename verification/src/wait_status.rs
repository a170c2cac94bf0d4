//! Process wait statuses: decoding the grandchild's raw status, turning QEMU's exit status into
//! the wrapper's, and how a process reproduces a status it waited for.
use nix::sys::wait::WaitStatus as NixWaitStatus;
use nix::unistd::Pid;
use vstd::prelude::*;

verus! {

/// Exit status of a successful run.
pub const EXIT_CODE_SUCCESS: i32 = 0;

/// Exit status of a failed run.
pub const EXIT_CODE_FAILURE: i32 = 1;

/// QEMU's exit status after an ACPI powerdown (the guest shut down without reporting an outcome).
pub const EXIT_CODE_QEMU_POWERDOWN: i32 = 0;

/// A state change of a waited-for process; process ids and signal numbers are raw integers.
#[derive(Clone, Copy, PartialEq, Eq, Structural, Debug)]
pub enum WaitStatus {
    /// Exited normally (process id, exit status).
    Exited(i32, i32),
    /// Killed by a signal (process id, signal, whether it dumped core).
    Signaled(i32, i32, bool),
    /// Stopped by a signal (process id, signal).
    Stopped(i32, i32),
    /// Stopped by a ptrace event (process id, signal, event).
    PtraceEvent(i32, i32, i32),
    /// Stopped at a system call under ptrace (process id).
    PtraceSyscall(i32),
    /// Resumed after a stop (process id).
    Continued(i32),
    /// No state change to report yet.
    StillAlive,
}

/// A raw `wait` status passes one of Linux's four tests: `WIFEXITED` (`raw & 0x7f == 0`),
/// `WIFSIGNALED` (`((raw & 0x7f) + 1) as i8 >= 2`, that is, the low seven bits are neither 0 nor
/// 0x7f), `WIFSTOPPED` (`raw & 0xff == 0x7f`) or `WIFCONTINUED` (`raw == 0xffff`). Every status
/// that the kernel reports passes one.
pub open spec fn decodable_wait_status(raw: i32) -> bool {
    ||| raw & 0x7f == 0
    ||| (raw & 0x7f != 0 && raw & 0x7f != 0x7f)
    ||| raw & 0xff == 0x7f
    ||| raw == 0xffff
}

/// Whether a raw `wait` status passes one of Linux's four wait tests (see
/// `decodable_wait_status`).
pub fn is_decodable_wait_status(raw: i32) -> (r: bool)
    ensures
        r == decodable_wait_status(raw),
{
    raw & 0x7f == 0 || (raw & 0x7f != 0 && raw & 0x7f != 0x7f) || raw & 0xff == 0x7f || raw
        == 0xffff
}

/// The exit status that Linux's `WEXITSTATUS` reads from a raw `wait` status.
pub open spec fn raw_exit_status(raw: i32) -> i32 {
    (raw >> 8) & 0xff
}

/// What `nix::sys::wait::WaitStatus::from_raw` decodes from a raw `wait` status for a process id
/// (`None` where it reports an invalid status). The decoding is the platform's `W*` macros.
pub uninterp spec fn decoded_wait_status(pid: i32, raw: i32) -> Option<WaitStatus>;

/// Decodes a raw `wait` status with `nix::sys::wait::WaitStatus::from_raw`, which asserts (and
/// panics) on a status that fails all four wait tests, hence the `requires`. The contract states
/// that the result is `decoded_wait_status` of the two arguments and, for an exited process,
/// what nix returns (`Exited` with `WEXITSTATUS`); it leaves unsaid how the other tests and
/// signal numbers decode.
#[verifier::external_body]
fn wait_status_from_raw(pid: i32, raw: i32) -> (r: Option<WaitStatus>)
    requires
        decodable_wait_status(raw),
    ensures
        r == decoded_wait_status(pid, raw),
        raw & 0x7f == 0 ==> r == Some(WaitStatus::Exited(pid, raw_exit_status(raw))),
{
    Some(match NixWaitStatus::from_raw(Pid::from_raw(pid), raw).ok()? {
        NixWaitStatus::Exited(p, c) => WaitStatus::Exited(p.as_raw(), c),
        NixWaitStatus::Signaled(p, s, d) => WaitStatus::Signaled(p.as_raw(), s as i32, d),
        NixWaitStatus::Stopped(p, s) => WaitStatus::Stopped(p.as_raw(), s as i32),
        NixWaitStatus::PtraceEvent(p, s, e) => WaitStatus::PtraceEvent(p.as_raw(), s as i32, e),
        NixWaitStatus::PtraceSyscall(p) => WaitStatus::PtraceSyscall(p.as_raw()),
        NixWaitStatus::Continued(p) => WaitStatus::Continued(p.as_raw()),
        NixWaitStatus::StillAlive => WaitStatus::StillAlive,
    })
}

/// The wrapper's status for QEMU's status: a plain powerdown (exit 0) is a failure, the guest's
/// configured exit code is success, anything else passes through.
pub open spec fn spec_grandchild_status(status: WaitStatus, exit_code: i32) -> WaitStatus {
    match status {
        WaitStatus::Exited(pid, code) => if code == EXIT_CODE_QEMU_POWERDOWN {
            WaitStatus::Exited(pid, EXIT_CODE_FAILURE)
        } else if code == exit_code {
            WaitStatus::Exited(pid, EXIT_CODE_SUCCESS)
        } else {
            status
        },
        _ => status,
    }
}

/// Maps QEMU's status to the wrapper's (see `spec_grandchild_status`).
pub fn grandchild_status(status: WaitStatus, exit_code: i32) -> (r: WaitStatus)
    ensures
        r == spec_grandchild_status(status, exit_code),
{
    match status {
        WaitStatus::Exited(pid, code) => if code == EXIT_CODE_QEMU_POWERDOWN {
            WaitStatus::Exited(pid, EXIT_CODE_FAILURE)
        } else if code == exit_code {
            WaitStatus::Exited(pid, EXIT_CODE_SUCCESS)
        } else {
            status
        },
        _ => status,
    }
}

/// Decodes QEMU's raw status and maps it to the wrapper's; `None` where nix reports the status
/// invalid.
pub fn grandchild_wait_status(pid: i32, raw: i32, exit_code: i32) -> (r: Option<WaitStatus>)
    requires
        decodable_wait_status(raw),
    ensures
        r == (match decoded_wait_status(pid, raw) {
            Some(s) => Some(spec_grandchild_status(s, exit_code)),
            None => None,
        }),
        raw & 0x7f == 0 ==> r == Some(
            spec_grandchild_status(WaitStatus::Exited(pid, raw_exit_status(raw)), exit_code),
        ),
{
    match wait_status_from_raw(pid, raw) {
        Some(s) => Some(grandchild_status(s, exit_code)),
        None => None,
    }
}

/// How a process reproduces a status that it waited for.
#[derive(Clone, Copy, PartialEq, Eq, Structural, Debug)]
pub enum MimicAction {
    /// Exit with this status.
    Exit(i32),
    /// Run the default handler of this (fatal) signal; if the process survives, that is an error.
    EmulateDefaultHandler(i32),
    /// Neither exited nor killed: an error.
    Unexpected(WaitStatus),
}

/// How to end this process the way the waited-for process ended.
pub fn mimic_wait_status(status: WaitStatus) -> (r: MimicAction)
    ensures
        r == (match status {
            WaitStatus::Exited(_, code) => MimicAction::Exit(code),
            WaitStatus::Signaled(_, signal, _) => MimicAction::EmulateDefaultHandler(signal),
            _ => MimicAction::Unexpected(status),
        }),
{
    match status {
        WaitStatus::Exited(_, code) => MimicAction::Exit(code),
        WaitStatus::Signaled(_, signal, _) => MimicAction::EmulateDefaultHandler(signal),
        _ => MimicAction::Unexpected(status),
    }
}

/// What the parent does with a status that `waitpid(.., WNOHANG)` reported for its child:
/// `None` to keep waiting (still alive), otherwise the status to return.
pub fn child_status_outcome(status: WaitStatus) -> (r: Option<WaitStatus>)
    ensures
        r == (if status is StillAlive {
            None
        } else {
            Some(status)
        }),
{
    match status {
        WaitStatus::StillAlive => None,
        _ => Some(status),
    }
}

} // verus!

verus! {

/// The wrapper reports success exactly when QEMU exited with the configured, non-zero exit code;
/// a plain powerdown (exit 0) is reported as a failure; other statuses pass through unchanged.
pub proof fn law_success_exactly_on_configured_exit(status: WaitStatus, exit_code: i32)
    ensures
        (spec_grandchild_status(status, exit_code) matches WaitStatus::Exited(_, c) && c
            == EXIT_CODE_SUCCESS) <==> (status matches WaitStatus::Exited(_, c) && c
            == exit_code as i32 && c != EXIT_CODE_QEMU_POWERDOWN),
        forall|pid: i32|
            status == WaitStatus::Exited(pid, EXIT_CODE_QEMU_POWERDOWN) ==> spec_grandchild_status(
                status,
                exit_code,
            ) == WaitStatus::Exited(pid, EXIT_CODE_FAILURE),
        !(status is Exited) ==> spec_grandchild_status(status, exit_code) == status,
{
}

/// Any exit status other than QEMU's powerdown (0) and the configured exit code reaches the
/// wrapper unchanged, with the same process id.
pub proof fn law_other_exit_codes_pass_through(pid: i32, code: i32, exit_code: i32)
    requires
        code != 0,
        code != exit_code,
    ensures
        spec_grandchild_status(WaitStatus::Exited(pid, code), exit_code) == WaitStatus::Exited(
            pid,
            code,
        ),
{
}

/// The configured exit code (unless it is 0) becomes the wrapper's success, 0; QEMU's own exit 0
/// becomes the failure 1.
pub proof fn law_configured_code_succeeds_and_powerdown_fails(pid: i32, exit_code: i32)
    ensures
        exit_code != 0 ==> spec_grandchild_status(WaitStatus::Exited(pid, exit_code), exit_code)
            == WaitStatus::Exited(pid, 0),
        spec_grandchild_status(WaitStatus::Exited(pid, 0), exit_code) == WaitStatus::Exited(pid, 1),
{
}

/// The statuses that the kernel reports all decode: an exit with any code 0..=255, a kill by
/// any signal 1..=126 (with or without a core dump), a stop by any signal, a continue; a status
/// whose low byte is all ones (other than the continue status) does not. An exit status reads
/// back as its code.
pub proof fn law_reported_statuses_decode(code: i32, signal: i32)
    ensures
        0 <= code <= 255 ==> decodable_wait_status(code << 8) && raw_exit_status(code << 8)
            == code,
        1 <= signal <= 126 ==> decodable_wait_status(signal) && decodable_wait_status(
            signal | 0x80,
        ),
        0 <= signal <= 255 ==> decodable_wait_status((signal << 8) | 0x7f),
        decodable_wait_status(0xffff),
        !decodable_wait_status(0xff),
        !decodable_wait_status(-1i32),
{
    if 0 <= code <= 255 {
        assert((code << 8) & 0x7f == 0 && ((code << 8) >> 8) & 0xff == code) by (bit_vector)
            requires
                0 <= code <= 255,
        ;
    }
    if 1 <= signal <= 126 {
        assert(signal & 0x7f != 0 && signal & 0x7f != 0x7f && (signal | 0x80) & 0x7f != 0 && (
        signal | 0x80) & 0x7f != 0x7f) by (bit_vector)
            requires
                1 <= signal <= 126,
        ;
    }
    if 0 <= signal <= 255 {
        assert(((signal << 8) | 0x7f) & 0xff == 0x7f) by (bit_vector)
            requires
                0 <= signal <= 255,
        ;
    }
    assert(0xffffi32 & 0x7f == 0x7f && 0xffi32 & 0x7f == 0x7f && 0xffi32 & 0xff == 0xff
        && (-1i32) & 0x7f == 0x7f && (-1i32) & 0xff == 0xff) by (bit_vector);
}

} // verus!
