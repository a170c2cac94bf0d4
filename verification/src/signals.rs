//! The signals that the wrapper handles, and what its parent process does with each.
use vstd::prelude::*;

verus! {

/// A delivered signal, by its role for the wrapper.
#[derive(Clone, Copy, PartialEq, Eq, Structural, Debug)]
pub enum Signal {
    /// `SIGHUP`
    Hangup,
    /// `SIGINT`
    Interrupt,
    /// `SIGQUIT`
    Quit,
    /// `SIGTERM`
    Terminate,
    /// `SIGCHLD`
    Child,
    /// `SIGTSTP`
    TerminalStop,
    /// `SIGTTIN`
    TerminalInput,
    /// `SIGTTOU`
    TerminalOutput,
    /// Any other signal, by number.
    Other(i32),
}

/// The signals that ask for the guest to be powered down (or, the second time, killed): every
/// signal but those about child state and terminal job control.
pub open spec fn is_termination(signal: Signal) -> bool {
    !(signal is Child || signal is TerminalStop || signal is TerminalInput
        || signal is TerminalOutput)
}

/// The signals that the wrapper blocks before it forks and then handles itself:
/// `SIGHUP`, `SIGINT`, `SIGQUIT`, `SIGTERM` (power the guest down), `SIGCHLD`, `SIGTSTP`,
/// `SIGTTIN` and `SIGTTOU`.
pub open spec fn spec_handled_signals() -> Seq<Signal> {
    seq![
        Signal::Hangup,
        Signal::Interrupt,
        Signal::Quit,
        Signal::Terminate,
        Signal::Child,
        Signal::TerminalStop,
        Signal::TerminalInput,
        Signal::TerminalOutput,
    ]
}

/// The signals that the wrapper blocks and handles (see `spec_handled_signals`).
pub fn handled_signals() -> (r: Vec<Signal>)
    ensures
        r@ == spec_handled_signals(),
{
    let r = vec![
        Signal::Hangup,
        Signal::Interrupt,
        Signal::Quit,
        Signal::Terminate,
        Signal::Child,
        Signal::TerminalStop,
        Signal::TerminalInput,
        Signal::TerminalOutput,
    ];
    assert(r@ =~= spec_handled_signals());
    r
}

/// What the wrapper's parent process does on a signal.
#[derive(Clone, Copy, PartialEq, Eq, Structural, Debug)]
pub enum ParentAction {
    /// Poll the child with `waitpid(WNOHANG)` and return its status once it has one.
    ReapChild,
    /// Send `SIGTSTP` to the child, stop itself, and on resuming send the child `SIGCONT`.
    StopChildThenSelf,
    /// Send the same signal to the child.
    ForwardToChild(Signal),
}

/// The parent's response to a signal: reap on `SIGCHLD`, stop together with the child on
/// `SIGTSTP`, forward anything else to the child.
pub fn parent_signal_action(signal: Signal) -> (r: ParentAction)
    ensures
        r == (match signal {
            Signal::Child => ParentAction::ReapChild,
            Signal::TerminalStop => ParentAction::StopChildThenSelf,
            _ => ParentAction::ForwardToChild(signal),
        }),
{
    match signal {
        Signal::Child => ParentAction::ReapChild,
        Signal::TerminalStop => ParentAction::StopChildThenSelf,
        _ => ParentAction::ForwardToChild(signal),
    }
}

/// The four termination signals of the wrapper are `SIGHUP`, `SIGINT`, `SIGQUIT` and `SIGTERM`
/// (and any signal outside the handled set); child-state and job-control signals are not.
pub proof fn law_termination_signals(number: i32)
    ensures
        is_termination(Signal::Hangup),
        is_termination(Signal::Interrupt),
        is_termination(Signal::Quit),
        is_termination(Signal::Terminate),
        is_termination(Signal::Other(number)),
        !is_termination(Signal::Child),
        !is_termination(Signal::TerminalStop),
        !is_termination(Signal::TerminalInput),
        !is_termination(Signal::TerminalOutput),
        forall|i: int|
            0 <= i < spec_handled_signals().len() ==> !(#[trigger] spec_handled_signals()[i] is Other),
        spec_handled_signals().len() == 8,
        spec_handled_signals().to_set().len() == 8,
{
    let h = spec_handled_signals();
    assert(h.no_duplicates());
    h.unique_seq_to_set();
}

} // verus!
