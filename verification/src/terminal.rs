//! The wrapper child's use of the controlling terminal: it takes the terminal's foreground for
//! QEMU's process group, and gives it back (with the saved attributes) when it stops or ends.
use vstd::prelude::*;

verus! {

/// What the child remembers of the terminal it started on.
#[derive(Clone, Copy, PartialEq, Eq, Structural, Debug)]
pub struct TerminalGuard {
    /// The terminal's foreground process group when the child started; `None` when standard
    /// input is not a terminal.
    pub foreground_process_group: Option<i32>,
}

impl TerminalGuard {
    pub fn new(foreground_process_group: Option<i32>) -> (r: TerminalGuard)
        ensures
            r.foreground_process_group == foreground_process_group,
    {
        TerminalGuard { foreground_process_group }
    }

    pub open spec fn spec_move_to_foreground(self, process_group: i32) -> Option<i32> {
        match self.foreground_process_group {
            Some(f) => if f != process_group {
                Some(process_group)
            } else {
                None
            },
            None => None,
        }
    }

    /// The group to make the terminal's foreground group (with `SIGTTOU` blocked), if any: this
    /// process's group, unless it already was the foreground group or there is no terminal.
    pub fn move_to_foreground(&self, process_group: i32) -> (r: Option<i32>)
        ensures
            r == self.spec_move_to_foreground(process_group),
    {
        match self.foreground_process_group {
            Some(f) => if f != process_group {
                Some(process_group)
            } else {
                None
            },
            None => None,
        }
    }

    pub open spec fn spec_reset(self, terminal_foreground: i32, process_group: i32) -> Option<i32> {
        match self.foreground_process_group {
            Some(f) => if terminal_foreground == process_group {
                Some(f)
            } else {
                None
            },
            None => None,
        }
    }

    /// Whether to give the terminal back, and to which group: only while this process's group
    /// holds the terminal's foreground (`terminal_foreground`); then the saved attributes are
    /// restored and the original foreground group is returned.
    pub fn reset(&self, terminal_foreground: i32, process_group: i32) -> (r: Option<i32>)
        ensures
            r == self.spec_reset(terminal_foreground, process_group),
    {
        match self.foreground_process_group {
            Some(f) => if terminal_foreground == process_group {
                Some(f)
            } else {
                None
            },
            None => None,
        }
    }

    /// The group to forward a job-control signal to: the terminal's original foreground group,
    /// if there is a terminal.
    pub fn signal_foreground_process_group(&self) -> (r: Option<i32>)
        ensures
            r == self.foreground_process_group,
    {
        self.foreground_process_group
    }
}

/// Giving the terminal back undoes taking it: after the child's group was made the foreground
/// group, a reset hands it back to the group that had it before.
pub proof fn law_reset_undoes_move_to_foreground(guard: TerminalGuard, process_group: i32)
    requires
        guard.spec_move_to_foreground(process_group) == Some(process_group),
    ensures
        guard.spec_reset(process_group, process_group) == guard.foreground_process_group,
        guard.foreground_process_group != Some(process_group),
{
}

/// Without a terminal nothing is ever moved, reset or signalled. With one, the child's group is
/// made the foreground group exactly when it is not the original foreground group, the terminal
/// is given back to the original group exactly while the child's group holds it, and job-control
/// signals go to the original group.
pub proof fn law_terminal_decisions(guard: TerminalGuard, terminal_foreground: i32, process_group: i32)
    ensures
        guard.foreground_process_group is None ==> guard.spec_move_to_foreground(process_group)
            is None && guard.spec_reset(terminal_foreground, process_group) is None,
        forall|f: i32|
            guard.foreground_process_group == Some(f) ==> (guard.spec_move_to_foreground(
                process_group,
            ) == if f == process_group {
                None
            } else {
                Some(process_group)
            }) && (guard.spec_reset(terminal_foreground, process_group) == if terminal_foreground
                == process_group {
                Some(f)
            } else {
                None
            }),
        guard.spec_move_to_foreground(process_group) matches Some(g) ==> g == process_group,
        guard.spec_reset(terminal_foreground, process_group) matches Some(g) ==> Some(g)
            == guard.foreground_process_group,
{
}

} // verus!
