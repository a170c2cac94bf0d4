//! The decisions of the wrapper's child process, which runs QEMU as its own child (the
//! grandchild) and turns the first termination signal into an ACPI powerdown.
//!
//! The child waits on two descriptors: the monitor socket's listener, until QEMU connects to it,
//! and the read end of a pipe whose write end the ready plugin closes once the guest says it can
//! take an exit signal. A termination signal asks for a powerdown; `system_powerdown` is written
//! to the monitor at each wake-up from then on, once the guest is ready and the monitor is
//! connected. A second termination signal kills QEMU.
use crate::signals::{is_termination, Signal};
use crate::wait_status::{decodable_wait_status, decoded_wait_status, raw_exit_status, grandchild_wait_status, spec_grandchild_status, WaitStatus};
use vstd::prelude::*;

verus! {

/// What the child knows of QEMU's progress and of the requests it received.
#[derive(Clone, Copy, PartialEq, Eq, Structural, Debug)]
pub struct Supervisor {
    /// The monitor listener is still open (QEMU has not connected yet).
    pub listener_open: bool,
    /// QEMU has connected to the monitor socket.
    pub monitor_connected: bool,
    /// The guest has said that it can take an exit signal (the ready pipe was closed).
    pub vm_ready: bool,
    /// A termination signal asked for a powerdown.
    pub powerdown_requested: bool,
    /// QEMU exit status that the guest reports for success.
    pub exit_code: i32,
}

/// What to do with the descriptors that `pselect` found readable.
#[derive(Clone, Copy, PartialEq, Eq, Structural, Debug)]
pub struct DescriptorActions {
    /// Accept QEMU's monitor connection and close the listener.
    pub accept_monitor: bool,
    /// Close the read end of the ready pipe.
    pub close_ready_descriptor: bool,
}

/// What the child does on a signal.
#[derive(Clone, Copy, PartialEq, Eq, Structural, Debug)]
pub enum ChildAction {
    /// Poll QEMU; if it has a status, return the mapped status (`Supervisor::grandchild_status`).
    CheckGrandchild,
    /// Stop QEMU, give the terminal back, stop itself; on resuming take the terminal again and
    /// continue QEMU.
    StopGrandchildAndSelf,
    /// Send this signal to the terminal's foreground process group.
    SignalForegroundGroup(Signal),
    /// Nothing to do.
    Ignore,
    /// Remember that a powerdown was asked for.
    RequestPowerdown,
    /// Kill QEMU.
    KillGrandchild,
}

/// An input to the child's loop.
#[derive(Clone, Copy, PartialEq, Eq, Structural, Debug)]
pub enum Event {
    /// `pselect` returned with the listener and / or the ready pipe readable.
    Descriptors(bool, bool),
    /// A signal arrived; the flag tells whether the wrapper's parent sent it.
    Delivered(Signal, bool),
}

impl Supervisor {
    /// At most one of the listener and the monitor connection exists.
    pub open spec fn wf(self) -> bool {
        !(self.listener_open && self.monitor_connected)
    }

    pub open spec fn spec_new(exit_code: i32) -> Supervisor {
        Supervisor {
            listener_open: true,
            monitor_connected: false,
            vm_ready: false,
            powerdown_requested: false,
            exit_code,
        }
    }

    /// The state right after QEMU was spawned.
    pub fn new(exit_code: i32) -> (r: Supervisor)
        ensures
            r == Supervisor::spec_new(exit_code),
            r.wf(),
    {
        Supervisor {
            listener_open: true,
            monitor_connected: false,
            vm_ready: false,
            powerdown_requested: false,
            exit_code,
        }
    }

    pub open spec fn spec_powerdown_due(self) -> bool {
        self.powerdown_requested && self.vm_ready && self.monitor_connected
    }

    /// Whether to write `system_powerdown` to the monitor now: a powerdown was asked for, the
    /// guest is ready for it and QEMU's monitor is connected.
    pub fn powerdown_due(&self) -> (r: bool)
        ensures
            r == self.spec_powerdown_due(),
    {
        self.powerdown_requested && self.vm_ready && self.monitor_connected
    }

    pub open spec fn spec_on_descriptors(
        self,
        listener_readable: bool,
        ready_readable: bool,
    ) -> Supervisor {
        Supervisor {
            listener_open: self.listener_open && !listener_readable,
            monitor_connected: self.monitor_connected || listener_readable,
            vm_ready: self.vm_ready || ready_readable,
            ..self
        }
    }

    /// Handles readable descriptors: a readable listener means QEMU connected to the monitor;
    /// a readable ready pipe means its write end was closed, the guest is ready.
    pub fn on_descriptors(&mut self, listener_readable: bool, ready_readable: bool) -> (r:
        DescriptorActions)
        requires
            old(self).wf(),
            listener_readable ==> old(self).listener_open,
            ready_readable ==> !old(self).vm_ready,
        ensures
            *final(self) == old(self).spec_on_descriptors(listener_readable, ready_readable),
            final(self).wf(),
            r == (DescriptorActions {
                accept_monitor: listener_readable,
                close_ready_descriptor: ready_readable,
            }),
    {
        if listener_readable {
            self.listener_open = false;
            self.monitor_connected = true;
        }
        if ready_readable {
            self.vm_ready = true;
        }
        DescriptorActions { accept_monitor: listener_readable, close_ready_descriptor: ready_readable }
    }

    pub open spec fn spec_on_signal(self, signal: Signal, sent_by_parent: bool) -> (
        Supervisor,
        ChildAction,
    ) {
        match signal {
            Signal::Child => (self, ChildAction::CheckGrandchild),
            Signal::TerminalStop => if sent_by_parent {
                (self, ChildAction::StopGrandchildAndSelf)
            } else {
                (self, ChildAction::SignalForegroundGroup(Signal::TerminalStop))
            },
            Signal::TerminalInput | Signal::TerminalOutput => (self, ChildAction::Ignore),
            _ => if self.powerdown_requested {
                (self, ChildAction::KillGrandchild)
            } else {
                (Supervisor { powerdown_requested: true, ..self }, ChildAction::RequestPowerdown)
            },
        }
    }

    /// Handles a signal. `SIGCHLD` polls QEMU; `SIGTSTP` from the wrapper's parent (the user's
    /// ctrl+z) stops QEMU and the child, from anyone else it goes to the terminal's foreground
    /// group; `SIGTTIN` / `SIGTTOU` are ignored; any other signal asks for a powerdown the first
    /// time and kills QEMU after that.
    pub fn on_signal(&mut self, signal: Signal, sent_by_parent: bool) -> (r: ChildAction)
        ensures
            (*final(self), r) == old(self).spec_on_signal(signal, sent_by_parent),
    {
        match signal {
            Signal::Child => ChildAction::CheckGrandchild,
            Signal::TerminalStop => if sent_by_parent {
                ChildAction::StopGrandchildAndSelf
            } else {
                ChildAction::SignalForegroundGroup(Signal::TerminalStop)
            },
            Signal::TerminalInput | Signal::TerminalOutput => ChildAction::Ignore,
            _ => if self.powerdown_requested {
                ChildAction::KillGrandchild
            } else {
                self.powerdown_requested = true;
                ChildAction::RequestPowerdown
            },
        }
    }

    /// The status to report for QEMU, from its raw `wait` status (which passes one of the wait
    /// tests): `None` where nix reports it invalid, otherwise the decoded status mapped by
    /// `spec_grandchild_status`.
    pub fn grandchild_status(&self, pid: i32, raw: i32) -> (r: Option<WaitStatus>)
        requires
            decodable_wait_status(raw),
        ensures
            r == (match decoded_wait_status(pid, raw) {
                Some(s) => Some(spec_grandchild_status(s, self.exit_code)),
                None => None,
            }),
            raw & 0x7f == 0 ==> r == Some(
                spec_grandchild_status(WaitStatus::Exited(pid, raw_exit_status(raw)), self.exit_code),
            ),
    {
        grandchild_wait_status(pid, raw, self.exit_code)
    }

    pub open spec fn spec_step(self, event: Event) -> Supervisor {
        match event {
            Event::Descriptors(l, r) => self.spec_on_descriptors(l, r),
            Event::Delivered(signal, by_parent) => self.spec_on_signal(signal, by_parent).0,
        }
    }

    /// The state after the events, in order.
    pub open spec fn spec_run(self, events: Seq<Event>) -> Supervisor
        decreases events.len(),
    {
        if events.len() == 0 {
            self
        } else {
            self.spec_run(events.drop_last()).spec_step(events.last())
        }
    }
}

/// A termination signal.
pub open spec fn is_termination_event(event: Event) -> bool {
    match event {
        Event::Delivered(signal, _) => is_termination(signal),
        _ => false,
    }
}

/// The ready pipe became readable.
pub open spec fn is_ready_event(event: Event) -> bool {
    match event {
        Event::Descriptors(_, ready) => ready,
        _ => false,
    }
}

/// The monitor listener became readable.
pub open spec fn is_connect_event(event: Event) -> bool {
    match event {
        Event::Descriptors(listener, _) => listener,
        _ => false,
    }
}

/// Every step keeps the state well formed (a listener event only while the listener is open),
/// and never takes back a connection, readiness or a powerdown request.
pub proof fn law_steps_preserve_state(s: Supervisor, event: Event)
    requires
        s.wf(),
        event matches Event::Descriptors(l, _) ==> (l ==> s.listener_open),
    ensures
        s.spec_step(event).wf(),
        s.monitor_connected ==> s.spec_step(event).monitor_connected,
        s.vm_ready ==> s.spec_step(event).vm_ready,
        s.powerdown_requested ==> s.spec_step(event).powerdown_requested,
        s.spec_step(event).exit_code == s.exit_code,
{
}

/// The first termination signal asks for a powerdown and does not kill QEMU; the next one kills
/// QEMU.
pub proof fn law_second_termination_signal_kills(
    s: Supervisor,
    first: Signal,
    first_by_parent: bool,
    second: Signal,
    second_by_parent: bool,
)
    requires
        !s.powerdown_requested,
        is_termination(first),
        is_termination(second),
    ensures
        s.spec_on_signal(first, first_by_parent).1 == ChildAction::RequestPowerdown,
        s.spec_on_signal(first, first_by_parent).0.powerdown_requested,
        s.spec_on_signal(first, first_by_parent).0.spec_on_signal(second, second_by_parent).1
            == ChildAction::KillGrandchild,
{
}

/// Job-control and child-state signals leave the state as it was.
pub proof fn law_job_control_keeps_state(s: Supervisor, signal: Signal, sent_by_parent: bool)
    requires
        !is_termination(signal),
    ensures
        s.spec_on_signal(signal, sent_by_parent).0 == s,
{
}

/// From the start, `system_powerdown` comes due only after a termination signal, after QEMU
/// connected to the monitor and after the guest said it is ready.
pub proof fn law_powerdown_needs_request_connection_and_ready(exit_code: i32, events: Seq<Event>)
    ensures
        Supervisor::spec_new(exit_code).spec_run(events).spec_powerdown_due() ==> (exists|i: int|
            0 <= i < events.len() && is_termination_event(#[trigger] events[i])) && (exists|i: int|
            0 <= i < events.len() && is_ready_event(#[trigger] events[i]))
            && (exists|i: int|
            0 <= i < events.len() && is_connect_event(#[trigger] events[i])),
    decreases events.len(),
{
    lemma_run_flags_have_causes(exit_code, events);
}

proof fn lemma_run_flags_have_causes(exit_code: i32, events: Seq<Event>)
    ensures
        ({
            let s = Supervisor::spec_new(exit_code).spec_run(events);
            &&& s.powerdown_requested ==> exists|i: int|
                0 <= i < events.len() && is_termination_event(#[trigger] events[i])
            &&& s.vm_ready ==> exists|i: int|
                0 <= i < events.len() && is_ready_event(#[trigger] events[i])
            &&& s.monitor_connected ==> exists|i: int|
                0 <= i < events.len() && is_connect_event(#[trigger] events[i])
        }),
    decreases events.len(),
{
    if events.len() > 0 {
        let prefix = events.drop_last();
        lemma_run_flags_have_causes(exit_code, prefix);
        let before = Supervisor::spec_new(exit_code).spec_run(prefix);
        let last = events.len() - 1;
        assert(events[last] == events.last());
        if before.powerdown_requested {
            let i = choose|i: int|
                0 <= i < prefix.len() && is_termination_event(#[trigger] prefix[i]);
            assert(events[i] == prefix[i]);
        }
        if before.vm_ready {
            let i = choose|i: int|
                0 <= i < prefix.len() && is_ready_event(#[trigger] prefix[i]);
            assert(events[i] == prefix[i]);
        }
        if before.monitor_connected {
            let i = choose|i: int|
                0 <= i < prefix.len() && is_connect_event(#[trigger] prefix[i]);
            assert(events[i] == prefix[i]);
        }
    }
}

} // verus!

verus! {

proof fn lemma_run_flags_set_by_events(exit_code: i32, events: Seq<Event>)
    ensures
        ({
            let s = Supervisor::spec_new(exit_code).spec_run(events);
            &&& (exists|i: int| 0 <= i < events.len() && is_termination_event(#[trigger] events[i]))
                ==> s.powerdown_requested
            &&& (exists|i: int| 0 <= i < events.len() && is_ready_event(#[trigger] events[i]))
                ==> s.vm_ready
            &&& (exists|i: int| 0 <= i < events.len() && is_connect_event(#[trigger] events[i]))
                ==> s.monitor_connected
        }),
    decreases events.len(),
{
    if events.len() > 0 {
        let prefix = events.drop_last();
        let last = events.len() - 1;
        lemma_run_flags_set_by_events(exit_code, prefix);
        assert(events[last] == events.last());
        assert forall|i: int| 0 <= i < last implies #[trigger] events[i] == prefix[i] by {}
        if exists|i: int| 0 <= i < events.len() && is_termination_event(#[trigger] events[i]) {
            let i = choose|i: int| 0 <= i < events.len() && is_termination_event(#[trigger] events[i]);
            if i < last {
                assert(is_termination_event(prefix[i]));
            }
        }
        if exists|i: int| 0 <= i < events.len() && is_ready_event(#[trigger] events[i]) {
            let i = choose|i: int| 0 <= i < events.len() && is_ready_event(#[trigger] events[i]);
            if i < last {
                assert(is_ready_event(prefix[i]));
            }
        }
        if exists|i: int| 0 <= i < events.len() && is_connect_event(#[trigger] events[i]) {
            let i = choose|i: int| 0 <= i < events.len() && is_connect_event(#[trigger] events[i]);
            if i < last {
                assert(is_connect_event(prefix[i]));
            }
        }
    }
}

/// A termination signal, QEMU's monitor connection and the guest's ready signal, in any order
/// and among any other events, make `system_powerdown` due.
pub proof fn law_request_connection_and_ready_make_powerdown_due(
    exit_code: i32,
    events: Seq<Event>,
    termination: int,
    ready: int,
    connect: int,
)
    requires
        0 <= termination < events.len() && is_termination_event(events[termination]),
        0 <= ready < events.len() && is_ready_event(events[ready]),
        0 <= connect < events.len() && is_connect_event(events[connect]),
    ensures
        Supervisor::spec_new(exit_code).spec_run(events).spec_powerdown_due(),
{
    lemma_run_flags_set_by_events(exit_code, events);
}

/// Each listener event comes while the listener is still open (the child only waits on an open
/// listener).
pub open spec fn admissible(s: Supervisor, events: Seq<Event>) -> bool
    decreases events.len(),
{
    if events.len() == 0 {
        true
    } else {
        admissible(s, events.drop_last()) && (is_connect_event(events.last()) ==> s.spec_run(
            events.drop_last(),
        ).listener_open)
    }
}

/// The number of listener events.
pub open spec fn connect_count(events: Seq<Event>) -> nat
    decreases events.len(),
{
    if events.len() == 0 {
        0
    } else {
        connect_count(events.drop_last()) + if is_connect_event(events.last()) {
            1nat
        } else {
            0nat
        }
    }
}

/// From the start, over events that only report the listener while it is open, the monitor
/// connection is accepted at most once: the listener is open exactly until the first accept,
/// and connected exactly after it.
pub proof fn law_monitor_accepted_at_most_once(exit_code: i32, events: Seq<Event>)
    requires
        admissible(Supervisor::spec_new(exit_code), events),
    ensures
        connect_count(events) <= 1,
        Supervisor::spec_new(exit_code).spec_run(events).listener_open <==> connect_count(events)
            == 0,
        Supervisor::spec_new(exit_code).spec_run(events).monitor_connected <==> connect_count(
            events,
        ) == 1,
        Supervisor::spec_new(exit_code).spec_run(events).wf(),
    decreases events.len(),
{
    if events.len() > 0 {
        law_monitor_accepted_at_most_once(exit_code, events.drop_last());
    }
}

/// `SIGCHLD` always polls QEMU, whatever was requested or reported before and whoever sent it.
pub proof fn law_child_signal_always_polls(s: Supervisor, sent_by_parent: bool)
    ensures
        s.spec_on_signal(Signal::Child, sent_by_parent).1 == ChildAction::CheckGrandchild,
        s.spec_on_signal(Signal::Child, sent_by_parent).0 == s,
{
}

/// Job control: `SIGTSTP` from the wrapper's parent stops QEMU and the child, from anyone else it
/// goes on to the terminal's foreground group; `SIGTTIN` and `SIGTTOU` are ignored; in every
/// state.
pub proof fn law_job_control_actions(s: Supervisor, sent_by_parent: bool)
    ensures
        s.spec_on_signal(Signal::TerminalStop, true).1 == ChildAction::StopGrandchildAndSelf,
        s.spec_on_signal(Signal::TerminalStop, false).1 == ChildAction::SignalForegroundGroup(
            Signal::TerminalStop,
        ),
        s.spec_on_signal(Signal::TerminalInput, sent_by_parent).1 == ChildAction::Ignore,
        s.spec_on_signal(Signal::TerminalOutput, sent_by_parent).1 == ChildAction::Ignore,
{
}

/// Readable descriptors record exactly what they report: a readable listener means the monitor
/// is connected and the listener closed, a readable ready pipe means the guest is ready; nothing
/// else changes and nothing already known is forgotten.
pub proof fn law_descriptors_record_events(s: Supervisor, listener: bool, ready: bool)
    ensures
        listener ==> s.spec_on_descriptors(listener, ready).monitor_connected
            && !s.spec_on_descriptors(listener, ready).listener_open,
        ready ==> s.spec_on_descriptors(listener, ready).vm_ready,
        !listener ==> s.spec_on_descriptors(listener, ready).listener_open == s.listener_open
            && s.spec_on_descriptors(listener, ready).monitor_connected == s.monitor_connected,
        !ready ==> s.spec_on_descriptors(listener, ready).vm_ready == s.vm_ready,
        s.spec_on_descriptors(listener, ready).powerdown_requested == s.powerdown_requested,
        s.spec_on_descriptors(listener, ready).exit_code == s.exit_code,
{
}

/// A termination signal changes nothing but the powerdown request, which it sets.
pub proof fn law_termination_signal_only_requests_powerdown(
    s: Supervisor,
    signal: Signal,
    sent_by_parent: bool,
)
    requires
        is_termination(signal),
    ensures
        s.spec_on_signal(signal, sent_by_parent).0 == (Supervisor { powerdown_requested: true, ..s }),
        !s.powerdown_requested ==> s.spec_on_signal(signal, sent_by_parent).1
            == ChildAction::RequestPowerdown,
        s.powerdown_requested ==> s.spec_on_signal(signal, sent_by_parent).1
            == ChildAction::KillGrandchild,
{
}

} // verus!
