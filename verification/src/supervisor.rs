//! The process supervisor: the event-loop state machine that owns the
//! supervised command's lifecycle, and the exit translator.
//!
//! The loop itself (blocking on descriptors, signals and wait statuses)
//! lives outside the library; every decision it takes is the total
//! transition function [`spec_step`], carried out by
//! [`Supervisor::handle_event`]. One event is processed per wake, so the
//! reachable states are exactly the iterates of `spec_step`, and the
//! session-wide guarantees are proved over arbitrary event sequences.

use vstd::prelude::*;

use crate::signal::{
    catchable, sent_by_child, spec_classify, classify, SignalAction, SignalEvent, SIGWINCH,
};
use crate::terminal::{
    pty_disengaged, pty_engaged, pty_resized, pty_restored, PtyModel, PtySession, TermSize,
};

verus! {

/// The run state of the supervised command.
#[derive(Debug, Clone, Copy, PartialEq, Eq, Structural)]
pub enum ChildState {
    /// Forked; credentials and terminal being applied; exec not reached.
    Starting,
    /// Past its exec point and running.
    Running,
    /// Stopped by the given signal.
    Stopped(i32),
    /// Exited on its own with the given code.
    Exited(i32),
    /// Terminated by the given uncaught signal.
    KilledBySignal(i32),
}

/// The child exists as a process (its group can still be signalled).
pub open spec fn live(c: ChildState) -> bool {
    c is Starting || c is Running || c is Stopped
}

/// What the supervisor's own exit must look like to its parent shell.
#[derive(Debug, Clone, Copy, PartialEq, Eq, Structural)]
pub enum ExitDisposition {
    /// Exit with this code.
    Code(i32),
    /// Die by this signal (not merely a mapped code), after cleanup.
    Signal(i32),
}

/// What a whole run reports to the front end.
#[derive(Debug, Clone, Copy, PartialEq, Eq, Structural)]
pub enum Outcome {
    /// The command ran to its end: reproduce this disposition.
    Finished(ExitDisposition),
    /// The command never reached its exec point; exit with this
    /// launch-failure status, distinct from any command exit code.
    LaunchFailure(i32),
}

/// One event the loop woke on.
#[derive(Debug, Clone, Copy, PartialEq, Eq)]
pub enum Event {
    /// The launch synchronization reported that the child reached exec.
    ExecSucceeded,
    /// The launch failed before exec; the status to report for it.
    ExecFailed(i32),
    /// A signal was delivered to the supervisor.
    Signal(SignalEvent),
    /// The wait status reported the child stopped by this signal.
    ChildStopped(i32),
    /// The wait status reported the child continued.
    ChildContinued,
    /// The wait status reported the child exited with this code.
    ChildExited(i32),
    /// The wait status reported the child terminated by this signal.
    ChildKilled(i32),
    /// An input/output copy error ended the relay; the child's end is
    /// still reaped and reported normally.
    RelayBroken,
    /// The supervisor itself was resumed after a suspension.
    SelfResumed,
}

/// What the loop must carry out after a step.
#[derive(Debug, Clone, Copy, PartialEq, Eq)]
pub enum Action {
    /// Nothing; block for the next event.
    Wait,
    /// Send this signal to the child's process group.
    ForwardSignal(i32),
    /// Set the pseudo-terminal's size to this measured size.
    Resize(TermSize),
    /// Save terminal state and raise this signal on the supervisor.
    SuspendSelf(i32),
}

/// The supervisor's state, as contracts see it.
#[verifier::ext_equal]
pub struct SupervisorModel {
    pub child_pid: i32,
    pub child_pgrp: i32,
    pub child: ChildState,
    /// The supervisor has a controlling terminal.
    pub has_term: bool,
    /// The input/output relay is still copying.
    pub relay_active: bool,
    /// The pseudo-terminal session, when one was policy-enabled.
    pub pty: Option<PtyModel>,
    /// Set exactly when the run has ended, one way or the other.
    pub outcome: Option<Outcome>,
}

impl SupervisorModel {
    /// The machine's invariant while the loop runs: the session (if
    /// any) is well-formed and not yet restored, and the recorded
    /// outcome mirrors the child's end exactly.
    pub open spec fn wf(self) -> bool {
        &&& self.pty matches Some(p) ==> (p.wf() && !p.restored)
        &&& self.child matches ChildState::Exited(code)
            ==> self.outcome == Some(Outcome::Finished(ExitDisposition::Code(code)))
        &&& self.child matches ChildState::KilledBySignal(sig)
            ==> self.outcome == Some(Outcome::Finished(ExitDisposition::Signal(sig)))
        &&& self.outcome matches Some(Outcome::Finished(d))
            ==> ((d matches ExitDisposition::Code(code) ==> self.child == ChildState::Exited(code))
                && (d matches ExitDisposition::Signal(sig)
                    ==> self.child == ChildState::KilledBySignal(sig)))
        &&& self.outcome matches Some(Outcome::LaunchFailure(st)) ==> self.child is Starting
    }
}

/// The session state after a step that hands the terminal back.
pub open spec fn disengage_opt(p: Option<PtyModel>) -> Option<PtyModel> {
    match p {
        Some(m) => Some(pty_disengaged(m)),
        None => None,
    }
}

/// The session state after a step that reasserts session mode.
pub open spec fn engage_opt(p: Option<PtyModel>) -> Option<PtyModel> {
    match p {
        Some(m) => Some(pty_engaged(m)),
        None => None,
    }
}

/// An event the loop can hand to the machine: a delivered signal must
/// have been catchable, or no handler would have seen it.
pub open spec fn event_wf(ev: Event) -> bool {
    ev matches Event::Signal(se) ==> catchable(se.signal)
}

/// The machine's total transition function: one event, processed with
/// the supervisor's own terminal size measured at that moment, yields
/// the next state and the action the loop must carry out.
pub open spec fn spec_step(s: SupervisorModel, ev: Event, own_size: TermSize) -> (SupervisorModel, Action) {
    match ev {
        Event::ExecSucceeded => {
            if s.child is Starting && s.outcome is None {
                (SupervisorModel { child: ChildState::Running, ..s }, Action::Wait)
            } else {
                (s, Action::Wait)
            }
        },
        Event::ExecFailed(status) => {
            if s.child is Starting && s.outcome is None {
                (
                    SupervisorModel { outcome: Some(Outcome::LaunchFailure(status)), ..s },
                    Action::Wait,
                )
            } else {
                (s, Action::Wait)
            }
        },
        Event::ChildStopped(sig) => {
            if s.child is Running {
                (
                    SupervisorModel {
                        child: ChildState::Stopped(sig),
                        pty: disengage_opt(s.pty),
                        ..s
                    },
                    Action::SuspendSelf(sig),
                )
            } else {
                (s, Action::Wait)
            }
        },
        Event::ChildContinued => {
            if s.child is Stopped {
                (
                    SupervisorModel { child: ChildState::Running, pty: engage_opt(s.pty), ..s },
                    Action::Wait,
                )
            } else {
                (s, Action::Wait)
            }
        },
        Event::ChildExited(code) => {
            if live(s.child) && s.outcome is None {
                (
                    SupervisorModel {
                        child: ChildState::Exited(code),
                        outcome: Some(Outcome::Finished(ExitDisposition::Code(code))),
                        ..s
                    },
                    Action::Wait,
                )
            } else {
                (s, Action::Wait)
            }
        },
        Event::ChildKilled(sig) => {
            if live(s.child) && s.outcome is None {
                (
                    SupervisorModel {
                        child: ChildState::KilledBySignal(sig),
                        outcome: Some(Outcome::Finished(ExitDisposition::Signal(sig))),
                        ..s
                    },
                    Action::Wait,
                )
            } else {
                (s, Action::Wait)
            }
        },
        Event::RelayBroken => (SupervisorModel { relay_active: false, ..s }, Action::Wait),
        Event::SelfResumed => (SupervisorModel { pty: engage_opt(s.pty), ..s }, Action::Wait),
        Event::Signal(se) => {
            match spec_classify(se, s.child_pid, s.has_term) {
                SignalAction::ConsumeStatus => (s, Action::Wait),
                SignalAction::Resize => {
                    match s.pty {
                        Some(p) => (
                            SupervisorModel { pty: Some(pty_resized(p, own_size)), ..s },
                            Action::Resize(own_size),
                        ),
                        None => (s, Action::Wait),
                    }
                },
                SignalAction::SuspendSelf => (
                    SupervisorModel { pty: disengage_opt(s.pty), ..s },
                    Action::SuspendSelf(se.signal),
                ),
                SignalAction::Ignore => (s, Action::Wait),
                SignalAction::Forward => {
                    if live(s.child) {
                        (s, Action::ForwardSignal(se.signal))
                    } else {
                        (s, Action::Wait)
                    }
                },
            }
        },
    }
}

/// The supervisor of one command run.
pub struct Supervisor {
    child_pid: i32,
    child_pgrp: i32,
    child: ChildState,
    has_term: bool,
    relay_active: bool,
    pty: Option<PtySession>,
    outcome: Option<Outcome>,
}

impl View for Supervisor {
    type V = SupervisorModel;

    closed spec fn view(&self) -> SupervisorModel {
        SupervisorModel {
            child_pid: self.child_pid,
            child_pgrp: self.child_pgrp,
            child: self.child,
            has_term: self.has_term,
            relay_active: self.relay_active,
            pty: match self.pty {
                Some(p) => Some(p@),
                None => None,
            },
            outcome: self.outcome,
        }
    }
}

impl Supervisor {
    /// Starts supervising a freshly forked child.
    pub fn new(child_pid: i32, child_pgrp: i32, has_term: bool, pty: Option<PtySession>) -> (s: Supervisor)
        requires
            pty matches Some(p) ==> (p@.wf() && !p@.restored),
        ensures
            s@.wf(),
            s@.child_pid == child_pid,
            s@.child_pgrp == child_pgrp,
            s@.child is Starting,
            s@.has_term == has_term,
            s@.relay_active,
            s@.outcome is None,
            pty matches Some(p) ==> s@.pty == Some(p@),
            pty is None ==> s@.pty is None,
    {
        Supervisor {
            child_pid,
            child_pgrp,
            child: ChildState::Starting,
            has_term,
            relay_active: true,
            pty,
            outcome: None,
        }
    }

    /// Processes exactly one event, per [`spec_step`], and returns the
    /// action the loop must carry out before blocking again.
    pub fn handle_event(&mut self, ev: Event, own_size: TermSize) -> (a: Action)
        requires
            old(self)@.wf(),
            event_wf(ev),
        ensures
            final(self)@ == spec_step(old(self)@, ev, own_size).0,
            a == spec_step(old(self)@, ev, own_size).1,
            final(self)@.wf(),
    {
        match ev {
            Event::ExecSucceeded => {
                if matches!(self.child, ChildState::Starting) && self.outcome.is_none() {
                    self.child = ChildState::Running;
                }
                Action::Wait
            },
            Event::ExecFailed(status) => {
                if matches!(self.child, ChildState::Starting) && self.outcome.is_none() {
                    self.outcome = Some(Outcome::LaunchFailure(status));
                }
                Action::Wait
            },
            Event::ChildStopped(sig) => {
                if matches!(self.child, ChildState::Running) {
                    self.child = ChildState::Stopped(sig);
                    match &mut self.pty {
                        Some(p) => p.disengage(),
                        None => {},
                    }
                    Action::SuspendSelf(sig)
                } else {
                    Action::Wait
                }
            },
            Event::ChildContinued => {
                if matches!(self.child, ChildState::Stopped(_)) {
                    self.child = ChildState::Running;
                    match &mut self.pty {
                        Some(p) => p.engage(),
                        None => {},
                    }
                }
                Action::Wait
            },
            Event::ChildExited(code) => {
                let alive = matches!(
                    self.child,
                    ChildState::Starting | ChildState::Running | ChildState::Stopped(_)
                );
                if alive && self.outcome.is_none() {
                    self.child = ChildState::Exited(code);
                    self.outcome = Some(Outcome::Finished(ExitDisposition::Code(code)));
                }
                Action::Wait
            },
            Event::ChildKilled(sig) => {
                let alive = matches!(
                    self.child,
                    ChildState::Starting | ChildState::Running | ChildState::Stopped(_)
                );
                if alive && self.outcome.is_none() {
                    self.child = ChildState::KilledBySignal(sig);
                    self.outcome = Some(Outcome::Finished(ExitDisposition::Signal(sig)));
                }
                Action::Wait
            },
            Event::RelayBroken => {
                self.relay_active = false;
                Action::Wait
            },
            Event::SelfResumed => {
                match &mut self.pty {
                    Some(p) => p.engage(),
                    None => {},
                }
                Action::Wait
            },
            Event::Signal(se) => {
                let decision = classify(&se, self.child_pid, self.has_term);
                match decision {
                    SignalAction::ConsumeStatus => Action::Wait,
                    SignalAction::Resize => {
                        match &mut self.pty {
                            Some(p) => {
                                p.resize(own_size);
                                Action::Resize(own_size)
                            },
                            None => Action::Wait,
                        }
                    },
                    SignalAction::SuspendSelf => {
                        match &mut self.pty {
                            Some(p) => p.disengage(),
                            None => {},
                        }
                        Action::SuspendSelf(se.signal)
                    },
                    SignalAction::Ignore => Action::Wait,
                    SignalAction::Forward => {
                        let alive = matches!(
                            self.child,
                            ChildState::Starting | ChildState::Running | ChildState::Stopped(_)
                        );
                        if alive {
                            Action::ForwardSignal(se.signal)
                        } else {
                            Action::Wait
                        }
                    },
                }
            },
        }
    }

    /// The child's run state as last reported.
    pub fn child_state(&self) -> (c: ChildState)
        ensures
            c == self@.child,
    {
        self.child
    }

    /// The window size the pseudo-terminal shows the child, when a
    /// session is active.
    pub fn pty_size(&self) -> (r: Option<TermSize>)
        ensures
            self@.pty matches Some(p) ==> r == Some(p.pty_size),
            self@.pty is None ==> r is None,
    {
        match &self.pty {
            Some(p) => Some(p.current_size()),
            None => None,
        }
    }

    /// Ends the session: restores the terminal snapshot, exactly once,
    /// and hands back what happened for the front end to reproduce.
    /// `None` means the run was cut short before the child's end was
    /// reaped; the caller still gets its terminal back.
    pub fn conclude(&mut self) -> (r: Option<Outcome>)
        requires
            old(self)@.wf(),
        ensures
            r == old(self)@.outcome,
            final(self)@.child == old(self)@.child,
            final(self)@.outcome == old(self)@.outcome,
            old(self)@.pty matches Some(p) ==> final(self)@.pty == Some(pty_restored(p)),
            old(self)@.pty is None ==> final(self)@.pty is None,
            final(self)@.pty matches Some(p)
                ==> (p.restored && p.current_mode == p.original_mode),
    {
        match &mut self.pty {
            Some(p) => {
                let _mode = p.restore();
            },
            None => {},
        }
        self.outcome
    }
}

/// Self-signal non-forwarding, at the machine level: a delivered signal
/// whose reported sender is the supervised child itself never makes the
/// loop forward anything back to the child's process group.
pub proof fn lemma_no_echo_to_child(s: SupervisorModel, se: SignalEvent, own_size: TermSize)
    requires
        sent_by_child(se, s.child_pid),
    ensures
        !(spec_step(s, Event::Signal(se), own_size).1 is ForwardSignal),
{
    crate::signal::lemma_self_signal_never_forwarded(se, s.child_pid, s.has_term);
}

/// Exit-signal fidelity: when the wait status reports the child died by
/// signal `sig`, the machine records exactly the disposition "die by
/// `sig`", never a plain code; and in every well-formed state a signal
/// death is reported as nothing else.
pub proof fn lemma_exit_signal_fidelity(s: SupervisorModel, sig: i32, own_size: TermSize)
    requires
        s.wf(),
        live(s.child),
        s.outcome is None,
    ensures
        spec_step(s, Event::ChildKilled(sig), own_size).0.child == ChildState::KilledBySignal(sig),
        spec_step(s, Event::ChildKilled(sig), own_size).0.outcome
            == Some(Outcome::Finished(ExitDisposition::Signal(sig))),
{
}

/// Suspend/resume roundtrip: from a running, relaying state, a stop
/// reported by the wait status suspends the supervisor in lockstep and
/// hands the invoking terminal back in its original mode; the matching
/// continue returns the machine to exactly the state it came from, with
/// the session mode reasserted.
pub proof fn lemma_suspend_resume_roundtrip(s: SupervisorModel, sig: i32, sz1: TermSize, sz2: TermSize)
    requires
        s.wf(),
        s.child is Running,
        s.pty matches Some(p) ==> p.current_mode == p.session_mode,
    ensures
        ({
            let (s1, a1) = spec_step(s, Event::ChildStopped(sig), sz1);
            let (s2, a2) = spec_step(s1, Event::ChildContinued, sz2);
            &&& s1.child == ChildState::Stopped(sig)
            &&& a1 == Action::SuspendSelf(sig)
            &&& (s1.pty matches Some(p) ==> p.current_mode == p.original_mode)
            &&& s2 == s
            &&& a2 == Action::Wait
        }),
{
    let (s1, a1) = spec_step(s, Event::ChildStopped(sig), sz1);
    let (s2, a2) = spec_step(s1, Event::ChildContinued, sz2);
    assert(s2 =~~= s);
}

/// Window-size propagation at the machine level: a window-size change
/// delivered while a session is active resizes the pseudo-terminal to
/// the supervisor's measured size and appends it to the size history,
/// whose start stays the session-start snapshot.
pub proof fn lemma_winch_propagation(s: SupervisorModel, se: SignalEvent, own_size: TermSize)
    requires
        s.wf(),
        se.signal == SIGWINCH,
        s.pty is Some,
    ensures
        ({
            let (s2, a) = spec_step(s, Event::Signal(se), own_size);
            &&& a == Action::Resize(own_size)
            &&& s2.pty == Some(pty_resized(s.pty.unwrap(), own_size))
            &&& s2.pty.unwrap().pty_size == own_size
            &&& s2.pty.unwrap().original_size() == s.pty.unwrap().original_size()
        }),
{
}

/// Idempotent no-op forwarding: a signal the policy would forward, when
/// no live child remains, is simply dropped: the state is unchanged, no
/// action is taken, and the machine keeps working. It is not an error.
pub proof fn lemma_forward_to_dead_group_is_noop(s: SupervisorModel, se: SignalEvent, own_size: TermSize)
    requires
        !live(s.child),
        spec_classify(se, s.child_pid, s.has_term) == SignalAction::Forward,
    ensures
        spec_step(s, Event::Signal(se), own_size).0 == s,
        spec_step(s, Event::Signal(se), own_size).1 == Action::Wait,
{
}

/// The machine's state after a whole sequence of events.
pub open spec fn spec_run(s: SupervisorModel, evs: Seq<(Event, TermSize)>) -> SupervisorModel
    decreases evs.len(),
{
    if evs.len() == 0 {
        s
    } else {
        spec_run(spec_step(s, evs[0].0, evs[0].1).0, evs.skip(1))
    }
}

/// One step preserves the invariant, and never touches the session's
/// allocation snapshots nor restores the terminal mid-run.
pub proof fn lemma_step_preserves_wf(s: SupervisorModel, ev: Event, own_size: TermSize)
    requires
        s.wf(),
    ensures
        ({
            let s2 = spec_step(s, ev, own_size).0;
            &&& s2.wf()
            &&& (s.pty is None ==> s2.pty is None)
            &&& (s.pty matches Some(p) ==> (s2.pty matches Some(p2)
                && p2.original_mode == p.original_mode
                && p2.session_mode == p.session_mode
                && p2.original_size() == p.original_size()
                && !p2.restored))
        }),
{
}

/// Terminal restoration, over whole runs: however the session went
/// (normal end, launch failure, relay error, signal-killed child and
/// anything else the loop can see), after conclusion the invoking
/// terminal is back in the mode and the session snapshots captured at
/// allocation, restored exactly once.
pub proof fn lemma_terminal_restoration(s0: SupervisorModel, evs: Seq<(Event, TermSize)>)
    requires
        s0.wf(),
    ensures
        spec_run(s0, evs).wf(),
        s0.pty is None ==> spec_run(s0, evs).pty is None,
        s0.pty matches Some(p0) ==> (spec_run(s0, evs).pty matches Some(pf)
            && !pf.restored
            && pf.original_mode == p0.original_mode
            && pf.original_size() == p0.original_size()
            && pty_restored(pf).restored
            && pty_restored(pf).current_mode == p0.original_mode),
    decreases evs.len(),
{
    if evs.len() > 0 {
        lemma_step_preserves_wf(s0, evs[0].0, evs[0].1);
        lemma_terminal_restoration(spec_step(s0, evs[0].0, evs[0].1).0, evs.skip(1));
    }
}

/// Exit translation: a final child state maps to the disposition the
/// supervisor must reproduce. An exit code is reported as that code; a
/// terminating signal means the supervisor itself must die by the same
/// signal, so its parent sees a signal death, not a mapped code.
pub fn translate(child: ChildState) -> (d: ExitDisposition)
    requires
        child is Exited || child is KilledBySignal,
    ensures
        child matches ChildState::Exited(code) ==> d == ExitDisposition::Code(code),
        child matches ChildState::KilledBySignal(sig) ==> d == ExitDisposition::Signal(sig),
{
    match child {
        ChildState::Exited(code) => ExitDisposition::Code(code),
        ChildState::KilledBySignal(sig) => ExitDisposition::Signal(sig),
        _ => {
            proof {
                assert(false);
            }
            ExitDisposition::Code(0)
        },
    }
}

/// The status a waiting shell observes for a disposition: the code
/// itself for a plain exit, 128 plus the signal number for a signal
/// death (the shell's own convention for reporting those).
pub fn observed_status(d: ExitDisposition) -> (s: i32)
    requires
        d matches ExitDisposition::Signal(sig) ==> sig <= i32::MAX - 128,
    ensures
        d matches ExitDisposition::Code(code) ==> s == code,
        d matches ExitDisposition::Signal(sig) ==> s == 128 + sig,
{
    match d {
        ExitDisposition::Code(code) => code,
        ExitDisposition::Signal(sig) => 128 + sig,
    }
}

} // verus!
