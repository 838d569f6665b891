use sudo_core::signal::{
    SignalEvent, SIGALRM, SIGCHLD, SIGCONT, SIGTERM, SIGTSTP, SIGWINCH,
};
use sudo_core::supervisor::{
    observed_status, translate, Action, ChildState, Event, ExitDisposition, Outcome, Supervisor,
};
use sudo_core::terminal::{plan_session, PtySession, SessionStart, TermMode, TermSize};

const CHILD_PID: i32 = 4321;
const SIZE: TermSize = TermSize { rows: 24, cols: 80 };

fn pty() -> PtySession {
    PtySession::allocate(TermMode { bits: 0o1234 }, TermMode { bits: 0o4321 }, SIZE)
}

fn running_supervisor(with_pty: bool) -> Supervisor {
    let session = if with_pty { Some(pty()) } else { None };
    let mut sup = Supervisor::new(CHILD_PID, CHILD_PID, true, session);
    let action = sup.handle_event(Event::ExecSucceeded, SIZE);
    assert_eq!(action, Action::Wait);
    sup
}

fn external(signal: i32) -> Event {
    Event::Signal(SignalEvent { signal, sender_pid: Some(1), sender_pgrp: Some(1) })
}

fn from_child(signal: i32) -> Event {
    Event::Signal(SignalEvent {
        signal,
        sender_pid: Some(CHILD_PID),
        sender_pgrp: Some(CHILD_PID),
    })
}

#[test]
fn signal_sent_by_child_is_not_forwarded() {
    let mut sup = running_supervisor(true);
    // the child signals its ancestor; no echo may bounce back
    let action = sup.handle_event(from_child(SIGTERM), SIZE);
    assert_eq!(action, Action::Wait);
    // the child then dies by that same signal; the supervisor reports a
    // signal death, which a shell shows as 128 + 15 = 143
    sup.handle_event(Event::ChildKilled(SIGTERM), SIZE);
    let outcome = sup.conclude();
    assert_eq!(outcome, Some(Outcome::Finished(ExitDisposition::Signal(SIGTERM))));
    let disposition = translate(ChildState::KilledBySignal(SIGTERM));
    assert_eq!(observed_status(disposition), 143);
}

#[test]
fn external_signal_is_forwarded_to_child() {
    let mut sup = running_supervisor(true);
    let action = sup.handle_event(external(SIGTERM), SIZE);
    assert_eq!(action, Action::ForwardSignal(SIGTERM));
}

#[test]
fn signal_with_unknown_sender_is_forwarded() {
    let mut sup = running_supervisor(true);
    let event = Event::Signal(SignalEvent { signal: SIGALRM, sender_pid: None, sender_pgrp: None });
    let action = sup.handle_event(event, SIZE);
    assert_eq!(action, Action::ForwardSignal(SIGALRM));
}

#[test]
fn sigchld_is_consumed_not_forwarded() {
    let mut sup = running_supervisor(true);
    // an outsider sends SIGCHLD: consumed locally, the command keeps running
    let action = sup.handle_event(external(SIGCHLD), SIZE);
    assert_eq!(action, Action::Wait);
    // a later SIGALRM still reaches the command
    let action = sup.handle_event(external(SIGALRM), SIZE);
    assert_eq!(action, Action::ForwardSignal(SIGALRM));
}

#[test]
fn child_exit_code_is_reported_as_code() {
    let mut sup = running_supervisor(false);
    sup.handle_event(Event::ChildExited(3), SIZE);
    assert_eq!(sup.child_state(), ChildState::Exited(3));
    let outcome = sup.conclude();
    assert_eq!(outcome, Some(Outcome::Finished(ExitDisposition::Code(3))));
    assert_eq!(observed_status(ExitDisposition::Code(3)), 3);
}

#[test]
fn sigwinch_updates_pty_size_after_snapshot() {
    let mut sup = running_supervisor(true);
    // the first size the child-facing side shows is the session-start size
    assert_eq!(sup.pty_size(), Some(SIZE));
    // the invoking terminal changed to 42 rows by 69 columns
    let new_size = TermSize { rows: 42, cols: 69 };
    let action = sup.handle_event(external(SIGWINCH), new_size);
    assert_eq!(action, Action::Resize(new_size));
    assert_eq!(sup.pty_size(), Some(new_size));
}

#[test]
fn sigwinch_without_pty_is_a_no_op() {
    let mut sup = running_supervisor(false);
    let action = sup.handle_event(external(SIGWINCH), SIZE);
    assert_eq!(action, Action::Wait);
    assert_eq!(sup.pty_size(), None);
}

#[test]
fn suspend_resume_cycles() {
    let mut sup = running_supervisor(true);
    for cycle in 0..5 {
        let action = sup.handle_event(Event::ChildStopped(SIGTSTP), SIZE);
        assert_eq!(action, Action::SuspendSelf(SIGTSTP), "cycle {cycle}");
        assert_eq!(sup.child_state(), ChildState::Stopped(SIGTSTP));
        let action = sup.handle_event(Event::ChildContinued, SIZE);
        assert_eq!(action, Action::Wait);
        assert_eq!(sup.child_state(), ChildState::Running);
    }
    // after the cycles the command still runs and ends normally
    sup.handle_event(Event::ChildExited(0), SIZE);
    assert_eq!(sup.conclude(), Some(Outcome::Finished(ExitDisposition::Code(0))));
}

#[test]
fn terminal_stop_signal_suspends_supervisor() {
    let mut sup = running_supervisor(true);
    let event = Event::Signal(SignalEvent { signal: SIGTSTP, sender_pid: None, sender_pgrp: None });
    let action = sup.handle_event(event, SIZE);
    assert_eq!(action, Action::SuspendSelf(SIGTSTP));
    let action = sup.handle_event(Event::SelfResumed, SIZE);
    assert_eq!(action, Action::Wait);
}

#[test]
fn forwarding_to_dead_group_is_no_op() {
    let mut sup = running_supervisor(true);
    sup.handle_event(Event::ChildExited(0), SIZE);
    // no live member is left in the group: forwarding degrades to a no-op
    let action = sup.handle_event(external(SIGTERM), SIZE);
    assert_eq!(action, Action::Wait);
    // and the supervisor keeps operating normally afterwards
    assert_eq!(sup.child_state(), ChildState::Exited(0));
    assert_eq!(sup.conclude(), Some(Outcome::Finished(ExitDisposition::Code(0))));
}

#[test]
fn sigcont_from_outside_is_forwarded() {
    let mut sup = running_supervisor(true);
    let action = sup.handle_event(external(SIGCONT), SIZE);
    assert_eq!(action, Action::ForwardSignal(SIGCONT));
}

#[test]
fn launch_failure_is_distinct_from_command_exit() {
    let mut sup = running_supervisor(true);
    let mut failed = Supervisor::new(CHILD_PID, CHILD_PID, true, Some(pty()));
    failed.handle_event(Event::ExecFailed(127), SIZE);
    assert_eq!(failed.conclude(), Some(Outcome::LaunchFailure(127)));
    // while a command that exits with 127 itself reports a plain code
    sup.handle_event(Event::ChildExited(127), SIZE);
    assert_eq!(sup.conclude(), Some(Outcome::Finished(ExitDisposition::Code(127))));
}

#[test]
fn relay_error_does_not_mask_child_exit() {
    let mut sup = running_supervisor(true);
    let action = sup.handle_event(Event::RelayBroken, SIZE);
    assert_eq!(action, Action::Wait);
    sup.handle_event(Event::ChildKilled(SIGALRM), SIZE);
    assert_eq!(
        sup.conclude(),
        Some(Outcome::Finished(ExitDisposition::Signal(SIGALRM)))
    );
}

#[test]
fn pty_allocation_failure_degrades_or_refuses() {
    assert_eq!(plan_session(false, false, false), SessionStart::PassThrough);
    assert_eq!(plan_session(true, true, false), SessionStart::WithPty);
    assert_eq!(plan_session(true, false, true), SessionStart::PassThrough);
    assert_eq!(plan_session(true, false, false), SessionStart::Refused);
}
