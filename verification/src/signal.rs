//! The signal relay: classifying signals caught while a command runs.
//!
//! The supervisor's handlers record only "signal N arrived from pid P"
//! and wake the event loop; the decision of what to do with each signal
//! is made here, in normal context, by one total classification rule.
//! A signal sent by the supervised child itself is never forwarded back;
//! when the sender could not be read, the relay conservatively forwards
//! rather than risk dropping a legitimate interrupt.

use vstd::prelude::*;

verus! {

/// Signal numbers, as the kernel delivers them.
pub const SIGHUP: i32 = 1;
pub const SIGINT: i32 = 2;
pub const SIGQUIT: i32 = 3;
pub const SIGKILL: i32 = 9;
pub const SIGUSR1: i32 = 10;
pub const SIGUSR2: i32 = 12;
pub const SIGALRM: i32 = 14;
pub const SIGTERM: i32 = 15;
pub const SIGCHLD: i32 = 17;
pub const SIGCONT: i32 = 18;
pub const SIGSTOP: i32 = 19;
pub const SIGTSTP: i32 = 20;
pub const SIGTTIN: i32 = 21;
pub const SIGTTOU: i32 = 22;
pub const SIGWINCH: i32 = 28;

/// The signal can reach a handler at all: everything but the kill and
/// stop signals, which the kernel always acts on itself.
pub open spec fn catchable(sig: i32) -> bool {
    sig != SIGKILL && sig != SIGSTOP
}

/// A stop signal the controlling terminal's line discipline generates.
pub open spec fn terminal_stop_signal(sig: i32) -> bool {
    sig == SIGTSTP || sig == SIGTTIN || sig == SIGTTOU
}

/// One delivered signal: its number, and the sender as the kernel
/// reported it (`None` when the metadata could not be read).
#[derive(Debug, Clone, Copy, PartialEq, Eq)]
pub struct SignalEvent {
    pub signal: i32,
    pub sender_pid: Option<i32>,
    pub sender_pgrp: Option<i32>,
}

/// What the relay does with one delivered signal.
#[derive(Debug, Clone, Copy, PartialEq, Eq, Structural)]
pub enum SignalAction {
    /// A child-status change: consumed locally to drive the supervisor's
    /// state machine, never forwarded.
    ConsumeStatus,
    /// A window-size change: re-measure the invoking terminal and resize
    /// the pseudo-terminal; not otherwise forwarded.
    Resize,
    /// A terminal-driven stop: the supervisor suspends itself.
    SuspendSelf,
    /// Deliver the same signal to the child's process group.
    Forward,
    /// Drop the signal.
    Ignore,
}

/// The sender the kernel reported is the supervised child itself.
pub open spec fn sent_by_child(ev: SignalEvent, child_pid: i32) -> bool {
    ev.sender_pid == Some(child_pid)
}

/// The relay's policy, one deterministic total order over the rules:
/// child-status changes and window-size changes are consumed locally
/// first; then a signal whose reported sender is the child itself is
/// dropped; then a terminal stop signal suspends the supervisor when it
/// has a controlling terminal; everything else is forwarded verbatim,
/// including signals whose sender could not be read.
pub open spec fn spec_classify(ev: SignalEvent, child_pid: i32, has_term: bool) -> SignalAction {
    if ev.signal == SIGCHLD {
        SignalAction::ConsumeStatus
    } else if ev.signal == SIGWINCH {
        SignalAction::Resize
    } else if sent_by_child(ev, child_pid) {
        SignalAction::Ignore
    } else if terminal_stop_signal(ev.signal) && has_term {
        SignalAction::SuspendSelf
    } else {
        SignalAction::Forward
    }
}

/// Decides what to do with one delivered signal.
pub fn classify(ev: &SignalEvent, child_pid: i32, has_term: bool) -> (a: SignalAction)
    requires
        catchable(ev.signal),
    ensures
        a == spec_classify(*ev, child_pid, has_term),
        sent_by_child(*ev, child_pid) ==> a != SignalAction::Forward,
{
    if ev.signal == SIGCHLD {
        SignalAction::ConsumeStatus
    } else if ev.signal == SIGWINCH {
        SignalAction::Resize
    } else {
        let self_sent: bool = match ev.sender_pid {
            Some(pid) => pid == child_pid,
            None => false,
        };
        if self_sent {
            SignalAction::Ignore
        } else if (ev.signal == SIGTSTP || ev.signal == SIGTTIN || ev.signal == SIGTTOU) && has_term {
            SignalAction::SuspendSelf
        } else {
            SignalAction::Forward
        }
    }
}

/// Self-signal non-forwarding: a signal whose reported sender is the
/// supervised child itself is never forwarded back to the child's
/// process group, whatever the signal number and terminal state.
pub proof fn lemma_self_signal_never_forwarded(ev: SignalEvent, child_pid: i32, has_term: bool)
    requires
        sent_by_child(ev, child_pid),
    ensures
        spec_classify(ev, child_pid, has_term) != SignalAction::Forward,
{
}

/// Conservative fallback: when the kernel reported no sender, a
/// catchable signal that calls for no local action is forwarded rather
/// than dropped.
pub proof fn lemma_unknown_sender_forwarded(ev: SignalEvent, child_pid: i32, has_term: bool)
    requires
        ev.sender_pid is None,
        ev.signal != SIGCHLD,
        ev.signal != SIGWINCH,
        !(terminal_stop_signal(ev.signal) && has_term),
    ensures
        spec_classify(ev, child_pid, has_term) == SignalAction::Forward,
{
}

} // verus!
