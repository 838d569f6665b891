//! The terminal controller: pseudo-terminal session state.
//!
//! The controller captures the invoking terminal's mode and window size
//! once, at allocation, and guarantees that the mode is restored from
//! that snapshot exactly once, on every exit path. The actual device
//! calls live outside the library; here the session's state is tracked
//! and every transition is pinned down, including the full history of
//! window sizes the child-facing side has shown.

use vstd::prelude::*;

verus! {

/// A terminal window size, in character cells.
#[derive(Debug, Clone, Copy, PartialEq, Eq, Structural)]
pub struct TermSize {
    pub rows: u16,
    pub cols: u16,
}

/// A terminal mode: the line-discipline settings, carried as one word.
/// The controller never interprets the settings; it only saves, swaps
/// and restores them.
#[derive(Debug, Clone, Copy, PartialEq, Eq, Structural)]
pub struct TermMode {
    pub bits: u64,
}

/// The state of a pseudo-terminal session, as contracts see it.
#[verifier::ext_equal]
pub struct PtyModel {
    /// The invoking terminal's mode at allocation: the restore target.
    pub original_mode: TermMode,
    /// The mode the invoking terminal is put in while the session
    /// relays input and output.
    pub session_mode: TermMode,
    /// The mode the invoking terminal is in now.
    pub current_mode: TermMode,
    /// The window size the child-facing side shows now.
    pub pty_size: TermSize,
    /// The original mode has been restored; the session is over.
    pub restored: bool,
    /// Every size the child-facing side has shown, in order.
    pub sizes_seen: Seq<TermSize>,
}

impl PtyModel {
    /// The session's invariant: the size history starts at the
    /// allocation snapshot and ends at the current size, and the
    /// invoking terminal is always in one of the two known modes.
    pub open spec fn wf(self) -> bool {
        &&& self.sizes_seen.len() >= 1
        &&& self.sizes_seen[0] == self.original_size()
        &&& self.sizes_seen.last() == self.pty_size
        &&& (self.current_mode == self.original_mode || self.current_mode == self.session_mode)
    }

    /// The window size captured at allocation.
    pub open spec fn original_size(self) -> TermSize {
        self.sizes_seen[0]
    }
}

/// A freshly allocated session: both snapshots taken, the invoking
/// terminal still in its original mode, the child-facing size equal to
/// the invoking terminal's size.
pub open spec fn pty_allocated(original_mode: TermMode, session_mode: TermMode, size: TermSize) -> PtyModel {
    PtyModel {
        original_mode: original_mode,
        session_mode: session_mode,
        current_mode: original_mode,
        pty_size: size,
        restored: false,
        sizes_seen: seq![size],
    }
}

/// The session after propagating a window-size change.
pub open spec fn pty_resized(m: PtyModel, size: TermSize) -> PtyModel {
    PtyModel { pty_size: size, sizes_seen: m.sizes_seen.push(size), ..m }
}

/// The session after putting the invoking terminal in session mode
/// (entering, or re-entering after a suspension, the relay).
pub open spec fn pty_engaged(m: PtyModel) -> PtyModel {
    PtyModel { current_mode: m.session_mode, ..m }
}

/// The session after handing the invoking terminal back temporarily
/// (before a suspension), without ending the session.
pub open spec fn pty_disengaged(m: PtyModel) -> PtyModel {
    PtyModel { current_mode: m.original_mode, ..m }
}

/// The session after final restoration.
pub open spec fn pty_restored(m: PtyModel) -> PtyModel {
    PtyModel { current_mode: m.original_mode, restored: true, ..m }
}

/// Window-size propagation: the first size the child-facing side ever
/// shows is the invoking terminal's size at session start, and a resize
/// makes the shown size exactly the new one, extending the history.
pub proof fn lemma_size_snapshot_order(m: PtyModel, size: TermSize)
    requires
        m.wf(),
    ensures
        m.sizes_seen[0] == m.original_size(),
        pty_resized(m, size).pty_size == size,
        pty_resized(m, size).sizes_seen == m.sizes_seen.push(size),
        pty_resized(m, size).original_size() == m.original_size(),
{
}

/// How a session starts, once allocation has been tried.
#[derive(Debug, Clone, Copy, PartialEq, Eq, Structural)]
pub enum SessionStart {
    /// Relay through the allocated pseudo-terminal pair.
    WithPty,
    /// Pass the real terminal straight through; the controller is inert.
    PassThrough,
    /// No session at all: allocation failed and the policy allows no
    /// degraded run. This failure is fatal.
    Refused,
}

/// How a session must start: without pty policy, plain pass-through;
/// with it, the pair when allocation succeeded, else pass-through only
/// when the policy permits the degraded mode, and otherwise a refusal.
pub open spec fn spec_plan_session(use_pty: bool, allocated: bool, degraded_allowed: bool) -> SessionStart {
    if !use_pty {
        SessionStart::PassThrough
    } else if allocated {
        SessionStart::WithPty
    } else if degraded_allowed {
        SessionStart::PassThrough
    } else {
        SessionStart::Refused
    }
}

/// Decides how the session starts from the policy and the allocation
/// outcome. Refusal happens exactly when a pseudo-terminal was policy-
/// enabled, none could be allocated, and no degraded run is permitted.
pub fn plan_session(use_pty: bool, allocated: bool, degraded_allowed: bool) -> (p: SessionStart)
    ensures
        p == spec_plan_session(use_pty, allocated, degraded_allowed),
        p is Refused <==> (use_pty && !allocated && !degraded_allowed),
{
    if !use_pty {
        SessionStart::PassThrough
    } else if allocated {
        SessionStart::WithPty
    } else if degraded_allowed {
        SessionStart::PassThrough
    } else {
        SessionStart::Refused
    }
}

/// A live pseudo-terminal session.
pub struct PtySession {
    original_mode: TermMode,
    session_mode: TermMode,
    current_mode: TermMode,
    pty_size: TermSize,
    restored: bool,
    sizes_seen: Ghost<Seq<TermSize>>,
}

impl View for PtySession {
    type V = PtyModel;

    closed spec fn view(&self) -> PtyModel {
        PtyModel {
            original_mode: self.original_mode,
            session_mode: self.session_mode,
            current_mode: self.current_mode,
            pty_size: self.pty_size,
            restored: self.restored,
            sizes_seen: self.sizes_seen@,
        }
    }
}

impl PtySession {
    /// Opens a session: snapshots the invoking terminal's mode and size,
    /// and fixes the mode the session will work in.
    pub fn allocate(original_mode: TermMode, session_mode: TermMode, size: TermSize) -> (s: PtySession)
        ensures
            s@ == pty_allocated(original_mode, session_mode, size),
            s@.wf(),
    {
        let ghost history: Seq<TermSize> = seq![size];
        PtySession {
            original_mode,
            session_mode,
            current_mode: original_mode,
            pty_size: size,
            restored: false,
            sizes_seen: Ghost(history),
        }
    }

    /// Propagates a window-size change to the child-facing side.
    pub fn resize(&mut self, size: TermSize)
        requires
            !old(self)@.restored,
        ensures
            final(self)@ == pty_resized(old(self)@, size),
    {
        self.pty_size = size;
        self.sizes_seen = Ghost(self.sizes_seen@.push(size));
    }

    /// Puts the invoking terminal in session mode.
    pub fn engage(&mut self)
        requires
            !old(self)@.restored,
        ensures
            final(self)@ == pty_engaged(old(self)@),
    {
        self.current_mode = self.session_mode;
    }

    /// Hands the invoking terminal back before a suspension, without
    /// ending the session.
    pub fn disengage(&mut self)
        requires
            !old(self)@.restored,
        ensures
            final(self)@ == pty_disengaged(old(self)@),
    {
        self.current_mode = self.original_mode;
    }

    /// Ends the session: restores the snapshot mode, exactly once.
    /// Returns the mode to put the device back into.
    pub fn restore(&mut self) -> (m: TermMode)
        requires
            !old(self)@.restored,
        ensures
            final(self)@ == pty_restored(old(self)@),
            m == old(self)@.original_mode,
    {
        self.current_mode = self.original_mode;
        self.restored = true;
        self.original_mode
    }

    /// The window size the child-facing side shows now.
    pub fn current_size(&self) -> (s: TermSize)
        ensures
            s == self@.pty_size,
    {
        self.pty_size
    }
}

} // verus!
