//! The terminal-mode lifecycle of an interactive session: capture the mode
//! once, enter raw mode for the relay, and restore the captured mode exactly
//! once on whatever path the session ends.
//!
//! The mode is modelled by the flags the session touches or must preserve;
//! reprogramming the real terminal is a caller's business, done whenever a
//! function here hands back a mode to apply.

use vstd::prelude::*;

verus! {

/// The observable terminal flags: local echo, canonical (line-buffered)
/// input, signal-generating keys, and output post-processing.
#[derive(Clone, Copy, PartialEq, Eq, Structural, Debug)]
pub struct TermMode {
    pub echo: bool,
    pub canonical: bool,
    pub isig: bool,
    pub opost: bool,
}

/// Raw mode derived from a captured mode: echo and canonical input off,
/// output post-processing on, and the signal-generating keys left as they
/// were — so an interrupt keystroke still raises a signal instead of being
/// forwarded as a byte.
pub open spec fn raw_mode_spec(m: TermMode) -> TermMode {
    TermMode { echo: false, canonical: false, isig: m.isig, opost: true }
}

/// Computes the raw mode to apply for a session, from the captured mode.
pub fn raw_mode_of(m: &TermMode) -> (r: TermMode)
    ensures
        r == raw_mode_spec(*m),
{
    TermMode { echo: false, canonical: false, isig: m.isig, opost: true }
}

/// One terminal session: the mode captured at start, the mode currently
/// programmed, and whether the captured mode has been restored.
pub struct TerminalSession {
    pub captured: TermMode,
    pub current: TermMode,
    pub restored: bool,
}

/// The session as capture leaves it.
pub open spec fn capture_spec(initial: TermMode) -> TerminalSession {
    TerminalSession { captured: initial, current: initial, restored: false }
}

/// The session after entering raw mode.
pub open spec fn enter_raw_spec(s: TerminalSession) -> TerminalSession {
    TerminalSession { captured: s.captured, current: raw_mode_spec(s.captured), restored: s.restored }
}

/// The session after restoring, and the mode to physically apply — `None`
/// when a previous restore already applied it.
pub open spec fn restore_spec(s: TerminalSession) -> (TerminalSession, Option<TermMode>) {
    (
        TerminalSession { captured: s.captured, current: s.captured, restored: true },
        if s.restored {
            None
        } else {
            Some(s.captured)
        },
    )
}

impl TerminalSession {
    /// Starts a session by capturing the terminal's current mode.
    pub fn capture(initial: TermMode) -> (s: Self)
        ensures
            s == capture_spec(initial),
    {
        TerminalSession { captured: initial, current: initial, restored: false }
    }

    /// Enters raw mode; the caller applies the returned mode to the real
    /// terminal.
    pub fn enter_raw(&mut self) -> (m: TermMode)
        requires
            !old(self).restored,
        ensures
            *final(self) == enter_raw_spec(*old(self)),
            m == final(self).current,
    {
        let m = raw_mode_of(&self.captured);
        self.current = m;
        m
    }

    /// Restores the captured mode.  The caller reprograms the real terminal
    /// only when a mode is returned; a repeated restore returns `None`, so
    /// the terminal is physically reprogrammed exactly once.
    pub fn restore(&mut self) -> (todo: Option<TermMode>)
        ensures
            *final(self) == restore_spec(*old(self)).0,
            todo == restore_spec(*old(self)).1,
    {
        let already = self.restored;
        self.current = self.captured;
        self.restored = true;
        if already {
            None
        } else {
            Some(self.captured)
        }
    }
}

/// Entering raw mode and restoring returns the terminal to the captured
/// mode, the restore applies exactly the captured mode, and a second restore
/// applies nothing.
pub proof fn lemma_session_round_trip(initial: TermMode)
    ensures
        ({
            let raw_session = enter_raw_spec(capture_spec(initial));
            let (restored_session, to_apply) = restore_spec(raw_session);
            &&& raw_session.current.echo == false
            &&& raw_session.current.canonical == false
            &&& raw_session.current.isig == initial.isig
            &&& restored_session.current == initial
            &&& to_apply == Some(initial)
            &&& restore_spec(restored_session).1 is None
        }),
{
}

} // verus!
