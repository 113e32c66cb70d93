//! The terminal session: the display device held open for the life of the
//! UI, and returned to its earlier mode exactly once.
use vstd::prelude::*;

verus! {

/// Which display device a session drives.
#[derive(Clone, Copy, Debug, PartialEq, Eq, Structural)]
pub enum BackendKind {
    /// An interactive terminal, put into raw mode on the alternate screen.
    Crossterm,
    /// A fixed-size in-memory buffer with no device to restore.
    Test,
}

impl Default for BackendKind {
    fn default() -> (r: BackendKind)
        ensures
            r == BackendKind::Crossterm,
    {
        BackendKind::Crossterm
    }
}

/// An open or closed session around a terminal handle `T`.
pub struct TerminalWrapper<T> {
    pub terminal: T,
    kind: BackendKind,
    open: bool,
}

impl<T> TerminalWrapper<T> {
    /// Whether the device is still held (not yet restored).
    pub closed spec fn spec_is_open(&self) -> bool {
        self.open
    }

    /// The terminal handle held by the session.
    pub closed spec fn spec_terminal(&self) -> T {
        self.terminal
    }

    /// The kind of device behind the session.
    pub closed spec fn spec_kind(&self) -> BackendKind {
        self.kind
    }

    /// Wraps a terminal that has just been acquired.
    pub fn open(terminal: T, kind: BackendKind) -> (r: TerminalWrapper<T>)
        ensures
            r.spec_terminal() == terminal,
            r.spec_kind() == kind,
            r.spec_is_open(),
    {
        TerminalWrapper { terminal, kind, open: true }
    }

    pub fn is_open(&self) -> (r: bool)
        ensures
            r == self.spec_is_open(),
    {
        self.open
    }

    pub fn kind(&self) -> (r: BackendKind)
        ensures
            r == self.spec_kind(),
    {
        self.kind
    }

    /// Closes the session. Returns whether the caller must now restore the
    /// device: only on the first close of an interactive session; closing again,
    /// or closing a headless session, asks for nothing.
    pub fn close(&mut self) -> (restore: bool)
        ensures
            closes(*old(self), *final(self), restore),
    {
        let restore = self.open && self.kind == BackendKind::Crossterm;
        self.open = false;
        restore
    }

    /// The last step of a tick: closes the session where an exit signal was
    /// observed during the tick. Returns whether the device must be restored.
    pub fn end_of_tick(&mut self, exit_signal: bool) -> (restore: bool)
        ensures
            ends_tick(*old(self), exit_signal, *final(self), restore),
    {
        if exit_signal {
            self.close()
        } else {
            false
        }
    }
}

/// Closing `before` gives `after`, and asks for a restore exactly when an
/// interactive session was still open.
pub open spec fn closes<T>(before: TerminalWrapper<T>, after: TerminalWrapper<T>, restore: bool) -> bool {
    &&& !after.spec_is_open()
    &&& after.spec_kind() == before.spec_kind()
    &&& after.spec_terminal() == before.spec_terminal()
    &&& restore == (before.spec_is_open() && before.spec_kind() == BackendKind::Crossterm)
}

/// The end of a tick with exit signal `exit_signal` takes `before` to `after`.
pub open spec fn ends_tick<T>(before: TerminalWrapper<T>, exit_signal: bool, after: TerminalWrapper<T>, restore: bool) -> bool {
    if exit_signal {
        closes(before, after, restore)
    } else {
        after == before && !restore
    }
}

/// Closing twice is harmless: the second close asks for no restore and
/// changes nothing, so the device is restored at most once.
pub proof fn close_restores_at_most_once<T>(
    s0: TerminalWrapper<T>,
    s1: TerminalWrapper<T>,
    r1: bool,
    s2: TerminalWrapper<T>,
    r2: bool,
)
    requires
        closes(s0, s1, r1),
        closes(s1, s2, r2),
    ensures
        !r2,
        s2.spec_is_open() == s1.spec_is_open(),
        s2.spec_kind() == s1.spec_kind(),
        s2.spec_terminal() == s1.spec_terminal(),
{
}

/// A headless session never asks for a restore.
pub proof fn headless_close_restores_nothing<T>(s0: TerminalWrapper<T>, s1: TerminalWrapper<T>, r: bool)
    requires
        s0.spec_kind() == BackendKind::Test,
        closes(s0, s1, r),
    ensures
        !r,
{
}

/// An exit signal observed at the end of a tick closes the session then, and
/// every later tick finds it closed and asks for no further restore.
pub proof fn exit_signal_closes_for_good<T>(
    s0: TerminalWrapper<T>,
    s1: TerminalWrapper<T>,
    r1: bool,
    exit_later: bool,
    s2: TerminalWrapper<T>,
    r2: bool,
)
    requires
        ends_tick(s0, true, s1, r1),
        ends_tick(s1, exit_later, s2, r2),
    ensures
        r1 == (s0.spec_is_open() && s0.spec_kind() == BackendKind::Crossterm),
        !s1.spec_is_open(),
        !s2.spec_is_open(),
        !r2,
{
}

} // verus!
