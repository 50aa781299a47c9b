//! The interactive session: at most one move or resize operation is active
//! system-wide. Acquiring while a session is active fails without side
//! effects; releasing is idempotent. A resize session always acts on the
//! bottom-right edges; this is deliberate, not a per-edge hint.

use vstd::prelude::*;

verus! {

/// The edges an interactive session drags. A move session drags none; a
/// resize session always drags the bottom-right corner.
#[derive(Clone, Copy, PartialEq, Eq, Structural, Debug)]
pub enum Edges {
    Empty,
    BottomRight,
}

/// The state of the interactive session: absent, moving one window, or
/// resizing one window.
#[derive(Clone, Copy, PartialEq, Eq, Structural, Debug)]
pub enum Session {
    Absent,
    Moving { window: u64 },
    Resizing { window: u64 },
}

/// The edge-set a session drags: empty for a move, bottom-right for a
/// resize.
pub open spec fn spec_edges(s: Session) -> Edges {
    match s {
        Session::Resizing { .. } => Edges::BottomRight,
        _ => Edges::Empty,
    }
}

/// What acquiring a move session does: succeeds only from the absent state,
/// and otherwise changes nothing.
pub open spec fn spec_acquire(s: Session, w: u64) -> (Session, bool) {
    if s is Absent {
        (Session::Moving { window: w }, true)
    } else {
        (s, false)
    }
}

/// What acquiring a resize session does: succeeds only from the absent
/// state, and otherwise changes nothing.
pub open spec fn spec_acquire_resize(s: Session, w: u64) -> (Session, bool) {
    if s is Absent {
        (Session::Resizing { window: w }, true)
    } else {
        (s, false)
    }
}

/// The read-only snapshot a pointer-motion handler sees: the session's
/// window and the edge-set it drags.
pub open spec fn spec_current(s: Session) -> Option<(u64, Edges)> {
    match s {
        Session::Absent => None,
        Session::Moving { window } => Some((window, Edges::Empty)),
        Session::Resizing { window } => Some((window, Edges::BottomRight)),
    }
}

/// Holder of the single interactive session.
pub struct SessionManager {
    session: Session,
}

impl View for SessionManager {
    type V = Session;

    closed spec fn view(&self) -> Session {
        self.session
    }
}

impl SessionManager {
    /// No session is active at start-up.
    pub fn new() -> (m: Self)
        ensures
            m@ == Session::Absent,
    {
        SessionManager { session: Session::Absent }
    }

    /// Try to start a move session on `window`. Fails, with no side effect,
    /// if any session is already active.
    pub fn acquire(&mut self, window: u64) -> (r: bool)
        ensures
            (final(self)@, r) == spec_acquire(old(self)@, window),
    {
        match self.session {
            Session::Absent => {
                self.session = Session::Moving { window };
                true
            },
            _ => false,
        }
    }

    /// Try to start a resize session on `window`, dragging the bottom-right
    /// edges. Fails, with no side effect, if any session is already active.
    pub fn acquire_resize(&mut self, window: u64) -> (r: bool)
        ensures
            (final(self)@, r) == spec_acquire_resize(old(self)@, window),
    {
        match self.session {
            Session::Absent => {
                self.session = Session::Resizing { window };
                true
            },
            _ => false,
        }
    }

    /// End the active session, if any. Idempotent.
    pub fn release(&mut self)
        ensures
            final(self)@ == Session::Absent,
    {
        self.session = Session::Absent;
    }

    /// Read-only snapshot of the active session.
    pub fn current(&self) -> (r: Option<(u64, Edges)>)
        ensures
            r == spec_current(self@),
    {
        match self.session {
            Session::Absent => None,
            Session::Moving { window } => Some((window, Edges::Empty)),
            Session::Resizing { window } => Some((window, Edges::BottomRight)),
        }
    }
}

/// Law: at most one session is ever active. After a successful acquire of
/// either kind, every further acquire of either kind fails and leaves the
/// session's window and edge-set exactly as they were.
pub proof fn lemma_single_session(s: Session, w1: u64, w2: u64)
    ensures
        spec_acquire(s, w1).1 ==> spec_acquire(spec_acquire(s, w1).0, w2) == (
        spec_acquire(s, w1).0,
        false,
        ),
        spec_acquire(s, w1).1 ==> spec_acquire_resize(spec_acquire(s, w1).0, w2) == (
        spec_acquire(s, w1).0,
        false,
        ),
        spec_acquire_resize(s, w1).1 ==> spec_acquire(spec_acquire_resize(s, w1).0, w2) == (
        spec_acquire_resize(s, w1).0,
        false,
        ),
        spec_acquire_resize(s, w1).1 ==> spec_acquire_resize(spec_acquire_resize(s, w1).0, w2)
            == (spec_acquire_resize(s, w1).0, false),
        spec_acquire(s, w1).1 ==> spec_edges(spec_acquire(s, w1).0) == Edges::Empty,
        spec_acquire_resize(s, w1).1 ==> spec_edges(spec_acquire_resize(s, w1).0)
            == Edges::BottomRight,
{
}

} // verus!
