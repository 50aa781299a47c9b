//! The event dispatcher: one entry point per runtime callback. Each handler
//! reads or mutates the policy state (the interactive session and the
//! visibility stack) and returns the list of actions the runtime must
//! perform, together with whether the event was consumed. The runtime hands
//! every window in as a plain numeric handle.

use vstd::prelude::*;
use crate::geometry::{Geometry, Point, Size, tile_rect, spec_move_target, spec_resize_target};
use crate::geometry;
use crate::session::{Edges, Session, SessionManager, spec_acquire, spec_acquire_resize};
use crate::session;
use crate::visibility::{VisibilityStack, spec_hide, spec_restore_result, spec_restore_stack};
use crate::policy::{visible_of, without, visible_views, views_without};

verus! {

/// The modifier that must be held for the policy's key and pointer bindings.
pub const MOD_ALT: u32 = 0x8;

/// Keysym: close the focused window.
pub const KEY_D: u32 = 0x0064;

/// Keysym: cycle left (send the focused window to the back).
pub const KEY_LEFT: u32 = 0xff51;

/// Keysym: cycle right (bring the bottom window to the front).
pub const KEY_RIGHT: u32 = 0xff53;

/// Keysym: hide the focused window.
pub const KEY_DOWN: u32 = 0xff54;

/// Keysym: restore the most recently hidden window.
pub const KEY_UP: u32 = 0xff52;

/// Keysym: terminate the compositor.
pub const KEY_O: u32 = 0x006f;

/// Keysym: launch the helper terminal.
pub const KEY_Q: u32 = 0x0071;

/// Pointer button: left, starts a move session.
pub const BTN_LEFT: u32 = 0x110;

/// Pointer button: right, starts a resize session.
pub const BTN_RIGHT: u32 = 0x111;

/// One effect the runtime must perform on the policy's behalf.
#[derive(Clone, Copy, PartialEq, Eq, Structural, Debug)]
pub enum Action {
    /// Assign a rectangle to a window, telling the runtime which edges an
    /// interactive session is dragging.
    SetGeometry { window: u64, edges: Edges, geometry: Geometry },
    /// Put a window into an output's visibility mask.
    SetMask { window: u64, mask: u32 },
    /// Raise a window to the top of its output's stack.
    BringToFront { window: u64 },
    /// Lower a window to the bottom of its output's stack.
    SendToBack { window: u64 },
    /// Give a window input focus.
    Focus { window: u64 },
    /// Set a window's activated flag.
    SetActivated { window: u64, activated: bool },
    /// Set a window's resizing flag.
    SetResizing { window: u64, resizing: bool },
    /// Ask a window to close.
    Close { window: u64 },
    /// Recompute the layout of the affected output: the runtime reads the
    /// output's stacking order and resolution back to `update_layout`.
    Relayout,
    /// Forward an absolute pointer position to the input subsystem.
    SetPointerPosition { position: Point },
    /// Terminate the compositor process.
    Terminate,
    /// Spawn the helper terminal process.
    SpawnTerminal,
}

/// The whole mutable policy state: the single interactive session and the
/// stack of hidden windows.
pub struct PolicyCore {
    pub session: SessionManager,
    pub hidden: VisibilityStack,
}

/// Actions of a successful move acquisition: the window is raised. A failed
/// acquisition has no effect.
pub open spec fn spec_move_actions(s: Session, view: u64) -> Seq<Action> {
    if s is Absent {
        seq![Action::BringToFront { window: view }]
    } else {
        Seq::empty()
    }
}

/// Actions of a successful resize acquisition: the window is raised and its
/// resizing flag is set. A failed acquisition has no effect.
pub open spec fn spec_resize_actions(s: Session, view: u64) -> Seq<Action> {
    if s is Absent {
        seq![
            Action::BringToFront { window: view },
            Action::SetResizing { window: view, resizing: true },
        ]
    } else {
        Seq::empty()
    }
}

/// What releasing the session does: the session becomes absent; the resizing
/// flag of the session's window, if there was one, is cleared.
pub open spec fn spec_release(s: Session) -> (Session, Seq<Action>) {
    (
        Session::Absent,
        match s {
            Session::Absent => Seq::empty(),
            Session::Moving { window } => seq![
                Action::SetResizing { window, resizing: false },
            ],
            Session::Resizing { window } => seq![
                Action::SetResizing { window, resizing: false },
            ],
        },
    )
}

/// The layout actions for one output: one rectangle per visible window, in
/// stacking order.
pub open spec fn spec_layout_actions(res: Size, vis: Seq<u64>) -> Seq<Action> {
    Seq::new(
        vis.len(),
        |i: int|
            Action::SetGeometry {
                window: vis[i],
                edges: Edges::Empty,
                geometry: tile_rect(res, vis.len() as int, i),
            },
    )
}

/// Actions after a window is destroyed: the top-most remaining visible
/// window, if any, takes focus, and the output is re-tiled. `vis` is the
/// remaining stacking order without the hidden windows.
pub open spec fn spec_destroy_actions(vis: Seq<u64>) -> Seq<Action> {
    let focus: Seq<Action> = if vis.len() > 0 {
        seq![Action::Focus { window: vis.last() }]
    } else {
        Seq::empty()
    };
    focus + seq![Action::Relayout]
}

/// The keyboard transition: from the hidden stack and the key event to the
/// new hidden stack, the consumed flag, and the actions. `views` is the
/// focused window's output's stacking order, bottom first.
pub open spec fn spec_keyboard(
    hidden: Seq<u64>,
    view: u64,
    is_root: bool,
    pressed: bool,
    mods: u32,
    sym: u32,
    views: Seq<u64>,
) -> (Seq<u64>, bool, Seq<Action>) {
    let vis = visible_of(views, hidden);
    if !(pressed && mods == MOD_ALT) {
        (hidden, false, Seq::empty())
    } else if sym == KEY_D {
        if is_root {
            (hidden, true, Seq::empty())
        } else {
            (hidden, true, seq![Action::Close { window: view }])
        }
    } else if sym == KEY_LEFT {
        if is_root || vis.len() < 2 {
            (hidden, true, Seq::empty())
        } else {
            let rem = without(vis, view);
            let focus: Seq<Action> = if rem.len() > 0 {
                seq![Action::Focus { window: rem.last() }]
            } else {
                Seq::empty()
            };
            (hidden, true, seq![Action::SendToBack { window: view }] + focus)
        }
    } else if sym == KEY_RIGHT {
        if is_root || vis.len() < 2 {
            (hidden, true, Seq::empty())
        } else {
            (
                hidden,
                true,
                seq![Action::BringToFront { window: vis[0] }, Action::Focus { window: vis[0] }],
            )
        }
    } else if sym == KEY_DOWN {
        if is_root || hidden.contains(view) {
            (hidden, true, Seq::empty())
        } else {
            let rem = without(vis, view);
            let focus: Seq<Action> = if rem.len() > 0 {
                seq![Action::Focus { window: rem.last() }]
            } else {
                Seq::empty()
            };
            (
                spec_hide(hidden, view),
                true,
                seq![Action::SendToBack { window: view }] + focus + seq![Action::Relayout],
            )
        }
    } else if sym == KEY_UP {
        if is_root {
            (hidden, true, Seq::empty())
        } else {
            match spec_restore_result(hidden) {
                None => (hidden, true, Seq::empty()),
                Some(h) => (
                    spec_restore_stack(hidden),
                    true,
                    seq![
                        Action::BringToFront { window: h },
                        Action::Focus { window: h },
                        Action::Relayout,
                    ],
                ),
            }
        }
    } else if sym == KEY_O {
        (hidden, true, seq![Action::Terminate])
    } else if sym == KEY_Q {
        (hidden, true, seq![Action::SpawnTerminal])
    } else {
        (hidden, false, Seq::empty())
    }
}

/// The pointer-button transition: from the session and the button event to
/// the new session and the actions.
pub open spec fn spec_pointer_button(
    s: Session,
    view: u64,
    is_root: bool,
    pressed: bool,
    mods: u32,
    button: u32,
) -> (Session, Seq<Action>) {
    if pressed {
        if !is_root && mods & MOD_ALT == MOD_ALT {
            if button == BTN_LEFT {
                (spec_acquire(s, view).0, seq![Action::Focus { window: view }] + spec_move_actions(s, view))
            } else if button == BTN_RIGHT {
                (
                    spec_acquire_resize(s, view).0,
                    seq![Action::Focus { window: view }] + spec_resize_actions(s, view),
                )
            } else {
                (s, seq![Action::Focus { window: view }])
            }
        } else {
            (s, Seq::empty())
        }
    } else {
        spec_release(s)
    }
}

/// The pointer-motion actions: the raw position is always forwarded; an
/// active session additionally assigns its window the moved or resized
/// rectangle computed from the session window's current geometry `geo`.
pub open spec fn spec_pointer_motion(s: Session, p: Point, geo: Geometry) -> Seq<Action> {
    match s {
        Session::Absent => seq![Action::SetPointerPosition { position: p }],
        Session::Moving { window } => seq![
            Action::SetPointerPosition { position: p },
            Action::SetGeometry {
                window,
                edges: Edges::Empty,
                geometry: spec_move_target(geo, p),
            },
        ],
        Session::Resizing { window } => seq![
            Action::SetPointerPosition { position: p },
            Action::SetGeometry {
                window,
                edges: Edges::BottomRight,
                geometry: spec_resize_target(geo, p),
            },
        ],
    }
}

impl PolicyCore {
    /// The visibility stack never holds a handle twice.
    pub open spec fn wf(&self) -> bool {
        self.hidden.wf()
    }

    /// Fresh policy state: no session, nothing hidden.
    pub fn new() -> (c: Self)
        ensures
            c.wf(),
            c.session@ == Session::Absent,
            c.hidden@ == Seq::<u64>::empty(),
    {
        PolicyCore { session: SessionManager::new(), hidden: VisibilityStack::new() }
    }

    /// Read-only snapshot of the interactive session, for the pointer-motion
    /// path.
    pub fn current_session(&self) -> (r: Option<(u64, Edges)>)
        ensures
            r == session::spec_current(self.session@),
    {
        self.session.current()
    }

    /// Try to start an interactive move on `view`; on success the window is
    /// raised. Fails with no side effect while another session is active.
    pub fn start_interactive_move(&mut self, view: u64) -> (actions: Vec<Action>)
        ensures
            final(self).hidden == old(self).hidden,
            final(self).session@ == spec_acquire(old(self).session@, view).0,
            actions@ == spec_move_actions(old(self).session@, view),
    {
        let mut actions: Vec<Action> = Vec::new();
        if self.session.acquire(view) {
            actions.push(Action::BringToFront { window: view });
            proof {
                assert(actions@ =~= spec_move_actions(old(self).session@, view));
            }
        }
        actions
    }

    /// Try to start an interactive resize on `view`; on success the window
    /// is raised and its resizing flag is set. Fails with no side effect
    /// while another session is active.
    pub fn start_interactive_resize(&mut self, view: u64) -> (actions: Vec<Action>)
        ensures
            final(self).hidden == old(self).hidden,
            final(self).session@ == spec_acquire_resize(old(self).session@, view).0,
            actions@ == spec_resize_actions(old(self).session@, view),
    {
        let mut actions: Vec<Action> = Vec::new();
        if self.session.acquire_resize(view) {
            actions.push(Action::BringToFront { window: view });
            actions.push(Action::SetResizing { window: view, resizing: true });
            proof {
                assert(actions@ =~= spec_resize_actions(old(self).session@, view));
            }
        }
        actions
    }

    /// End the interactive session: the resizing flag of its window is
    /// cleared and the session becomes absent. A no-op without a session;
    /// idempotent.
    pub fn stop_interactive_action(&mut self) -> (actions: Vec<Action>)
        ensures
            final(self).hidden == old(self).hidden,
            (final(self).session@, actions@) == spec_release(old(self).session@),
    {
        let mut actions: Vec<Action> = Vec::new();
        match self.session.current() {
            None => {},
            Some((window, _)) => {
                actions.push(Action::SetResizing { window, resizing: false });
            },
        }
        self.session.release();
        proof {
            assert(actions@ =~= spec_release(old(self).session@).1);
        }
        actions
    }

    /// Recompute the layout of one output: every window of `views` (the
    /// output's stacking order) that is not hidden gets its tile.
    pub fn update_layout(&self, resolution: Size, views: &Vec<u64>) -> (actions: Vec<Action>)
        requires
            resolution.h <= 0x7fff_ffff,
            views@.len() <= 0xffff_ffff,
        ensures
            actions@ == spec_layout_actions(resolution, visible_of(views@, self.hidden@)),
    {
        let vis = visible_views(views, &self.hidden);
        let placements = geometry::layout(resolution, &vis);
        let mut actions: Vec<Action> = Vec::new();
        let mut i: usize = 0;
        while i < placements.len()
            invariant
                placements@.len() == vis@.len(),
                forall|k: int|
                    0 <= k < vis@.len() ==> #[trigger] placements@[k] == (
                    vis@[k],
                    tile_rect(resolution, vis@.len() as int, k),
                    ),
                0 <= i <= placements@.len(),
                actions@.len() == i,
                forall|k: int|
                    0 <= k < i ==> #[trigger] actions@[k] == (Action::SetGeometry {
                        window: vis@[k],
                        edges: Edges::Empty,
                        geometry: tile_rect(resolution, vis@.len() as int, k),
                    }),
            decreases placements@.len() - i,
        {
            let (window, geometry) = placements[i];
            actions.push(Action::SetGeometry { window, edges: Edges::Empty, geometry });
            i = i + 1;
        }
        proof {
            assert(actions@ =~= spec_layout_actions(resolution, vis@));
        }
        actions
    }

    /// The runtime reports a new resolution for an output: re-tile it.
    pub fn on_output_resolution(&self, resolution: Size, views: &Vec<u64>) -> (actions: Vec<
        Action,
    >)
        requires
            resolution.h <= 0x7fff_ffff,
            views@.len() <= 0xffff_ffff,
        ensures
            actions@ == spec_layout_actions(resolution, visible_of(views@, self.hidden@)),
    {
        self.update_layout(resolution, views)
    }

    /// A window was created: it joins its output's visibility mask, is
    /// raised and focused, and the output is re-tiled. Returns true: the
    /// runtime proceeds with the creation.
    pub fn on_view_created(&self, view: u64, output_mask: u32) -> (r: (bool, Vec<Action>))
        ensures
            r.0 == true,
            r.1@ == seq![
                Action::SetMask { window: view, mask: output_mask },
                Action::BringToFront { window: view },
                Action::Focus { window: view },
                Action::Relayout,
            ],
    {
        let mut actions: Vec<Action> = Vec::new();
        actions.push(Action::SetMask { window: view, mask: output_mask });
        actions.push(Action::BringToFront { window: view });
        actions.push(Action::Focus { window: view });
        actions.push(Action::Relayout);
        proof {
            assert(actions@ =~= seq![
                Action::SetMask { window: view, mask: output_mask },
                Action::BringToFront { window: view },
                Action::Focus { window: view },
                Action::Relayout,
            ]);
        }
        (true, actions)
    }

    /// A window was destroyed: the top-most remaining visible window takes
    /// focus, the destroyed handle leaves the visibility stack, and the
    /// output is re-tiled. `views` is the output's stacking order after the
    /// destruction.
    pub fn on_view_destroyed(&mut self, view: u64, views: &Vec<u64>) -> (actions: Vec<Action>)
        requires
            old(self).wf(),
        ensures
            final(self).wf(),
            final(self).session == old(self).session,
            final(self).hidden@ == old(self).hidden@.remove_value(view),
            !final(self).hidden@.contains(view),
            actions@ == spec_destroy_actions(visible_of(views@, old(self).hidden@)),
    {
        let mut actions: Vec<Action> = Vec::new();
        let vis = visible_views(views, &self.hidden);
        if vis.len() > 0 {
            actions.push(Action::Focus { window: vis[vis.len() - 1] });
        }
        self.hidden.remove_if_present(view);
        actions.push(Action::Relayout);
        proof {
            let v = visible_of(views@, old(self).hidden@);
            if v.len() > 0 {
                assert(vis@[vis@.len() - 1] == v.last());
            }
            assert(actions@ =~= spec_destroy_actions(v));
        }
        actions
    }

    /// A window gained or lost input focus: mirror it in the activated flag.
    pub fn on_view_focus(&self, view: u64, focused: bool) -> (actions: Vec<Action>)
        ensures
            actions@ == seq![Action::SetActivated { window: view, activated: focused }],
    {
        let mut actions: Vec<Action> = Vec::new();
        actions.push(Action::SetActivated { window: view, activated: focused });
        proof {
            assert(actions@ =~= seq![Action::SetActivated { window: view, activated: focused }]);
        }
        actions
    }

    /// The window itself asked to be moved interactively.
    pub fn on_view_request_move(&mut self, view: u64) -> (actions: Vec<Action>)
        ensures
            final(self).hidden == old(self).hidden,
            final(self).session@ == spec_acquire(old(self).session@, view).0,
            actions@ == spec_move_actions(old(self).session@, view),
    {
        self.start_interactive_move(view)
    }

    /// The window itself asked to be resized interactively.
    pub fn on_view_request_resize(&mut self, view: u64) -> (actions: Vec<Action>)
        ensures
            final(self).hidden == old(self).hidden,
            final(self).session@ == spec_acquire_resize(old(self).session@, view).0,
            actions@ == spec_resize_actions(old(self).session@, view),
    {
        self.start_interactive_resize(view)
    }

    /// A key event for the focused window `view`. `views` is that window's
    /// output's stacking order, bottom first. Dispatches the policy's key
    /// bindings when the key went down with the modifier held; any other
    /// event, and any unbound symbol, is left to the window.
    pub fn on_keyboard_key(
        &mut self,
        view: u64,
        is_root: bool,
        pressed: bool,
        mods: u32,
        sym: u32,
        views: &Vec<u64>,
    ) -> (r: (bool, Vec<Action>))
        requires
            old(self).wf(),
        ensures
            final(self).wf(),
            final(self).session == old(self).session,
            (final(self).hidden@, r.0, r.1@) == spec_keyboard(
                old(self).hidden@,
                view,
                is_root,
                pressed,
                mods,
                sym,
                views@,
            ),
    {
        let mut actions: Vec<Action> = Vec::new();
        let ghost expected = spec_keyboard(
            old(self).hidden@,
            view,
            is_root,
            pressed,
            mods,
            sym,
            views@,
        );
        if !(pressed && mods == MOD_ALT) {
            return (false, actions);
        }
        if sym == KEY_D {
            if !is_root {
                actions.push(Action::Close { window: view });
            }
            proof {
                assert(actions@ =~= expected.2);
            }
            (true, actions)
        } else if sym == KEY_LEFT {
            let vis = visible_views(views, &self.hidden);
            if !is_root && vis.len() >= 2 {
                actions.push(Action::SendToBack { window: view });
                let rem = views_without(&vis, view);
                if rem.len() > 0 {
                    actions.push(Action::Focus { window: rem[rem.len() - 1] });
                    proof {
                        assert(rem@[rem@.len() - 1] == without(vis@, view).last());
                    }
                }
            }
            proof {
                assert(actions@ =~= expected.2);
            }
            (true, actions)
        } else if sym == KEY_RIGHT {
            let vis = visible_views(views, &self.hidden);
            if !is_root && vis.len() >= 2 {
                let first = vis[0];
                actions.push(Action::BringToFront { window: first });
                actions.push(Action::Focus { window: first });
            }
            proof {
                assert(actions@ =~= expected.2);
            }
            (true, actions)
        } else if sym == KEY_DOWN {
            let already_hidden = self.hidden.contains(view);
            if !is_root && !already_hidden {
                let vis = visible_views(views, &self.hidden);
                actions.push(Action::SendToBack { window: view });
                let rem = views_without(&vis, view);
                if rem.len() > 0 {
                    actions.push(Action::Focus { window: rem[rem.len() - 1] });
                    proof {
                        assert(rem@[rem@.len() - 1] == without(vis@, view).last());
                    }
                }
                self.hidden.hide_window(view);
                actions.push(Action::Relayout);
            }
            proof {
                assert(actions@ =~= expected.2);
            }
            (true, actions)
        } else if sym == KEY_UP {
            if !is_root {
                match self.hidden.restore() {
                    None => {},
                    Some(h) => {
                        actions.push(Action::BringToFront { window: h });
                        actions.push(Action::Focus { window: h });
                        actions.push(Action::Relayout);
                    },
                }
            }
            proof {
                assert(actions@ =~= expected.2);
            }
            (true, actions)
        } else if sym == KEY_O {
            actions.push(Action::Terminate);
            proof {
                assert(actions@ =~= expected.2);
            }
            (true, actions)
        } else if sym == KEY_Q {
            actions.push(Action::SpawnTerminal);
            proof {
                assert(actions@ =~= expected.2);
            }
            (true, actions)
        } else {
            (false, actions)
        }
    }

    /// A pointer button event. A press with the modifier over a non-root
    /// window focuses it and, for the left or right button, tries to start a
    /// move or resize session; any release ends the session. Consumed
    /// exactly while a session is active.
    pub fn on_pointer_button(
        &mut self,
        view: u64,
        is_root: bool,
        pressed: bool,
        mods: u32,
        button: u32,
    ) -> (r: (bool, Vec<Action>))
        ensures
            final(self).hidden == old(self).hidden,
            (final(self).session@, r.1@) == spec_pointer_button(
                old(self).session@,
                view,
                is_root,
                pressed,
                mods,
                button,
            ),
            r.0 == !(final(self).session@ is Absent),
    {
        let mut actions: Vec<Action> = Vec::new();
        if pressed {
            if !is_root && mods & MOD_ALT == MOD_ALT {
                actions.push(Action::Focus { window: view });
                if button == BTN_LEFT {
                    let mut more = self.start_interactive_move(view);
                    actions.append(&mut more);
                } else if button == BTN_RIGHT {
                    let mut more = self.start_interactive_resize(view);
                    actions.append(&mut more);
                }
            }
        } else {
            let mut more = self.stop_interactive_action();
            actions.append(&mut more);
        }
        proof {
            assert(actions@ =~= spec_pointer_button(
                old(self).session@,
                view,
                is_root,
                pressed,
                mods,
                button,
            ).1);
        }
        let consumed = match self.session.current() {
            Some(_) => true,
            None => false,
        };
        (consumed, actions)
    }

    /// A pointer-motion event at `position`. The raw position is always
    /// forwarded. With an active session, `session_geometry` must be the
    /// session window's current geometry; that window is then moved to the
    /// pointer, or resized towards it with a 32-unit floor. Without a
    /// session, `session_geometry` is ignored. Consumed exactly while a
    /// session is active.
    pub fn on_pointer_motion(&self, position: Point, session_geometry: Geometry) -> (r: (
        bool,
        Vec<Action>,
    ))
        ensures
            r.0 == !(self.session@ is Absent),
            r.1@ == spec_pointer_motion(self.session@, position, session_geometry),
    {
        let mut actions: Vec<Action> = Vec::new();
        actions.push(Action::SetPointerPosition { position });
        let consumed: bool = match self.session.current() {
            None => false,
            Some((window, edges)) => {
                let geometry = match edges {
                    Edges::Empty => geometry::move_target(session_geometry, position),
                    Edges::BottomRight => geometry::resize_target(session_geometry, position),
                };
                actions.push(Action::SetGeometry { window, edges, geometry });
                true
            },
        };
        proof {
            assert(actions@ =~= spec_pointer_motion(self.session@, position, session_geometry));
        }
        (consumed, actions)
    }
}

/// Law: releasing the session twice has the same observable effect as
/// releasing it once. After one release the session is absent, and the
/// second release changes nothing and clears no flags.
pub proof fn lemma_release_idempotent(s: Session)
    ensures
        spec_release(spec_release(s).0).0 == spec_release(s).0,
        spec_release(spec_release(s).0).1 == Seq::<Action>::empty(),
{
    assert(spec_release(spec_release(s).0).1 =~= Seq::<Action>::empty());
}

/// Law: a cycle request on an output with fewer than two visible windows is
/// consumed but has no effect: no action is emitted and nothing is hidden or
/// restored.
pub proof fn lemma_cycle_no_op_below_two(
    hidden: Seq<u64>,
    view: u64,
    is_root: bool,
    views: Seq<u64>,
)
    requires
        visible_of(views, hidden).len() < 2,
    ensures
        spec_keyboard(hidden, view, is_root, true, MOD_ALT, KEY_LEFT, views) == (
        hidden,
        true,
        Seq::<Action>::empty(),
        ),
        spec_keyboard(hidden, view, is_root, true, MOD_ALT, KEY_RIGHT, views) == (
        hidden,
        true,
        Seq::<Action>::empty(),
        ),
{
}

} // verus!
