//! The embedding engine: each command turns the observed window facts and
//! the registry into a plan of actions for the executor to perform.

use vstd::prelude::*;

use crate::action::{Action, PosFlags, ZOrder};
use crate::classify::{is_dangerous_window, spec_is_dangerous, EmbedError, RejectReason};
use crate::geom::{within_tolerance, Point, PosRect, Rect};
use crate::registry::{EmbedRegistry, OriginalState};
use crate::style::{
    has_clip_children, host_has_clip_children, spec_embedded_style, spec_with_clip_children,
    embedded_style, with_clip_children, WS_OVERLAPPEDWINDOW, WS_VISIBLE,
};

verus! {

/// What the executor observed about a foreign window just before a command:
/// validity, owning process and thread, class name, style bit fields, and
/// the screen-space rectangle.
#[derive(Clone, Debug)]
pub struct WindowFacts {
    pub hwnd: isize,
    pub valid: bool,
    pub pid: u32,
    pub tid: u32,
    pub class_name: String,
    pub style: u32,
    pub exstyle: u32,
    pub rect: Rect,
}

/// Flags of the raise used by embed and activate: keep position and size,
/// only lift the window to the top of the host's Z-order and show it.
pub open spec fn spec_raise_flags() -> PosFlags {
    PosFlags {
        no_move: true,
        no_size: true,
        no_zorder: false,
        no_activate: false,
        show: true,
        frame_changed: false,
    }
}

/// Flags of a geometry update: move and resize without touching the Z-order
/// or activation, and keep the window shown.
pub open spec fn spec_move_flags() -> PosFlags {
    PosFlags {
        no_move: false,
        no_size: false,
        no_zorder: true,
        no_activate: true,
        show: true,
        frame_changed: false,
    }
}

/// Flags of the restore at release: apply the frame change of the restored
/// style and show the window.
pub open spec fn spec_restore_flags() -> PosFlags {
    PosFlags {
        no_move: false,
        no_size: false,
        no_zorder: false,
        no_activate: false,
        show: true,
        frame_changed: true,
    }
}

/// The state record embed captures before it touches the window.
pub open spec fn spec_saved_state(f: WindowFacts) -> OriginalState {
    OriginalState { hwnd: f.hwnd, style: f.style, exstyle: f.exstyle, rect: f.rect }
}

/// Why an embed request is refused, checked in this order: a dead handle,
/// the host's own process, a denylisted class, a missing host frame.
pub open spec fn spec_embed_err(host_hwnd: isize, host_pid: u32, f: WindowFacts) -> Option<
    EmbedError,
> {
    if !f.valid {
        Some(EmbedError::Gone)
    } else if f.pid == host_pid {
        Some(EmbedError::NotEmbeddable(RejectReason::SelfProcess))
    } else if spec_is_dangerous(f.class_name@) {
        Some(EmbedError::NotEmbeddable(RejectReason::ForbiddenClass(f.class_name)))
    } else if host_hwnd == 0 {
        Some(EmbedError::NoHostFrame)
    } else {
        None
    }
}

/// The one-time host-frame fix: give the host the clip-children style bit if
/// it lacks it.
pub open spec fn spec_host_fix(host_hwnd: isize, host_style: u32) -> Seq<Action> {
    if has_clip_children(host_style) {
        Seq::empty()
    } else {
        seq![
            (Action::SetStyle { hwnd: host_hwnd, style: spec_with_clip_children(host_style) }),
        ]
    }
}

/// The actions that turn a free window into an embedded child pane: strip
/// the decorations and mark it a visible child, reparent it to the host
/// frame, and raise it to the top of the host's Z-order without moving it.
pub open spec fn spec_embed_actions(host_hwnd: isize, f: WindowFacts) -> Seq<Action> {
    seq![
        (Action::SetStyle { hwnd: f.hwnd, style: spec_embedded_style(f.style) }),
        (Action::SetParent { hwnd: f.hwnd, parent: host_hwnd }),
        (Action::SetPos {
            hwnd: f.hwnd,
            z: ZOrder::Top,
            pos: (PosRect { x: 0, y: 0, w: 0, h: 0 }),
            flags: spec_raise_flags(),
        }),
    ]
}

/// The whole embed transition: either an error and no change, or the new
/// registry and the plan. A handle that is already embedded keeps its single
/// registry entry and gets no actions beyond the host fix.
pub open spec fn spec_embed(
    reg: Map<isize, OriginalState>,
    host_hwnd: isize,
    host_style: u32,
    host_pid: u32,
    f: WindowFacts,
) -> Result<(Map<isize, OriginalState>, Seq<Action>), EmbedError> {
    match spec_embed_err(host_hwnd, host_pid, f) {
        Some(e) => Err(e),
        None => {
            let fix = spec_host_fix(host_hwnd, host_style);
            if reg.contains_key(f.hwnd) {
                Ok((reg, fix))
            } else {
                Ok(
                    (
                        reg.insert(f.hwnd, spec_saved_state(f)),
                        fix + spec_embed_actions(host_hwnd, f),
                    ),
                )
            }
        },
    }
}

/// Embed a foreign window into the host frame.
///
/// On success the registry holds exactly one saved state for the handle and
/// the returned plan reparents and reshapes the window; re-embedding an
/// embedded handle is idempotent success with no actions beyond the host
/// fix. The caller follows a successful embed with `activate_window`.
pub fn embed_window(
    reg: &mut EmbedRegistry,
    host_hwnd: isize,
    host_style: u32,
    host_pid: u32,
    f: &WindowFacts,
) -> (r: Result<Vec<Action>, EmbedError>)
    requires
        f.rect.wf(),
    ensures
        match r {
            Ok(plan) => {
                &&& spec_embed(old(reg)@, host_hwnd, host_style, host_pid, *f) == Ok::<
                    _,
                    EmbedError,
                >((final(reg)@, plan@))
                &&& final(reg)@.contains_key(f.hwnd)
            },
            Err(e) => {
                &&& final(reg)@ == old(reg)@
                &&& spec_embed(old(reg)@, host_hwnd, host_style, host_pid, *f) == Err::<
                    (Map<isize, OriginalState>, Seq<Action>),
                    _,
                >(e)
            },
        },
{
    if !f.valid {
        return Err(EmbedError::Gone);
    }
    if f.pid == host_pid {
        return Err(EmbedError::NotEmbeddable(RejectReason::SelfProcess));
    }
    if is_dangerous_window(f.class_name.as_str()) {
        return Err(EmbedError::NotEmbeddable(RejectReason::ForbiddenClass(f.class_name.clone())));
    }
    if host_hwnd == 0 {
        return Err(EmbedError::NoHostFrame);
    }
    let mut plan: Vec<Action> = Vec::new();
    if !host_has_clip_children(host_style) {
        plan.push(Action::SetStyle { hwnd: host_hwnd, style: with_clip_children(host_style) });
    }
    proof {
        assert(plan@ =~= spec_host_fix(host_hwnd, host_style));
    }
    if reg.contains(f.hwnd) {
        return Ok(plan);
    }
    let st = OriginalState { hwnd: f.hwnd, style: f.style, exstyle: f.exstyle, rect: f.rect };
    let _ = reg.try_insert(st);
    plan.push(Action::SetStyle { hwnd: f.hwnd, style: embedded_style(f.style) });
    plan.push(Action::SetParent { hwnd: f.hwnd, parent: host_hwnd });
    plan.push(
        Action::SetPos {
            hwnd: f.hwnd,
            z: ZOrder::Top,
            pos: PosRect { x: 0, y: 0, w: 0, h: 0 },
            flags: PosFlags {
                no_move: true,
                no_size: true,
                no_zorder: false,
                no_activate: false,
                show: true,
                frame_changed: false,
            },
        },
    );
    proof {
        assert(plan@ =~= spec_host_fix(host_hwnd, host_style) + spec_embed_actions(
            host_hwnd,
            *f,
        ));
    }
    Ok(plan)
}

/// The actions of a release: detach the input queues when the threads
/// differ, make the window top-level again, restore the saved style and
/// rectangle (or a safe fallback when nothing was saved), un-minimize, and
/// bring it to the foreground.
pub open spec fn spec_release_actions(
    hwnd: isize,
    caller_tid: u32,
    window_tid: u32,
    entry: Option<OriginalState>,
) -> Seq<Action> {
    let detach: Seq<Action> = if caller_tid != window_tid {
        seq![(Action::DetachInput { src_tid: caller_tid, dst_tid: window_tid })]
    } else {
        Seq::empty()
    };
    let restore: Seq<Action> = match entry {
        Some(st) => seq![
            (Action::SetStyle { hwnd, style: st.style }),
            (Action::SetExStyle { hwnd, exstyle: st.exstyle }),
            (Action::SetPos {
                hwnd,
                z: ZOrder::Top,
                pos: st.rect.spec_as_pos(),
                flags: spec_restore_flags(),
            }),
        ],
        None => seq![
            (Action::SetStyle { hwnd, style: WS_OVERLAPPEDWINDOW | WS_VISIBLE }),
            (Action::SetPos {
                hwnd,
                z: ZOrder::Top,
                pos: (PosRect { x: 100, y: 100, w: 800, h: 600 }),
                flags: spec_restore_flags(),
            }),
        ],
    };
    detach + seq![(Action::SetParent { hwnd, parent: 0 })] + restore + seq![
        (Action::RestoreWindow { hwnd }),
        (Action::SetForeground { hwnd }),
    ]
}

/// The whole release transition: the registry without the handle, and the
/// plan that restores the window.
pub open spec fn spec_release(
    reg: Map<isize, OriginalState>,
    hwnd: isize,
    caller_tid: u32,
    window_tid: u32,
) -> (Map<isize, OriginalState>, Seq<Action>) {
    let entry = if reg.contains_key(hwnd) {
        Some(reg[hwnd])
    } else {
        None
    };
    (reg.remove(hwnd), spec_release_actions(hwnd, caller_tid, window_tid, entry))
}

/// Release a window back to its standalone state. Always succeeds: a handle
/// without a registry entry gets the safe fallback style and rectangle, and
/// the entry, if any, is consumed exactly once.
pub fn release_window(
    reg: &mut EmbedRegistry,
    hwnd: isize,
    caller_tid: u32,
    window_tid: u32,
) -> (plan: Vec<Action>)
    ensures
        spec_release(old(reg)@, hwnd, caller_tid, window_tid) == (final(reg)@, plan@),
        !final(reg)@.contains_key(hwnd),
{
    let mut plan: Vec<Action> = Vec::new();
    if caller_tid != window_tid {
        plan.push(Action::DetachInput { src_tid: caller_tid, dst_tid: window_tid });
    }
    plan.push(Action::SetParent { hwnd, parent: 0 });
    match reg.remove(hwnd) {
        Some(st) => {
            plan.push(Action::SetStyle { hwnd, style: st.style });
            plan.push(Action::SetExStyle { hwnd, exstyle: st.exstyle });
            let pos = st.rect.as_pos();
            plan.push(
                Action::SetPos {
                    hwnd,
                    z: ZOrder::Top,
                    pos,
                    flags: PosFlags {
                        no_move: false,
                        no_size: false,
                        no_zorder: false,
                        no_activate: false,
                        show: true,
                        frame_changed: true,
                    },
                },
            );
        },
        None => {
            plan.push(Action::SetStyle { hwnd, style: WS_OVERLAPPEDWINDOW | WS_VISIBLE });
            plan.push(
                Action::SetPos {
                    hwnd,
                    z: ZOrder::Top,
                    pos: PosRect { x: 100, y: 100, w: 800, h: 600 },
                    flags: PosFlags {
                        no_move: false,
                        no_size: false,
                        no_zorder: false,
                        no_activate: false,
                        show: true,
                        frame_changed: true,
                    },
                },
            );
        },
    }
    plan.push(Action::RestoreWindow { hwnd });
    plan.push(Action::SetForeground { hwnd });
    proof {
        let entry = if old(reg)@.contains_key(hwnd) {
            Some(old(reg)@[hwnd])
        } else {
            None
        };
        assert(plan@ =~= spec_release_actions(hwnd, caller_tid, window_tid, entry));
    }
    plan
}

/// The close transition: release, then ask the window to close without
/// waiting for it.
pub open spec fn spec_close(
    reg: Map<isize, OriginalState>,
    hwnd: isize,
    caller_tid: u32,
    window_tid: u32,
) -> (Map<isize, OriginalState>, Seq<Action>) {
    let r = spec_release(reg, hwnd, caller_tid, window_tid);
    (r.0, r.1.push(Action::PostClose { hwnd }))
}

/// Best-effort shutdown: release first, so the window is detached even if
/// closing fails, then post the close request. Liveness of the window is
/// polled later through its validity.
pub fn close_target_window(
    reg: &mut EmbedRegistry,
    hwnd: isize,
    caller_tid: u32,
    window_tid: u32,
) -> (plan: Vec<Action>)
    ensures
        spec_close(old(reg)@, hwnd, caller_tid, window_tid) == (final(reg)@, plan@),
        !final(reg)@.contains_key(hwnd),
{
    let mut plan = release_window(reg, hwnd, caller_tid, window_tid);
    plan.push(Action::PostClose { hwnd });
    plan
}

/// The outcome of a geometry update: the window is gone, the request is
/// within tolerance of the current rectangle and dropped, or one move/resize
/// action is issued.
#[derive(Clone, Copy, PartialEq, Eq, Structural, Debug)]
pub enum UpdateResult {
    Gone,
    NoChange,
    Move(Action),
}

/// The geometry-update decision: a dead handle reports `Gone`; a request
/// within one pixel of the observed client rectangle in every component is
/// dropped; anything else becomes one move/resize that keeps the Z-order and
/// does not activate.
pub open spec fn spec_update_rect(
    hwnd: isize,
    valid: bool,
    current: Option<PosRect>,
    req: PosRect,
) -> UpdateResult {
    if !valid {
        UpdateResult::Gone
    } else if current matches Some(c) && within_tolerance(c, req) {
        UpdateResult::NoChange
    } else {
        UpdateResult::Move(
            Action::SetPos { hwnd, z: ZOrder::Unchanged, pos: req, flags: spec_move_flags() },
        )
    }
}

/// Decide a geometry update. `current` is the window's rectangle observed in
/// the host frame's client space (top-left transformed, size taken from the
/// window rectangle); `None` when the window has no parent or the read
/// failed.
pub fn update_window_rect(
    hwnd: isize,
    valid: bool,
    current: Option<PosRect>,
    req: PosRect,
) -> (r: UpdateResult)
    ensures
        r == spec_update_rect(hwnd, valid, current, req),
{
    if !valid {
        return UpdateResult::Gone;
    }
    match current {
        Some(c) => {
            if crate::geom::rects_within_tolerance(&c, &req) {
                return UpdateResult::NoChange;
            }
        },
        None => {},
    }
    UpdateResult::Move(
        Action::SetPos {
            hwnd,
            z: ZOrder::Unchanged,
            pos: req,
            flags: PosFlags {
                no_move: false,
                no_size: false,
                no_zorder: true,
                no_activate: true,
                show: true,
                frame_changed: false,
            },
        },
    )
}

/// The activation plan: attach the input queues only when the window's
/// thread differs from the caller's, raise the window, focus and activate
/// the preferred focus target (a render-surface descendant when one exists,
/// else the window itself), and schedule the deferred detach last, so
/// queued focus messages drain before the link is broken.
pub open spec fn spec_activate_actions(
    hwnd: isize,
    caller_tid: u32,
    window_tid: u32,
    render_child: Option<isize>,
) -> Seq<Action> {
    let attach: Seq<Action> = if caller_tid != window_tid {
        seq![(Action::AttachInput { src_tid: caller_tid, dst_tid: window_tid })]
    } else {
        Seq::empty()
    };
    let detach: Seq<Action> = if caller_tid != window_tid {
        seq![(Action::DeferredDetachInput { src_tid: caller_tid, dst_tid: window_tid })]
    } else {
        Seq::empty()
    };
    let focus_target = match render_child {
        Some(rc) => rc,
        None => hwnd,
    };
    attach + seq![
        (Action::SetPos {
            hwnd,
            z: ZOrder::Top,
            pos: (PosRect { x: 0, y: 0, w: 0, h: 0 }),
            flags: spec_raise_flags(),
        }),
        (Action::SetActive { hwnd: focus_target }),
        (Action::SetFocus { hwnd: focus_target }),
    ] + detach
}

/// The outcome of an activation: the window is gone, or a plan.
#[derive(Clone, Debug)]
pub enum ActivateOutcome {
    Gone,
    Plan(Vec<Action>),
}

/// Route keyboard focus into an embedded window. `render_child` is the
/// render-surface descendant the executor found, if any; focus goes to it
/// rather than to the top-level window, so keystrokes reach the widget that
/// consumes them.
pub fn activate_window(
    hwnd: isize,
    valid: bool,
    caller_tid: u32,
    window_tid: u32,
    render_child: Option<isize>,
) -> (r: ActivateOutcome)
    ensures
        match r {
            ActivateOutcome::Gone => !valid,
            ActivateOutcome::Plan(plan) => valid && plan@ == spec_activate_actions(
                hwnd,
                caller_tid,
                window_tid,
                render_child,
            ),
        },
{
    if !valid {
        return ActivateOutcome::Gone;
    }
    let mut plan: Vec<Action> = Vec::new();
    if caller_tid != window_tid {
        plan.push(Action::AttachInput { src_tid: caller_tid, dst_tid: window_tid });
    }
    plan.push(
        Action::SetPos {
            hwnd,
            z: ZOrder::Top,
            pos: PosRect { x: 0, y: 0, w: 0, h: 0 },
            flags: PosFlags {
                no_move: true,
                no_size: true,
                no_zorder: false,
                no_activate: false,
                show: true,
                frame_changed: false,
            },
        },
    );
    let focus_target = match render_child {
        Some(rc) => rc,
        None => hwnd,
    };
    plan.push(Action::SetActive { hwnd: focus_target });
    plan.push(Action::SetFocus { hwnd: focus_target });
    if caller_tid != window_tid {
        plan.push(Action::DeferredDetachInput { src_tid: caller_tid, dst_tid: window_tid });
    }
    proof {
        assert(plan@ =~= spec_activate_actions(hwnd, caller_tid, window_tid, render_child));
    }
    ActivateOutcome::Plan(plan)
}

/// Hide an embedded child while the search panel overlays it; style and
/// parent stay untouched.
pub fn hide_window(hwnd: isize) -> (a: Action)
    ensures
        a == (Action::HideWindow { hwnd }),
{
    Action::HideWindow { hwnd }
}

/// Show an embedded child again after the overlay closes.
pub fn show_window(hwnd: isize) -> (a: Action)
    ensures
        a == (Action::ShowWindow { hwnd }),
{
    Action::ShowWindow { hwnd }
}

/// Whether the cursor lies in the host frame's client area, below a top
/// strip of `top_offset` pixels. `client_origin` is the client origin in
/// screen coordinates and `client` the client rectangle (origin at zero).
pub open spec fn spec_cursor_in_client_area(
    cursor: Point,
    client_origin: Point,
    client: Rect,
    top_offset: int,
) -> bool {
    let left = client_origin.x as int;
    let top = client_origin.y as int;
    let right = left + client.right;
    let bottom = top + client.bottom;
    let effective_top = top + top_offset;
    &&& cursor.x >= left
    &&& cursor.x <= right
    &&& cursor.y >= effective_top
    &&& cursor.y <= bottom
}

/// The hover test behind the auto-reveal of the tab strip.
pub fn is_cursor_in_client_area(
    cursor: Point,
    client_origin: Point,
    client: Rect,
    top_offset: i32,
) -> (r: bool)
    ensures
        r == spec_cursor_in_client_area(cursor, client_origin, client, top_offset as int),
{
    let left: i64 = client_origin.x as i64;
    let top: i64 = client_origin.y as i64;
    let right: i64 = left + client.right as i64;
    let bottom: i64 = top + client.bottom as i64;
    let effective_top: i64 = top + top_offset as i64;
    let x: i64 = cursor.x as i64;
    let y: i64 = cursor.y as i64;
    x >= left && x <= right && y >= effective_top && y <= bottom
}

/// Whether an asynchronous key-state word reports the key as held: its high
/// bit is set exactly when the signed word is negative.
pub fn key_state_is_down(key_state: i16) -> (r: bool)
    ensures
        r == (key_state < 0),
{
    key_state < 0
}

} // verus!
