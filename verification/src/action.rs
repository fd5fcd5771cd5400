//! The vocabulary of window-manager actions a plan is made of, and a model
//! of one window that says what each action does to it.

use vstd::prelude::*;

use crate::geom::PosRect;

verus! {

/// Flags of a move/resize action, mirroring the window manager's
/// positioning flags.
#[derive(Clone, Copy, PartialEq, Eq, Structural, Debug)]
pub struct PosFlags {
    /// Keep the current position.
    pub no_move: bool,
    /// Keep the current size.
    pub no_size: bool,
    /// Keep the current Z-order.
    pub no_zorder: bool,
    /// Do not activate the window.
    pub no_activate: bool,
    /// Show the window.
    pub show: bool,
    /// Recompute the frame after a style change.
    pub frame_changed: bool,
}

/// Where a move/resize action puts the window in the Z-order.
#[derive(Clone, Copy, PartialEq, Eq, Structural, Debug)]
pub enum ZOrder {
    /// Raise to the top of the parent's Z-order.
    Top,
    /// Governed by the flags (used with `no_zorder`).
    Unchanged,
}

/// One window-manager call the core asks its executor to perform. Every
/// action is a one-shot, non-waiting primitive, so a hung foreign window
/// cannot block the host; `PostClose` is asynchronous by nature and
/// `DeferredDetachInput` is performed on a separate task after a short
/// delay, so queued focus messages drain first.
#[derive(Clone, Copy, PartialEq, Eq, Structural, Debug)]
pub enum Action {
    /// Write the basic style bit field.
    SetStyle { hwnd: isize, style: u32 },
    /// Write the extended style bit field.
    SetExStyle { hwnd: isize, exstyle: u32 },
    /// Reparent; parent 0 makes the window top-level again.
    SetParent { hwnd: isize, parent: isize },
    /// Move/resize/Z-order/visibility change in one call.
    SetPos { hwnd: isize, z: ZOrder, pos: PosRect, flags: PosFlags },
    /// Make the window visible.
    ShowWindow { hwnd: isize },
    /// Hide the window.
    HideWindow { hwnd: isize },
    /// Un-minimize and show the window.
    RestoreWindow { hwnd: isize },
    /// Bring the window to the foreground.
    SetForeground { hwnd: isize },
    /// Give the window keyboard focus.
    SetFocus { hwnd: isize },
    /// Make the window the active one.
    SetActive { hwnd: isize },
    /// Share input state between two threads.
    AttachInput { src_tid: u32, dst_tid: u32 },
    /// Undo an input attachment at once.
    DetachInput { src_tid: u32, dst_tid: u32 },
    /// Undo an input attachment after a short delay, on a separate task.
    DeferredDetachInput { src_tid: u32, dst_tid: u32 },
    /// Ask the window to close; never waits for it.
    PostClose { hwnd: isize },
}

/// A model of one foreign window as the core's actions affect it: style
/// bits, parent, the rectangle as last set in the current parent's
/// coordinate space, visibility, and whether it is minimized. Focus and
/// Z-order are transient and not modelled.
#[derive(Clone, Copy, PartialEq, Eq, Structural, Debug)]
pub struct WindowModel {
    pub style: u32,
    pub exstyle: u32,
    /// Parent handle; 0 means top-level.
    pub parent: isize,
    pub rect: PosRect,
    pub visible: bool,
    pub minimized: bool,
}

/// How one action changes the modelled window `target`. Actions aimed at
/// other windows, input-queue actions, and focus actions leave it unchanged.
pub open spec fn spec_apply(m: WindowModel, a: Action, target: isize) -> WindowModel {
    match a {
        Action::SetStyle { hwnd, style } => {
            if hwnd == target {
                WindowModel { style, ..m }
            } else {
                m
            }
        },
        Action::SetExStyle { hwnd, exstyle } => {
            if hwnd == target {
                WindowModel { exstyle, ..m }
            } else {
                m
            }
        },
        Action::SetParent { hwnd, parent } => {
            if hwnd == target {
                WindowModel { parent, ..m }
            } else {
                m
            }
        },
        Action::SetPos { hwnd, z, pos, flags } => {
            if hwnd == target {
                let moved = WindowModel {
                    rect: PosRect {
                        x: if flags.no_move {
                            m.rect.x
                        } else {
                            pos.x
                        },
                        y: if flags.no_move {
                            m.rect.y
                        } else {
                            pos.y
                        },
                        w: if flags.no_size {
                            m.rect.w
                        } else {
                            pos.w
                        },
                        h: if flags.no_size {
                            m.rect.h
                        } else {
                            pos.h
                        },
                    },
                    visible: m.visible || flags.show,
                    ..m
                };
                moved
            } else {
                m
            }
        },
        Action::ShowWindow { hwnd } => {
            if hwnd == target {
                WindowModel { visible: true, ..m }
            } else {
                m
            }
        },
        Action::HideWindow { hwnd } => {
            if hwnd == target {
                WindowModel { visible: false, ..m }
            } else {
                m
            }
        },
        Action::RestoreWindow { hwnd } => {
            if hwnd == target {
                WindowModel { minimized: false, visible: true, ..m }
            } else {
                m
            }
        },
        _ => m,
    }
}

/// The modelled window after a whole plan, applied left to right.
pub open spec fn spec_apply_all(m: WindowModel, plan: Seq<Action>, target: isize) -> WindowModel
    decreases plan.len(),
{
    if plan.len() == 0 {
        m
    } else {
        spec_apply_all(spec_apply(m, plan[0], target), plan.drop_first(), target)
    }
}

pub proof fn lemma_apply_all_push(m: WindowModel, plan: Seq<Action>, a: Action, target: isize)
    ensures
        spec_apply_all(m, plan.push(a), target) == spec_apply(
            spec_apply_all(m, plan, target),
            a,
            target,
        ),
    decreases plan.len(),
{
    if plan.len() == 0 {
        assert(plan.push(a)[0] == a);
        assert(plan.push(a).drop_first() =~= Seq::<Action>::empty());
        assert(spec_apply_all(m, plan.push(a), target) == spec_apply_all(
            spec_apply(m, a, target),
            Seq::<Action>::empty(),
            target,
        ));
        assert(spec_apply_all(m, plan, target) == m);
    } else {
        assert(plan.push(a)[0] == plan[0]);
        assert(plan.push(a).drop_first() =~= plan.drop_first().push(a));
        lemma_apply_all_push(spec_apply(m, plan[0], target), plan.drop_first(), a, target);
        assert(spec_apply_all(m, plan.push(a), target) == spec_apply_all(
            spec_apply(m, plan[0], target),
            plan.drop_first().push(a),
            target,
        ));
        assert(spec_apply_all(m, plan, target) == spec_apply_all(
            spec_apply(m, plan[0], target),
            plan.drop_first(),
            target,
        ));
    }
}

pub proof fn lemma_apply_all_concat(m: WindowModel, p1: Seq<Action>, p2: Seq<Action>, target: isize)
    ensures
        spec_apply_all(m, p1 + p2, target) == spec_apply_all(
            spec_apply_all(m, p1, target),
            p2,
            target,
        ),
    decreases p1.len(),
{
    if p1.len() == 0 {
        assert(p1 + p2 =~= p2);
    } else {
        assert((p1 + p2).drop_first() =~= p1.drop_first() + p2);
        lemma_apply_all_concat(spec_apply(m, p1[0], target), p1.drop_first(), p2, target);
    }
}

/// One step of the reference interpreter; lets a test or a dry run trace a
/// plan against the model.
pub fn apply_action(m: &WindowModel, a: &Action, target: isize) -> (r: WindowModel)
    ensures
        r == spec_apply(*m, *a, target),
{
    match *a {
        Action::SetStyle { hwnd, style } => {
            if hwnd == target {
                WindowModel { style, ..*m }
            } else {
                *m
            }
        },
        Action::SetExStyle { hwnd, exstyle } => {
            if hwnd == target {
                WindowModel { exstyle, ..*m }
            } else {
                *m
            }
        },
        Action::SetParent { hwnd, parent } => {
            if hwnd == target {
                WindowModel { parent, ..*m }
            } else {
                *m
            }
        },
        Action::SetPos { hwnd, z: _, pos, flags } => {
            if hwnd == target {
                WindowModel {
                    rect: PosRect {
                        x: if flags.no_move {
                            m.rect.x
                        } else {
                            pos.x
                        },
                        y: if flags.no_move {
                            m.rect.y
                        } else {
                            pos.y
                        },
                        w: if flags.no_size {
                            m.rect.w
                        } else {
                            pos.w
                        },
                        h: if flags.no_size {
                            m.rect.h
                        } else {
                            pos.h
                        },
                    },
                    visible: m.visible || flags.show,
                    ..*m
                }
            } else {
                *m
            }
        },
        Action::ShowWindow { hwnd } => {
            if hwnd == target {
                WindowModel { visible: true, ..*m }
            } else {
                *m
            }
        },
        Action::HideWindow { hwnd } => {
            if hwnd == target {
                WindowModel { visible: false, ..*m }
            } else {
                *m
            }
        },
        Action::RestoreWindow { hwnd } => {
            if hwnd == target {
                WindowModel { minimized: false, visible: true, ..*m }
            } else {
                *m
            }
        },
        _ => *m,
    }
}

/// Trace a whole plan against the model, left to right.
pub fn apply_plan(m: &WindowModel, plan: &Vec<Action>, target: isize) -> (r: WindowModel)
    ensures
        r == spec_apply_all(*m, plan@, target),
{
    let mut cur = *m;
    let n = plan.len();
    let mut i: usize = 0;
    while i < n
        invariant
            n == plan@.len(),
            0 <= i <= n,
            cur == spec_apply_all(*m, plan@.take(i as int), target),
        decreases n - i,
    {
        proof {
            assert(plan@.take(i as int).push(plan@[i as int]) =~= plan@.take(i + 1));
            lemma_apply_all_push(*m, plan@.take(i as int), plan@[i as int], target);
        }
        cur = apply_action(&cur, &plan[i], target);
        i += 1;
    }
    proof {
        assert(plan@.take(n as int) =~= plan@);
    }
    cur
}

} // verus!
