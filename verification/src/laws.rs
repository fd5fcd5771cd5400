//! The library's laws: idempotence of embed and release, the
//! embed-release round trip, the update-storm and visibility identities,
//! and what activation and enumeration never do.

use vstd::prelude::*;

use crate::action::{
    lemma_apply_all_concat, spec_apply, spec_apply_all, Action, WindowModel,
};
use crate::classify::spec_is_dangerous;
use crate::engine::{
    spec_activate_actions, spec_embed, spec_embed_actions, spec_embed_err, spec_host_fix,
    spec_release, spec_saved_state, spec_update_rect, UpdateResult,
    WindowFacts,
};
use crate::filter::{
    spec_filter_enum, spec_host_product_name, spec_info_of, spec_keep, WindowCandidate,
};
use crate::geom::{within_tolerance, PosRect};
use crate::registry::OriginalState;
use crate::style::{spec_embedded_style, WS_CHILD, WS_VISIBLE, WS_CAPTION, WS_POPUP, WS_BORDER};
use crate::text::contains_str;

verus! {

/// The observation a window model gives rise to: the facts an executor
/// would read back from a window that is in state `m`.
pub open spec fn facts_match(f: WindowFacts, m: WindowModel) -> bool {
    &&& f.valid
    &&& f.style == m.style
    &&& f.exstyle == m.exstyle
    &&& f.rect.left == m.rect.x
    &&& f.rect.top == m.rect.y
    &&& f.rect.spec_width() == m.rect.w
    &&& f.rect.spec_height() == m.rect.h
}

proof fn lemma_apply_all_one(m: WindowModel, a: Action, t: isize)
    ensures
        spec_apply_all(m, seq![a], t) == spec_apply(m, a, t),
{
    assert(seq![a][0] == a);
    assert(seq![a].drop_first() =~= Seq::<Action>::empty());
    assert(spec_apply_all(m, seq![a], t) == spec_apply_all(
        spec_apply(m, a, t),
        Seq::<Action>::empty(),
        t,
    ));
}

proof fn lemma_apply_all_two(m: WindowModel, a: Action, b: Action, t: isize)
    ensures
        spec_apply_all(m, seq![a, b], t) == spec_apply(spec_apply(m, a, t), b, t),
{
    assert(seq![a, b].drop_first() =~= seq![b]);
    lemma_apply_all_one(spec_apply(m, a, t), b, t);
}

proof fn lemma_apply_all_three(m: WindowModel, a: Action, b: Action, c: Action, t: isize)
    ensures
        spec_apply_all(m, seq![a, b, c], t) == spec_apply(
            spec_apply(spec_apply(m, a, t), b, t),
            c,
            t,
        ),
{
    assert(seq![a, b, c].drop_first() =~= seq![b, c]);
    lemma_apply_all_two(spec_apply(m, a, t), b, c, t);
}

/// The host-frame fix never touches the foreign window.
proof fn lemma_host_fix_inert(m: WindowModel, host_hwnd: isize, host_style: u32, t: isize)
    requires
        t != host_hwnd,
    ensures
        spec_apply_all(m, spec_host_fix(host_hwnd, host_style), t) == m,
{
    if spec_host_fix(host_hwnd, host_style).len() > 0 {
        lemma_apply_all_one(
            m,
            (Action::SetStyle {
                hwnd: host_hwnd,
                style: crate::style::spec_with_clip_children(host_style),
            }),
            t,
        );
    }
}

/// After a successful first embed of a handle, the registry holds its saved
/// state, the window is parented to the host frame, raised and visible, its
/// geometry untouched, and its style is the original with the child and
/// visible bits present and the decoration bits absent.
pub proof fn lemma_embed_establishes_embedded(
    reg: Map<isize, OriginalState>,
    host_hwnd: isize,
    host_style: u32,
    host_pid: u32,
    f: WindowFacts,
    m: WindowModel,
)
    requires
        facts_match(f, m),
        !reg.contains_key(f.hwnd),
        f.hwnd != host_hwnd,
        spec_embed(reg, host_hwnd, host_style, host_pid, f) is Ok,
    ensures
        ({
            let (reg1, plan) = spec_embed(reg, host_hwnd, host_style, host_pid, f)->Ok_0;
            let m1 = spec_apply_all(m, plan, f.hwnd);
            &&& reg1.contains_key(f.hwnd)
            &&& reg1[f.hwnd] == spec_saved_state(f)
            &&& m1.parent == host_hwnd
            &&& m1.style == spec_embedded_style(m.style)
            &&& m1.style & WS_CHILD == WS_CHILD
            &&& m1.style & WS_VISIBLE == WS_VISIBLE
            &&& m1.style & WS_CAPTION == 0
            &&& m1.style & WS_POPUP == 0
            &&& m1.style & WS_BORDER == 0
            &&& m1.visible
            &&& m1.rect == m.rect
            &&& m1.exstyle == m.exstyle
        }),
{
    let (reg1, plan) = spec_embed(reg, host_hwnd, host_style, host_pid, f)->Ok_0;
    let fix = spec_host_fix(host_hwnd, host_style);
    let acts = spec_embed_actions(host_hwnd, f);
    assert(plan == fix + acts);
    lemma_apply_all_concat(m, fix, acts, f.hwnd);
    lemma_host_fix_inert(m, host_hwnd, host_style, f.hwnd);
    lemma_apply_all_three(m, acts[0], acts[1], acts[2], f.hwnd);
    assert(acts =~= seq![acts[0], acts[1], acts[2]]);
    crate::style::lemma_embedded_style_bits(m.style);
}

/// Releasing an embedded window restores its saved style, extended style,
/// and rectangle, makes it top-level, visible and un-minimized, and removes
/// the registry entry.
pub proof fn lemma_release_restores(
    reg: Map<isize, OriginalState>,
    hwnd: isize,
    caller_tid: u32,
    window_tid: u32,
    m: WindowModel,
)
    requires
        reg.contains_key(hwnd),
    ensures
        ({
            let st = reg[hwnd];
            let (reg1, plan) = spec_release(reg, hwnd, caller_tid, window_tid);
            let m1 = spec_apply_all(m, plan, hwnd);
            &&& !reg1.contains_key(hwnd)
            &&& m1.style == st.style
            &&& m1.exstyle == st.exstyle
            &&& m1.rect == st.rect.spec_as_pos()
            &&& m1.parent == 0
            &&& m1.visible
            &&& !m1.minimized
        }),
{
    let st = reg[hwnd];
    let (reg1, plan) = spec_release(reg, hwnd, caller_tid, window_tid);
    let detach: Seq<Action> = if caller_tid != window_tid {
        seq![(Action::DetachInput { src_tid: caller_tid, dst_tid: window_tid })]
    } else {
        Seq::empty()
    };
    let restore = seq![
        (Action::SetStyle { hwnd, style: st.style }),
        (Action::SetExStyle { hwnd, exstyle: st.exstyle }),
        (Action::SetPos {
            hwnd,
            z: crate::action::ZOrder::Top,
            pos: st.rect.spec_as_pos(),
            flags: crate::engine::spec_restore_flags(),
        }),
    ];
    let tail = seq![(Action::RestoreWindow { hwnd }), (Action::SetForeground { hwnd })];
    let reparent = seq![(Action::SetParent { hwnd, parent: 0 })];
    assert(plan == detach + reparent + restore + tail);
    lemma_apply_all_concat(m, detach + reparent + restore, tail, hwnd);
    lemma_apply_all_concat(m, detach + reparent, restore, hwnd);
    lemma_apply_all_concat(m, detach, reparent, hwnd);
    let m0 = spec_apply_all(m, detach, hwnd);
    if caller_tid != window_tid {
        lemma_apply_all_one(m, detach[0], hwnd);
        assert(detach =~= seq![detach[0]]);
    }
    assert(m0 == m);
    lemma_apply_all_one(m0, reparent[0], hwnd);
    assert(reparent =~= seq![reparent[0]]);
    let m1 = spec_apply(m0, reparent[0], hwnd);
    lemma_apply_all_three(m1, restore[0], restore[1], restore[2], hwnd);
    assert(restore =~= seq![restore[0], restore[1], restore[2]]);
    let m2 = spec_apply_all(m1, restore, hwnd);
    lemma_apply_all_two(m2, tail[0], tail[1], hwnd);
    assert(tail =~= seq![tail[0], tail[1]]);
}

/// A second embed of an already embedded handle is idempotent: it succeeds,
/// adds no actions at all (the host fix has settled: the host carries the
/// clip-children bit after the first embed, whether or not that embed had to
/// set it), and leaves the single registry entry as it is.
pub proof fn lemma_embed_idempotent(
    reg: Map<isize, OriginalState>,
    host_hwnd: isize,
    host_style: u32,
    host_pid: u32,
    f: WindowFacts,
    host_style2: u32,
    f2: WindowFacts,
)
    requires
        spec_embed(reg, host_hwnd, host_style, host_pid, f) is Ok,
        f2.hwnd == f.hwnd,
        f2.valid,
        f2.pid != host_pid,
        !spec_is_dangerous(f2.class_name@),
        host_style2 == crate::style::spec_with_clip_children(host_style),
    ensures
        ({
            let (reg1, plan1) = spec_embed(reg, host_hwnd, host_style, host_pid, f)->Ok_0;
            spec_embed(reg1, host_hwnd, host_style2, host_pid, f2) == Ok::<_, crate::classify::EmbedError>(
                (reg1, Seq::<Action>::empty()),
            )
        }),
{
    let (reg1, plan1) = spec_embed(reg, host_hwnd, host_style, host_pid, f)->Ok_0;
    assert(spec_embed_err(host_hwnd, host_pid, f) is None);
    assert(host_hwnd != 0);
    assert(reg1.contains_key(f2.hwnd));
    crate::style::lemma_clip_children_idempotent(host_style);
    assert(spec_host_fix(host_hwnd, host_style2) =~= Seq::<Action>::empty());
}

/// A second release is idempotent on the registry: it finds no entry and
/// leaves the registry exactly as the first release left it.
pub proof fn lemma_release_idempotent(
    reg: Map<isize, OriginalState>,
    hwnd: isize,
    caller_tid: u32,
    window_tid: u32,
)
    ensures
        ({
            let (reg1, plan1) = spec_release(reg, hwnd, caller_tid, window_tid);
            let (reg2, plan2) = spec_release(reg1, hwnd, caller_tid, window_tid);
            &&& !reg1.contains_key(hwnd)
            &&& reg2 == reg1
        }),
{
    let (reg1, plan1) = spec_release(reg, hwnd, caller_tid, window_tid);
    assert(reg1.remove(hwnd) =~= reg1);
}

/// A geometry request within one pixel of the observed client rectangle is
/// dropped: the plan carries no move/resize at all.
pub proof fn lemma_update_rect_coalesces(hwnd: isize, m: WindowModel, req: PosRect)
    requires
        within_tolerance(m.rect, req),
    ensures
        spec_update_rect(hwnd, true, Some(m.rect), req) == UpdateResult::NoChange,
{
}

/// A burst of identical geometry requests, each deciding on the rectangle
/// the previous decisions left behind: the window reached and the
/// move/resize actions issued.
pub open spec fn spec_update_repeat(
    hwnd: isize,
    m: WindowModel,
    req: PosRect,
    n: nat,
) -> (WindowModel, Seq<Action>)
    decreases n,
{
    if n == 0 {
        (m, Seq::empty())
    } else {
        let prev = spec_update_repeat(hwnd, m, req, (n - 1) as nat);
        match spec_update_rect(hwnd, true, Some(prev.0.rect), req) {
            UpdateResult::Move(a) => (spec_apply(prev.0, a, hwnd), prev.1.push(a)),
            _ => prev,
        }
    }
}

/// A storm of identical requests on a window whose client rectangle already
/// matches within one pixel issues zero move/resize actions, however long
/// the storm.
pub proof fn lemma_update_storm(hwnd: isize, m: WindowModel, req: PosRect, n: nat)
    requires
        within_tolerance(m.rect, req),
    ensures
        spec_update_repeat(hwnd, m, req, n) == (m, Seq::<Action>::empty()),
    decreases n,
{
    if n > 0 {
        lemma_update_storm(hwnd, m, req, (n - 1) as nat);
    }
}

/// A geometry update is idempotent: whatever the first decision on a
/// request did to the window, repeating the same request is dropped.
pub proof fn lemma_update_rect_idempotent(hwnd: isize, m: WindowModel, req: PosRect)
    ensures
        ({
            let first = spec_update_rect(hwnd, true, Some(m.rect), req);
            let m1 = match first {
                UpdateResult::Move(a) => spec_apply(m, a, hwnd),
                _ => m,
            };
            spec_update_rect(hwnd, true, Some(m1.rect), req) == UpdateResult::NoChange
        }),
{
}

/// Activation never attaches a thread's input queue to itself, and the
/// deferred detach exists exactly when an attach does.
pub proof fn lemma_activate_no_self_attach(
    hwnd: isize,
    caller_tid: u32,
    window_tid: u32,
    render_child: Option<isize>,
)
    ensures
        forall|i: int|
            0 <= i < spec_activate_actions(hwnd, caller_tid, window_tid, render_child).len()
                ==> ((#[trigger] spec_activate_actions(hwnd, caller_tid, window_tid, render_child)[i])
                matches Action::AttachInput { src_tid, dst_tid } ==> src_tid != dst_tid),
{
}

/// Activating a window whose thread is the caller's own performs no input
/// attachment or detachment at all.
pub proof fn lemma_activate_same_thread_no_attach(
    hwnd: isize,
    tid: u32,
    render_child: Option<isize>,
)
    ensures
        forall|i: int|
            0 <= i < spec_activate_actions(hwnd, tid, tid, render_child).len() ==> {
                let a = #[trigger] spec_activate_actions(hwnd, tid, tid, render_child)[i];
                &&& !(a is AttachInput)
                &&& !(a is DetachInput)
                &&& !(a is DeferredDetachInput)
            },
{
    let p = spec_activate_actions(hwnd, tid, tid, render_child);
    let focus_target = match render_child {
        Some(rc) => rc,
        None => hwnd,
    };
    assert(p =~= seq![
        (Action::SetPos {
            hwnd,
            z: crate::action::ZOrder::Top,
            pos: (PosRect { x: 0, y: 0, w: 0, h: 0 }),
            flags: crate::engine::spec_raise_flags(),
        }),
        (Action::SetActive { hwnd: focus_target }),
        (Action::SetFocus { hwnd: focus_target }),
    ]);
}

/// When a render-surface descendant exists, focus and activation go to it
/// and never to the top-level window itself.
pub proof fn lemma_activate_focuses_render_child(
    hwnd: isize,
    caller_tid: u32,
    window_tid: u32,
    rc: isize,
)
    ensures
        spec_activate_actions(hwnd, caller_tid, window_tid, Some(rc)).contains(
            (Action::SetFocus { hwnd: rc }),
        ),
        forall|i: int|
            0 <= i < spec_activate_actions(hwnd, caller_tid, window_tid, Some(rc)).len() ==> ((
            #[trigger] spec_activate_actions(hwnd, caller_tid, window_tid, Some(rc))[i]) matches
                Action::SetFocus { hwnd: h } ==> h == rc),
{
    let p = spec_activate_actions(hwnd, caller_tid, window_tid, Some(rc));
    let raise = (Action::SetPos {
        hwnd,
        z: crate::action::ZOrder::Top,
        pos: (PosRect { x: 0, y: 0, w: 0, h: 0 }),
        flags: crate::engine::spec_raise_flags(),
    });
    if caller_tid != window_tid {
        assert(p =~= seq![
            (Action::AttachInput { src_tid: caller_tid, dst_tid: window_tid }),
            raise,
            (Action::SetActive { hwnd: rc }),
            (Action::SetFocus { hwnd: rc }),
            (Action::DeferredDetachInput { src_tid: caller_tid, dst_tid: window_tid }),
        ]);
        assert(p[3] == (Action::SetFocus { hwnd: rc }));
    } else {
        assert(p =~= seq![raise, (Action::SetActive { hwnd: rc }), (Action::SetFocus { hwnd: rc })]);
        assert(p[2] == (Action::SetFocus { hwnd: rc }));
    }
}

/// Every listed window came through the presentation filter: it was visible,
/// not the host's own process, its title is non-empty and free of the host
/// product name, its class is not excluded, and it is larger than 100 by
/// 100; the listed title and class are the candidate's own.
pub proof fn lemma_enumeration_excludes_host(
    cands: Seq<WindowCandidate>,
    host_pid: u32,
    i: int,
)
    requires
        0 <= i < spec_filter_enum(cands, host_pid).len(),
    ensures
        ({
            let out = spec_filter_enum(cands, host_pid);
            exists|c: WindowCandidate|
                {
                    &&& spec_keep(c, host_pid)
                    &&& out[i] == spec_info_of(c)
                }
        }),
        spec_filter_enum(cands, host_pid)[i].title@.len() > 0,
        !contains_str(spec_filter_enum(cands, host_pid)[i].title@, spec_host_product_name()),
{
    let pred = |c: WindowCandidate| spec_keep(c, host_pid);
    let f = |c: WindowCandidate| spec_info_of(c);
    let filtered = cands.filter(pred);
    cands.lemma_filter_pred(pred, i);
    let c = filtered[i];
    assert(spec_filter_enum(cands, host_pid)[i] == f(c));
    assert(spec_keep(c, host_pid) && spec_filter_enum(cands, host_pid)[i] == spec_info_of(c));
}

/// The embed-release round trip: embedding a free window and then releasing
/// it restores its style, extended style, and rectangle bit-exact, leaves
/// it top-level and visible, and returns the registry to its prior
/// contents.
pub proof fn lemma_embed_release_round_trip(
    reg: Map<isize, OriginalState>,
    host_hwnd: isize,
    host_style: u32,
    host_pid: u32,
    f: WindowFacts,
    m: WindowModel,
    caller_tid: u32,
    window_tid: u32,
)
    requires
        facts_match(f, m),
        !reg.contains_key(f.hwnd),
        f.hwnd != host_hwnd,
        spec_embed(reg, host_hwnd, host_style, host_pid, f) is Ok,
    ensures
        ({
            let (reg1, plan_e) = spec_embed(reg, host_hwnd, host_style, host_pid, f)->Ok_0;
            let m1 = spec_apply_all(m, plan_e, f.hwnd);
            let (reg2, plan_r) = spec_release(reg1, f.hwnd, caller_tid, window_tid);
            let m2 = spec_apply_all(m1, plan_r, f.hwnd);
            &&& reg2 == reg
            &&& m2.style == m.style
            &&& m2.exstyle == m.exstyle
            &&& m2.rect == m.rect
            &&& m2.parent == 0
            &&& m2.visible
            &&& !m2.minimized
        }),
{
    let (reg1, plan_e) = spec_embed(reg, host_hwnd, host_style, host_pid, f)->Ok_0;
    let m1 = spec_apply_all(m, plan_e, f.hwnd);
    lemma_embed_establishes_embedded(reg, host_hwnd, host_style, host_pid, f, m);
    lemma_release_restores(reg1, f.hwnd, caller_tid, window_tid, m1);
    assert(reg1.remove(f.hwnd) =~= reg);
    assert(reg1[f.hwnd].rect.spec_as_pos() == m.rect);
}

/// Embedding two distinct eligible windows succeeds for both, the registry
/// then holds both saved states, and the final registry does not depend on
/// the order in which the two embeds were serialised.
pub proof fn lemma_embed_two_windows(
    reg: Map<isize, OriginalState>,
    host_hwnd: isize,
    host_style1: u32,
    host_style2: u32,
    host_pid: u32,
    f1: WindowFacts,
    f2: WindowFacts,
)
    requires
        f1.hwnd != f2.hwnd,
        !reg.contains_key(f1.hwnd),
        !reg.contains_key(f2.hwnd),
        spec_embed(reg, host_hwnd, host_style1, host_pid, f1) is Ok,
        f2.valid,
        f2.pid != host_pid,
        !spec_is_dangerous(f2.class_name@),
    ensures
        ({
            let (reg1, _) = spec_embed(reg, host_hwnd, host_style1, host_pid, f1)->Ok_0;
            let r2 = spec_embed(reg1, host_hwnd, host_style2, host_pid, f2);
            &&& r2 is Ok
            &&& r2->Ok_0.0.contains_key(f1.hwnd)
            &&& r2->Ok_0.0.contains_key(f2.hwnd)
            &&& r2->Ok_0.0 == reg.insert(f2.hwnd, spec_saved_state(f2)).insert(
                f1.hwnd,
                spec_saved_state(f1),
            )
        }),
{
    assert(spec_embed_err(host_hwnd, host_pid, f1) is None);
    assert(host_hwnd != 0);
    let (reg1, _) = spec_embed(reg, host_hwnd, host_style1, host_pid, f1)->Ok_0;
    let r2 = spec_embed(reg1, host_hwnd, host_style2, host_pid, f2);
    assert(r2 is Ok);
    assert(r2->Ok_0.0 =~= reg.insert(f2.hwnd, spec_saved_state(f2)).insert(
        f1.hwnd,
        spec_saved_state(f1),
    ));
}

/// Hiding then showing a visible window is the identity on the whole model;
/// in particular visibility returns to what it was.
pub proof fn lemma_hide_show_identity(m: WindowModel, hwnd: isize)
    requires
        m.visible,
    ensures
        spec_apply(
            spec_apply(m, (Action::HideWindow { hwnd }), hwnd),
            (Action::ShowWindow { hwnd }),
            hwnd,
        ) == m,
{
}

/// Showing then hiding a hidden window is the identity on the whole model.
pub proof fn lemma_show_hide_identity(m: WindowModel, hwnd: isize)
    requires
        !m.visible,
    ensures
        spec_apply(
            spec_apply(m, (Action::ShowWindow { hwnd }), hwnd),
            (Action::HideWindow { hwnd }),
            hwnd,
        ) == m,
{
}

} // verus!
