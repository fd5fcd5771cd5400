//! Enumeration: the candidate snapshot, the presentation filter, and the
//! render-surface class the activation search looks for.

use vstd::prelude::*;
use vstd::string::StrSliceExecFns;
use vstd::string::StringExecFns;

use crate::geom::Rect;
use crate::text::{contains_str, str_contains, str_eq};

verus! {

/// An enumerated foreign window, as handed to the UI: purely informational.
#[derive(Clone, Debug)]
pub struct WindowInfo {
    pub hwnd: isize,
    pub title: String,
    pub class_name: String,
    pub width: i32,
    pub height: i32,
}

/// What enumeration observed of one top-level window, before filtering:
/// visibility, the owning process, title, class, and the window rectangle
/// (`None` when the rectangle could not be read).
#[derive(Clone, Debug)]
pub struct WindowCandidate {
    pub hwnd: isize,
    pub visible: bool,
    pub pid: u32,
    pub title: String,
    pub class_name: String,
    pub rect: Option<Rect>,
}

/// The host's product name; windows whose title carries it are the host's
/// own and never listed.
pub open spec fn spec_host_product_name() -> Seq<char> {
    "WindowHub"@
}

pub fn host_product_name() -> (r: &'static str)
    ensures
        r@ == spec_host_product_name(),
{
    "WindowHub"
}

/// Classes kept out of the listing shown to the user: shell roots, desktop
/// workers, platform core windows, and application-frame hosts. Matched
/// exactly, unlike the embedding denylist.
pub open spec fn spec_excluded_classes() -> Seq<Seq<char>> {
    seq![
        "Progman"@,
        "Shell_TrayWnd"@,
        "Shell_SecondaryTrayWnd"@,
        "Windows.UI.Core.CoreWindow"@,
        "ApplicationFrameWindow"@,
        "WorkerW"@,
        "TaskManagerWindow"@,
    ]
}

/// The presentation exclusion list as strings, in the order
/// `spec_excluded_classes` gives them.
pub fn excluded_classes() -> (r: Vec<String>)
    ensures
        r@.len() == spec_excluded_classes().len(),
        forall|i: int| 0 <= i < r@.len() ==> (#[trigger] r@[i])@ == spec_excluded_classes()[i],
{
    let mut v: Vec<String> = Vec::new();
    v.push(String::from_str("Progman"));
    v.push(String::from_str("Shell_TrayWnd"));
    v.push(String::from_str("Shell_SecondaryTrayWnd"));
    v.push(String::from_str("Windows.UI.Core.CoreWindow"));
    v.push(String::from_str("ApplicationFrameWindow"));
    v.push(String::from_str("WorkerW"));
    v.push(String::from_str("TaskManagerWindow"));
    v
}

pub open spec fn spec_is_excluded_class(class_name: Seq<char>) -> bool {
    exists|i: int| 0 <= i < spec_excluded_classes().len() && class_name == spec_excluded_classes()[i]
}

/// Whether a class is kept out of the listing (exact match).
pub fn is_excluded_class(class_name: &str) -> (r: bool)
    ensures
        r == spec_is_excluded_class(class_name@),
{
    let list = excluded_classes();
    let n = list.len();
    let mut i: usize = 0;
    while i < n
        invariant
            n == list@.len(),
            0 <= i <= n,
            list@.len() == spec_excluded_classes().len(),
            forall|k: int| 0 <= k < n ==> (#[trigger] list@[k])@ == spec_excluded_classes()[k],
            forall|k: int| 0 <= k < i ==> class_name@ != spec_excluded_classes()[k],
        decreases n - i,
    {
        if str_eq(class_name, list[i].as_str()) {
            return true;
        }
        i += 1;
    }
    false
}

/// The presentation filter: a window is listed when it is visible, not the
/// host's own, has a non-empty title that does not carry the host product
/// name, has a class outside the exclusion list, and is larger than 100 by
/// 100 pixels.
pub open spec fn spec_keep(c: WindowCandidate, host_pid: u32) -> bool {
    &&& c.visible
    &&& c.pid != host_pid
    &&& c.title@.len() > 0
    &&& !contains_str(c.title@, spec_host_product_name())
    &&& !spec_is_excluded_class(c.class_name@)
    &&& (c.rect matches Some(r) && r.spec_width() > 100 && r.spec_height() > 100)
}

/// The descriptor a kept candidate turns into.
pub open spec fn spec_info_of(c: WindowCandidate) -> WindowInfo {
    WindowInfo {
        hwnd: c.hwnd,
        title: c.title,
        class_name: c.class_name,
        width: c.rect.unwrap().spec_width() as i32,
        height: c.rect.unwrap().spec_height() as i32,
    }
}

/// The filtered listing: the kept candidates, in enumeration order, as
/// descriptors.
pub open spec fn spec_filter_enum(cands: Seq<WindowCandidate>, host_pid: u32) -> Seq<WindowInfo> {
    cands.filter(|c: WindowCandidate| spec_keep(c, host_pid)).map_values(
        |c: WindowCandidate| spec_info_of(c),
    )
}

proof fn lemma_filter_enum_push(s: Seq<WindowCandidate>, c: WindowCandidate, host_pid: u32)
    ensures
        spec_keep(c, host_pid) ==> spec_filter_enum(s.push(c), host_pid) == spec_filter_enum(
            s,
            host_pid,
        ).push(spec_info_of(c)),
        !spec_keep(c, host_pid) ==> spec_filter_enum(s.push(c), host_pid) == spec_filter_enum(
            s,
            host_pid,
        ),
{
    let pred = |x: WindowCandidate| spec_keep(x, host_pid);
    let f = |x: WindowCandidate| spec_info_of(x);
    reveal(Seq::filter);
    assert(s.push(c).drop_last() =~= s);
    assert(s.push(c).last() == c);
    if pred(c) {
        assert(s.push(c).filter(pred) =~= s.filter(pred).push(c));
        assert(s.filter(pred).push(c).map_values(f) =~= s.filter(pred).map_values(f).push(f(c)));
    } else {
        assert(s.push(c).filter(pred) =~= s.filter(pred));
    }
}

/// Filter an enumeration snapshot for presentation. The snapshot is given in
/// the Z-order the enumeration produced; the order is kept. The filter is
/// advisory: embedding is still gated by the stricter classifier.
pub fn filter_candidates(candidates: &Vec<WindowCandidate>, host_pid: u32) -> (r: Vec<WindowInfo>)
    requires
        forall|i: int|
            0 <= i < candidates@.len() ==> ((#[trigger] candidates@[i]).rect matches Some(rc)
                ==> rc.wf()),
    ensures
        r@ == spec_filter_enum(candidates@, host_pid),
{
    let n = candidates.len();
    let mut r: Vec<WindowInfo> = Vec::new();
    let mut i: usize = 0;
    while i < n
        invariant
            n == candidates@.len(),
            0 <= i <= n,
            forall|k: int|
                0 <= k < candidates@.len() ==> ((#[trigger] candidates@[k]).rect matches Some(rc)
                    ==> rc.wf()),
            r@ == spec_filter_enum(candidates@.take(i as int), host_pid),
        decreases n - i,
    {
        let c = &candidates[i];
        let mut keep = c.visible && c.pid != host_pid;
        if keep {
            keep = !c.title.as_str().is_empty() && !str_contains(
                c.title.as_str(),
                host_product_name(),
            );
        }
        if keep {
            keep = !is_excluded_class(c.class_name.as_str());
        }
        let mut kept_info: Option<WindowInfo> = None;
        if keep {
            match &c.rect {
                Some(rect) => {
                    let w = rect.width();
                    let h = rect.height();
                    if w > 100 && h > 100 {
                        kept_info = Some(
                            WindowInfo {
                                hwnd: c.hwnd,
                                title: c.title.clone(),
                                class_name: c.class_name.clone(),
                                width: w,
                                height: h,
                            },
                        );
                    }
                },
                None => {},
            }
        }
        proof {
            let idx = i as int;
            assert(candidates@.take(idx + 1) =~= candidates@.take(idx).push(candidates@[idx]));
            lemma_filter_enum_push(candidates@.take(i as int), candidates@[i as int], host_pid);
        }
        match kept_info {
            Some(info) => {
                assert(spec_keep(candidates@[i as int], host_pid));
                assert(info == spec_info_of(candidates@[i as int]));
                r.push(info);
            },
            None => {
                assert(!spec_keep(candidates@[i as int], host_pid));
            },
        }
        i += 1;
    }
    proof {
        assert(candidates@.take(n as int) =~= candidates@);
    }
    r
}

/// The class of the render surface a browser-style window hosts its input
/// in; activation prefers such a descendant as the focus target.
pub open spec fn spec_render_surface_class() -> Seq<char> {
    "Chrome_RenderWidgetHostHWND"@
}

pub fn render_surface_class() -> (r: &'static str)
    ensures
        r@ == spec_render_surface_class(),
{
    "Chrome_RenderWidgetHostHWND"
}

/// The predicate the descendant search runs on every child window's class.
pub fn is_render_surface_class(class_name: &str) -> (r: bool)
    ensures
        r == (class_name@ == spec_render_surface_class()),
{
    str_eq(class_name, render_surface_class())
}

} // verus!
