use window_hub::classify::{
    can_embed_window, dangerous_classes, is_dangerous_window, EmbedError, RejectReason,
};
use window_hub::filter::{
    excluded_classes, filter_candidates, host_product_name, is_excluded_class,
    is_render_surface_class, render_surface_class, WindowCandidate,
};
use window_hub::geom::Rect;
use window_hub::text::{str_contains, str_eq};

fn rect(left: i32, top: i32, right: i32, bottom: i32) -> Rect {
    Rect { left, top, right, bottom }
}

#[test]
fn substring_containment() {
    assert!(str_contains("hello world", "lo w"));
    assert!(str_contains("hello", ""));
    assert!(str_contains("hello", "hello"));
    assert!(!str_contains("hello", "hello!"));
    assert!(!str_contains("hello", "xyz"));
    assert!(str_contains("abcabd", "abd"));
}

#[test]
fn string_equality() {
    assert!(str_eq("CabinetWClass", "CabinetWClass"));
    assert!(!str_eq("CabinetWClass", "CabinetWClas"));
    assert!(!str_eq("", "a"));
    assert!(str_eq("", ""));
}

#[test]
fn denylist_matches_by_substring() {
    assert!(is_dangerous_window("CabinetWClass"));
    assert!(is_dangerous_window("ExplorerWClass2"));
    assert!(is_dangerous_window("Windows.UI.Core.CoreWindow"));
    assert!(is_dangerous_window("xShell_TrayWndx"));
    assert!(!is_dangerous_window("Notepad"));
    assert!(!is_dangerous_window(""));
}

#[test]
fn denylist_is_exposed() {
    let list = dangerous_classes();
    assert_eq!(list.len(), 8);
    assert!(list.iter().any(|c| c == "CabinetWClass"));
    assert!(list.iter().any(|c| c == "TaskManagerWindow"));
    for entry in &list {
        assert!(is_dangerous_window(entry));
    }
}

#[test]
fn can_embed_rejects_self_process() {
    let r = can_embed_window(7, 7, "Notepad");
    assert!(matches!(
        r,
        Err(EmbedError::NotEmbeddable(RejectReason::SelfProcess))
    ));
}

#[test]
fn can_embed_rejects_forbidden_class() {
    let r = can_embed_window(1, 2, "CabinetWClass");
    match r {
        Err(EmbedError::NotEmbeddable(RejectReason::ForbiddenClass(c))) => {
            assert_eq!(c, "CabinetWClass");
        }
        _ => panic!("expected a forbidden-class rejection"),
    }
}

#[test]
fn can_embed_accepts_ordinary_window() {
    assert!(can_embed_window(1, 2, "Notepad").is_ok());
}

#[test]
fn error_messages_name_the_class() {
    let e = EmbedError::NotEmbeddable(RejectReason::ForbiddenClass(String::from(
        "CabinetWClass",
    )));
    assert!(e.message().contains("CabinetWClass"));
    let gone = EmbedError::Gone;
    assert!(!gone.message().is_empty());
    let os = EmbedError::OsFailure(String::from("set_parent"));
    assert!(os.message().contains("set_parent"));
    assert!(!EmbedError::Unsupported.message().is_empty());
    assert!(!EmbedError::NoHostFrame.message().is_empty());
    assert!(!EmbedError::AlreadyEmbedded.message().is_empty());
}

fn candidate(
    hwnd: isize,
    visible: bool,
    pid: u32,
    title: &str,
    class: &str,
    r: Option<Rect>,
) -> WindowCandidate {
    WindowCandidate {
        hwnd,
        visible,
        pid,
        title: String::from(title),
        class_name: String::from(class),
        rect: r,
    }
}

#[test]
fn enumeration_keeps_only_the_editor() {
    let host_pid = 42;
    let cands = vec![
        candidate(1, true, 42, "WindowHub", "HostFrame", Some(rect(0, 0, 1200, 800))),
        candidate(2, true, 10, "", "Shell_TrayWnd", Some(rect(0, 760, 1200, 800))),
        candidate(3, true, 11, "notes.txt - Editor", "EditorClass", Some(rect(10, 10, 410, 310))),
    ];
    let out = filter_candidates(&cands, host_pid);
    assert_eq!(out.len(), 1);
    assert_eq!(out[0].hwnd, 3);
    assert_eq!(out[0].title, "notes.txt - Editor");
    assert_eq!(out[0].class_name, "EditorClass");
    assert_eq!(out[0].width, 400);
    assert_eq!(out[0].height, 300);
}

#[test]
fn enumeration_filters_small_windows() {
    let cands = vec![
        candidate(1, true, 1, "tiny", "A", Some(rect(0, 0, 100, 300))),
        candidate(2, true, 1, "flat", "B", Some(rect(0, 0, 300, 100))),
        candidate(3, true, 1, "ok", "C", Some(rect(0, 0, 101, 101))),
    ];
    let out = filter_candidates(&cands, 99);
    assert_eq!(out.len(), 1);
    assert_eq!(out[0].hwnd, 3);
    assert_eq!(out[0].width, 101);
    assert_eq!(out[0].height, 101);
}

#[test]
fn enumeration_never_yields_host_windows() {
    let host_pid = 5;
    let cands = vec![
        candidate(1, true, 5, "some window", "A", Some(rect(0, 0, 500, 500))),
        candidate(2, true, 6, "my WindowHub session", "B", Some(rect(0, 0, 500, 500))),
        candidate(3, false, 6, "hidden", "C", Some(rect(0, 0, 500, 500))),
        candidate(4, true, 6, "", "D", Some(rect(0, 0, 500, 500))),
        candidate(5, true, 6, "fine", "E", None),
        candidate(6, true, 6, "fine", "F", Some(rect(0, 0, 500, 500))),
    ];
    let out = filter_candidates(&cands, host_pid);
    assert_eq!(out.len(), 1);
    assert_eq!(out[0].hwnd, 6);
    for info in &out {
        assert!(!info.title.contains(host_product_name()));
    }
}

#[test]
fn enumeration_excludes_listed_classes_exactly() {
    assert!(is_excluded_class("Progman"));
    assert!(is_excluded_class("ApplicationFrameWindow"));
    // exact match only: a variant suffix passes the presentation filter
    assert!(!is_excluded_class("ProgmanX"));
    let list = excluded_classes();
    assert_eq!(list.len(), 7);
    for entry in &list {
        assert!(is_excluded_class(entry));
    }
}

#[test]
fn render_surface_class_is_matched_exactly() {
    assert_eq!(render_surface_class(), "Chrome_RenderWidgetHostHWND");
    assert!(is_render_surface_class("Chrome_RenderWidgetHostHWND"));
    assert!(!is_render_surface_class("Chrome_RenderWidgetHostHWND2"));
    assert!(!is_render_surface_class("Intermediate D3D Window"));
}
