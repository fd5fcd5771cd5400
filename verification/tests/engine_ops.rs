use window_hub::action::{apply_action, apply_plan, Action, WindowModel, ZOrder};
use window_hub::classify::{EmbedError, RejectReason};
use window_hub::engine::{
    activate_window, close_target_window, embed_window, hide_window, is_cursor_in_client_area,
    key_state_is_down, release_window, show_window, update_window_rect, ActivateOutcome,
    UpdateResult, WindowFacts,
};
use window_hub::geom::{Point, PosRect, Rect};
use window_hub::registry::{EmbedRegistry, OriginalState};
use window_hub::style::{
    embedded_style, WS_CHILD, WS_OVERLAPPEDWINDOW, WS_VISIBLE,
};

const NOTEPAD_STYLE: u32 = 0x14CF_0000;
const NOTEPAD_EXSTYLE: u32 = 0x0000_0100;

fn notepad_facts(hwnd: isize, pid: u32) -> WindowFacts {
    WindowFacts {
        hwnd,
        valid: true,
        pid,
        tid: 2,
        class_name: String::from("Notepad"),
        style: NOTEPAD_STYLE,
        exstyle: NOTEPAD_EXSTYLE,
        rect: Rect { left: 50, top: 60, right: 850, bottom: 660 },
    }
}

fn notepad_model() -> WindowModel {
    WindowModel {
        style: NOTEPAD_STYLE,
        exstyle: NOTEPAD_EXSTYLE,
        parent: 0,
        rect: PosRect { x: 50, y: 60, w: 800, h: 600 },
        visible: true,
        minimized: false,
    }
}

const HOST: isize = 900;
const HOST_PID: u32 = 77;
const HOST_STYLE_CLIPPED: u32 = 0x0200_0000;

#[test]
fn embedded_style_strips_decorations() {
    assert_eq!(embedded_style(NOTEPAD_STYLE), 0x5400_0000);
    assert_eq!(embedded_style(0) & WS_CHILD, WS_CHILD);
    assert_eq!(embedded_style(0) & WS_VISIBLE, WS_VISIBLE);
}

#[test]
fn embed_records_state_and_reshapes() {
    let mut reg = EmbedRegistry::new();
    let f = notepad_facts(10, 5);
    let plan = embed_window(&mut reg, HOST, 0, HOST_PID, &f).expect("embed should succeed");
    assert!(reg.contains(10));
    assert_eq!(reg.len(), 1);
    let saved = reg.get(10).unwrap();
    assert_eq!(saved.style, NOTEPAD_STYLE);
    assert_eq!(saved.exstyle, NOTEPAD_EXSTYLE);
    assert_eq!(saved.rect, Rect { left: 50, top: 60, right: 850, bottom: 660 });
    // host fix first (the host lacked the clip-children bit), then the three
    // embedding actions
    assert_eq!(plan.len(), 4);
    assert_eq!(plan[0], Action::SetStyle { hwnd: HOST, style: 0x0200_0000 });
    assert_eq!(plan[1], Action::SetStyle { hwnd: 10, style: 0x5400_0000 });
    assert_eq!(plan[2], Action::SetParent { hwnd: 10, parent: HOST });
    assert!(matches!(plan[3], Action::SetPos { hwnd: 10, z: ZOrder::Top, .. }));
    let m1 = apply_plan(&notepad_model(), &plan, 10);
    assert_eq!(m1.parent, HOST);
    assert_eq!(m1.style, 0x5400_0000);
    assert!(m1.visible);
    assert_eq!(m1.rect, PosRect { x: 50, y: 60, w: 800, h: 600 });
}

#[test]
fn embed_twice_keeps_one_entry() {
    let mut reg = EmbedRegistry::new();
    let f = notepad_facts(10, 5);
    let first = embed_window(&mut reg, HOST, HOST_STYLE_CLIPPED, HOST_PID, &f).unwrap();
    assert_eq!(first.len(), 3);
    let second = embed_window(&mut reg, HOST, HOST_STYLE_CLIPPED, HOST_PID, &f).unwrap();
    assert!(second.is_empty());
    assert_eq!(reg.len(), 1);
    assert_eq!(reg.get(10).unwrap().style, NOTEPAD_STYLE);
}

#[test]
fn embed_rejects_self_process() {
    let mut reg = EmbedRegistry::new();
    let f = notepad_facts(10, HOST_PID);
    let r = embed_window(&mut reg, HOST, HOST_STYLE_CLIPPED, HOST_PID, &f);
    assert!(matches!(
        r,
        Err(EmbedError::NotEmbeddable(RejectReason::SelfProcess))
    ));
    assert!(!reg.contains(10));
}

#[test]
fn embed_rejects_forbidden_class_variant() {
    let mut reg = EmbedRegistry::new();
    let mut f = notepad_facts(10, 5);
    f.class_name = String::from("Shell_TrayWndSecond");
    let r = embed_window(&mut reg, HOST, HOST_STYLE_CLIPPED, HOST_PID, &f);
    match r {
        Err(EmbedError::NotEmbeddable(RejectReason::ForbiddenClass(c))) => {
            assert_eq!(c, "Shell_TrayWndSecond");
        }
        _ => panic!("expected a forbidden-class rejection"),
    }
}

#[test]
fn embed_rejects_dead_window_and_missing_host() {
    let mut reg = EmbedRegistry::new();
    let mut f = notepad_facts(10, 5);
    f.valid = false;
    assert!(matches!(
        embed_window(&mut reg, HOST, HOST_STYLE_CLIPPED, HOST_PID, &f),
        Err(EmbedError::Gone)
    ));
    let f2 = notepad_facts(10, 5);
    assert!(matches!(
        embed_window(&mut reg, 0, HOST_STYLE_CLIPPED, HOST_PID, &f2),
        Err(EmbedError::NoHostFrame)
    ));
    assert_eq!(reg.len(), 0);
}

#[test]
fn embed_two_windows_registers_both() {
    let mut reg = EmbedRegistry::new();
    let f1 = notepad_facts(10, 5);
    let f2 = notepad_facts(11, 6);
    embed_window(&mut reg, HOST, HOST_STYLE_CLIPPED, HOST_PID, &f1).unwrap();
    embed_window(&mut reg, HOST, HOST_STYLE_CLIPPED, HOST_PID, &f2).unwrap();
    assert!(reg.contains(10));
    assert!(reg.contains(11));
    assert_eq!(reg.len(), 2);
}

#[test]
fn notepad_round_trip_restores_everything() {
    let mut reg = EmbedRegistry::new();
    let f = notepad_facts(10, 5);
    let mut m = notepad_model();

    let plan = embed_window(&mut reg, HOST, 0, HOST_PID, &f).unwrap();
    m = apply_plan(&m, &plan, 10);

    let r = update_window_rect(10, true, Some(m.rect), PosRect { x: 0, y: 40, w: 1200, h: 700 });
    match r {
        UpdateResult::Move(a) => m = apply_action(&m, &a, 10),
        _ => panic!("expected a move"),
    }
    assert_eq!(m.rect, PosRect { x: 0, y: 40, w: 1200, h: 700 });

    let plan = release_window(&mut reg, 10, 1, 2);
    m = apply_plan(&m, &plan, 10);

    assert!(!reg.contains(10));
    assert_eq!(reg.len(), 0);
    assert_eq!(m.style, NOTEPAD_STYLE);
    assert_eq!(m.exstyle, NOTEPAD_EXSTYLE);
    assert_eq!(m.rect, PosRect { x: 50, y: 60, w: 800, h: 600 });
    assert_eq!(m.parent, 0);
    assert!(m.visible);
    assert!(!m.minimized);
}

#[test]
fn release_twice_is_idempotent_on_registry() {
    let mut reg = EmbedRegistry::new();
    let f = notepad_facts(10, 5);
    embed_window(&mut reg, HOST, HOST_STYLE_CLIPPED, HOST_PID, &f).unwrap();
    let first = release_window(&mut reg, 10, 1, 2);
    assert!(!reg.contains(10));
    assert!(first.iter().any(|a| *a == Action::SetStyle { hwnd: 10, style: NOTEPAD_STYLE }));
    let second = release_window(&mut reg, 10, 1, 2);
    assert!(!reg.contains(10));
    assert_eq!(reg.len(), 0);
    // the second release finds nothing saved and applies the fallback
    assert!(second.iter().any(
        |a| *a == Action::SetStyle { hwnd: 10, style: WS_OVERLAPPEDWINDOW | WS_VISIBLE }
    ));
}

#[test]
fn release_unknown_handle_uses_fallback() {
    let mut reg = EmbedRegistry::new();
    let plan = release_window(&mut reg, 55, 1, 1);
    assert!(plan.iter().any(|a| matches!(
        a,
        Action::SetPos { hwnd: 55, pos: PosRect { x: 100, y: 100, w: 800, h: 600 }, .. }
    )));
    // same thread: no detach
    assert!(!plan.iter().any(|a| matches!(a, Action::DetachInput { .. })));
    let plan2 = release_window(&mut reg, 55, 1, 2);
    assert!(matches!(plan2[0], Action::DetachInput { src_tid: 1, dst_tid: 2 }));
}

#[test]
fn close_releases_then_posts_close() {
    let mut reg = EmbedRegistry::new();
    let f = notepad_facts(10, 5);
    embed_window(&mut reg, HOST, HOST_STYLE_CLIPPED, HOST_PID, &f).unwrap();
    let plan = close_target_window(&mut reg, 10, 1, 2);
    assert!(!reg.contains(10));
    assert_eq!(*plan.last().unwrap(), Action::PostClose { hwnd: 10 });
    assert!(plan.iter().any(|a| *a == Action::SetParent { hwnd: 10, parent: 0 }));
}

#[test]
fn update_rect_on_invalid_handle_reports_gone() {
    let r = update_window_rect(10, false, None, PosRect { x: 0, y: 0, w: 10, h: 10 });
    assert_eq!(r, UpdateResult::Gone);
}

#[test]
fn update_rect_within_tolerance_issues_nothing() {
    let cur = PosRect { x: 5, y: 5, w: 200, h: 200 };
    let req = PosRect { x: 4, y: 6, w: 201, h: 199 };
    assert_eq!(update_window_rect(10, true, Some(cur), req), UpdateResult::NoChange);
    // identical request repeated any number of times stays a no-op
    assert_eq!(update_window_rect(10, true, Some(cur), req), UpdateResult::NoChange);
}

#[test]
fn update_rect_is_idempotent() {
    let m0 = notepad_model();
    let req = PosRect { x: 0, y: 40, w: 1200, h: 700 };
    let first = update_window_rect(10, true, Some(m0.rect), req);
    let m1 = match first {
        UpdateResult::Move(a) => apply_action(&m0, &a, 10),
        _ => panic!("expected a move"),
    };
    assert_eq!(update_window_rect(10, true, Some(m1.rect), req), UpdateResult::NoChange);
}

#[test]
fn update_rect_beyond_tolerance_moves() {
    let cur = PosRect { x: 0, y: 0, w: 200, h: 200 };
    let req = PosRect { x: 2, y: 0, w: 200, h: 200 };
    match update_window_rect(10, true, Some(cur), req) {
        UpdateResult::Move(Action::SetPos { hwnd, z, pos, flags }) => {
            assert_eq!(hwnd, 10);
            assert_eq!(z, ZOrder::Unchanged);
            assert_eq!(pos, req);
            assert!(flags.no_zorder);
            assert!(flags.no_activate);
            assert!(flags.show);
        }
        _ => panic!("expected a move"),
    }
    // an unreadable current rectangle always moves
    assert!(matches!(
        update_window_rect(10, true, None, req),
        UpdateResult::Move(_)
    ));
}

#[test]
fn activate_dead_window_reports_gone() {
    assert!(matches!(activate_window(10, false, 1, 2, None), ActivateOutcome::Gone));
}

#[test]
fn activate_focuses_render_child() {
    match activate_window(10, true, 1, 2, Some(33)) {
        ActivateOutcome::Plan(plan) => {
            assert!(plan.iter().any(|a| *a == Action::SetFocus { hwnd: 33 }));
            assert!(plan.iter().any(|a| *a == Action::SetActive { hwnd: 33 }));
            assert!(!plan.iter().any(|a| *a == Action::SetFocus { hwnd: 10 }));
        }
        ActivateOutcome::Gone => panic!("window is valid"),
    }
}

#[test]
fn activate_same_thread_never_attaches() {
    match activate_window(10, true, 7, 7, None) {
        ActivateOutcome::Plan(plan) => {
            assert_eq!(plan.len(), 3);
            for a in &plan {
                assert!(!matches!(a, Action::AttachInput { .. }));
                assert!(!matches!(a, Action::DetachInput { .. }));
                assert!(!matches!(a, Action::DeferredDetachInput { .. }));
            }
            assert!(plan.iter().any(|a| *a == Action::SetFocus { hwnd: 10 }));
        }
        ActivateOutcome::Gone => panic!("window is valid"),
    }
}

#[test]
fn activate_cross_thread_attaches_and_defers_detach() {
    match activate_window(10, true, 1, 2, None) {
        ActivateOutcome::Plan(plan) => {
            assert_eq!(plan[0], Action::AttachInput { src_tid: 1, dst_tid: 2 });
            assert_eq!(
                *plan.last().unwrap(),
                Action::DeferredDetachInput { src_tid: 1, dst_tid: 2 }
            );
            for a in &plan {
                if let Action::AttachInput { src_tid, dst_tid } = a {
                    assert_ne!(src_tid, dst_tid);
                }
            }
        }
        ActivateOutcome::Gone => panic!("window is valid"),
    }
}

#[test]
fn hide_show_round_trip_preserves_visibility() {
    let m = notepad_model();
    let hidden = apply_action(&m, &hide_window(10), 10);
    assert!(!hidden.visible);
    let shown = apply_action(&hidden, &show_window(10), 10);
    assert_eq!(shown, m);
    // and the other way round on a hidden window
    let mut dark = m;
    dark.visible = false;
    let lit = apply_action(&dark, &show_window(10), 10);
    let back = apply_action(&lit, &hide_window(10), 10);
    assert_eq!(back, dark);
}

#[test]
fn actions_only_touch_their_target() {
    let m = notepad_model();
    let other = apply_action(&m, &hide_window(11), 10);
    assert_eq!(other, m);
}

#[test]
fn cursor_in_client_area_respects_top_offset() {
    let origin = Point { x: 100, y: 100 };
    let client = Rect { left: 0, top: 0, right: 800, bottom: 600 };
    // inside, below the 40-pixel strip
    assert!(is_cursor_in_client_area(Point { x: 400, y: 200 }, origin, client, 40));
    // inside the window but within the strip
    assert!(!is_cursor_in_client_area(Point { x: 400, y: 120 }, origin, client, 40));
    // outside to the left
    assert!(!is_cursor_in_client_area(Point { x: 99, y: 200 }, origin, client, 0));
    // on the bottom edge
    assert!(is_cursor_in_client_area(Point { x: 400, y: 700 }, origin, client, 0));
    assert!(!is_cursor_in_client_area(Point { x: 400, y: 701 }, origin, client, 0));
}

#[test]
fn key_state_reads_the_high_bit() {
    assert!(key_state_is_down(i16::MIN));
    assert!(key_state_is_down(-1));
    assert!(!key_state_is_down(0));
    assert!(!key_state_is_down(1));
    assert!(!key_state_is_down(i16::MAX));
}

#[test]
fn registry_insert_get_remove() {
    let mut reg = EmbedRegistry::new();
    let st = OriginalState {
        hwnd: 3,
        style: 1,
        exstyle: 2,
        rect: Rect { left: 0, top: 0, right: 10, bottom: 10 },
    };
    assert!(reg.try_insert(st));
    assert!(!reg.try_insert(st));
    assert_eq!(reg.len(), 1);
    assert_eq!(reg.get(3).unwrap(), st);
    assert!(reg.get(4).is_none());
    assert_eq!(reg.remove(3), Some(st));
    assert_eq!(reg.remove(3), None);
    assert_eq!(reg.len(), 0);
}
