use alluno_vdd_sys::window_move::{
    plan_window_moves, target_rect, target_rect_in_range, window_plan_in_range, Rect,
    WindowMove, WindowSnapshot, WS_CHILD,
};

fn window(rect: Rect) -> WindowSnapshot {
    WindowSnapshot {
        visible: true,
        is_desktop_or_shell: false,
        style: 0,
        minimized: false,
        rect: Some(rect),
    }
}

fn target() -> Rect {
    target_rect(1920, 0, 1280, 720)
}

#[test]
fn target_rectangle() {
    assert_eq!(target(), Rect { left: 1920, top: 0, right: 3200, bottom: 720 });
    assert!(target_rect_in_range(1920, 0, 1280, 720));
    assert!(!target_rect_in_range(i32::MAX - 10, 0, 11, 1));
    assert!(target_rect_in_range(i32::MAX - 10, 0, 10, 1));
}

#[test]
fn moves_windows_to_center_of_target() {
    let windows = vec![window(Rect { left: 100, top: 100, right: 900, bottom: 700 })];
    assert!(window_plan_in_range(&target(), &windows));
    let plan = plan_window_moves(&target(), &windows);
    // 800x600 window centered on a 1280x720 display at (1920, 0).
    assert_eq!(plan, vec![WindowMove::Normal { index: 0, x: 2160, y: 60, width: 800, height: 600 }]);
}

#[test]
fn large_windows_are_cut_to_target() {
    let windows = vec![window(Rect { left: -50, top: -50, right: 1870, bottom: 1030 })];
    let plan = plan_window_moves(&target(), &windows);
    assert_eq!(plan, vec![WindowMove::Normal { index: 0, x: 1920, y: 0, width: 1280, height: 720 }]);
}

#[test]
fn minimized_windows_change_restored_position() {
    let mut w = window(Rect { left: 0, top: 0, right: 401, bottom: 301 });
    w.minimized = true;
    let plan = plan_window_moves(&target(), &vec![w]);
    assert_eq!(
        plan,
        vec![WindowMove::Minimized {
            index: 0,
            restored: Rect { left: 2359, top: 209, right: 2760, bottom: 510 },
        }]
    );
}

#[test]
fn skipped_windows() {
    let base = Rect { left: 0, top: 0, right: 500, bottom: 500 };
    let mut invisible = window(base);
    invisible.visible = false;
    let mut shell = window(base);
    shell.is_desktop_or_shell = true;
    let mut child = window(base);
    child.style = WS_CHILD;
    let mut unreadable = window(base);
    unreadable.rect = None;
    let on_target = window(Rect { left: 2000, top: 100, right: 2500, bottom: 600 });
    let moved = window(base);
    let windows = vec![invisible, shell, child, unreadable, on_target, moved];
    let plan = plan_window_moves(&target(), &windows);
    assert_eq!(plan, vec![WindowMove::Normal { index: 5, x: 2310, y: 110, width: 500, height: 500 }]);
}

#[test]
fn small_tool_and_owned_windows_are_moved() {
    // Tool windows and owned windows are visible top-level windows too, and
    // so are windows of any size: each one off the display is moved onto it.
    let tiny = window(Rect { left: 0, top: 0, right: 30, bottom: 30 });
    let flat = window(Rect { left: 0, top: 0, right: 500, bottom: 10 });
    let empty = window(Rect { left: 10, top: 10, right: 10, bottom: 10 });
    let mut tool_style = window(Rect { left: 0, top: 0, right: 200, bottom: 100 });
    tool_style.style = 0x0080_0000;
    let plan = plan_window_moves(&target(), &vec![tiny, flat, empty, tool_style]);
    assert_eq!(
        plan,
        vec![
            WindowMove::Normal { index: 0, x: 2545, y: 345, width: 30, height: 30 },
            WindowMove::Normal { index: 1, x: 2310, y: 355, width: 500, height: 10 },
            WindowMove::Normal { index: 2, x: 2560, y: 360, width: 0, height: 0 },
            WindowMove::Normal { index: 3, x: 2460, y: 310, width: 200, height: 100 },
        ]
    );
}

#[test]
fn moved_windows_are_not_moved_again() {
    let windows = vec![
        window(Rect { left: 100, top: 100, right: 900, bottom: 700 }),
        window(Rect { left: -3000, top: -3000, right: 3000, bottom: 3000 }),
        window(Rect { left: 0, top: 800, right: 60, bottom: 860 }),
    ];
    let plan = plan_window_moves(&target(), &windows);
    assert_eq!(plan.len(), 3);
    let moved: Vec<WindowSnapshot> = plan
        .iter()
        .map(|m| match m {
            WindowMove::Normal { x, y, width, height, .. } => {
                window(Rect { left: *x, top: *y, right: x + width, bottom: y + height })
            }
            WindowMove::Minimized { restored, .. } => window(*restored),
        })
        .collect();
    assert!(plan_window_moves(&target(), &moved).is_empty());
}

#[test]
fn plan_range_check() {
    let wide = window(Rect { left: i32::MIN, top: 0, right: i32::MAX, bottom: 100 });
    assert!(!window_plan_in_range(&target(), &vec![wide]));
    let mut hidden = wide;
    hidden.visible = false;
    assert!(window_plan_in_range(&target(), &vec![hidden]));
    let bad_target = Rect { left: i32::MIN, top: 0, right: 1, bottom: 1 };
    assert!(!window_plan_in_range(&bad_target, &vec![]));
}
