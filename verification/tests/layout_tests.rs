use pinowm::events::{Action, WmEvent};
use pinowm::geom::Rect;
use pinowm::layout::Layout;
use pinowm::wm::WM;

fn map_event(window: u32, frame: u32) -> WmEvent {
    WmEvent::MapRequest { window, frame, x: 0, y: 0, width: 100, height: 100 }
}

/// The two configure requests for one window, as `arrange_windows` emits
/// them, picked out of an action list.
fn configures(actions: &[Action]) -> Vec<Action> {
    actions
        .iter()
        .filter(|a| {
            matches!(
                a,
                Action::ConfigureClient { .. } | Action::ConfigureFrame { .. }
            )
        })
        .cloned()
        .collect()
}

#[test]
fn column_layout_empty_is_noop() {
    let mut wm = WM::new(800, 600, 10, 2);
    wm.layout = Layout::Column;
    let actions = wm.arrange_windows();
    assert_eq!(actions.len(), 0);
}

#[test]
fn column_layout_single_window_gets_full_width() {
    let mut wm = WM::new(800, 600, 10, 2);
    wm.layout = Layout::Column;
    wm.handle_event(&map_event(1, 101));
    let actions = wm.arrange_windows();
    assert_eq!(
        actions,
        vec![
            Action::ConfigureClient { window: 1, width: 800, height: 590 },
            Action::ConfigureFrame { window: 101, x: 0, y: 10, width: 800, height: 590 },
        ]
    );
}

#[test]
fn column_layout_three_windows_equal_widths() {
    let mut wm = WM::new(800, 600, 10, 2);
    wm.layout = Layout::Column;
    wm.handle_event(&map_event(1, 101));
    wm.handle_event(&map_event(2, 102));
    wm.handle_event(&map_event(3, 103));
    let actions = wm.arrange_windows();
    // floor(800 / 3) = 266; the 2 leftover pixels stay unassigned.
    assert_eq!(
        actions,
        vec![
            Action::ConfigureClient { window: 1, width: 266, height: 590 },
            Action::ConfigureFrame { window: 101, x: 0, y: 10, width: 266, height: 590 },
            Action::ConfigureClient { window: 2, width: 266, height: 590 },
            Action::ConfigureFrame { window: 102, x: 266, y: 10, width: 266, height: 590 },
            Action::ConfigureClient { window: 3, width: 266, height: 590 },
            Action::ConfigureFrame { window: 103, x: 532, y: 10, width: 266, height: 590 },
        ]
    );
}

#[test]
fn tile_layout_empty_is_noop() {
    let wm = WM::new(800, 600, 10, 2);
    let actions = wm.arrange_windows();
    assert_eq!(actions.len(), 0);
}

#[test]
fn tile_layout_single_window_fills_usable_area() {
    let mut wm = WM::new(800, 600, 10, 2);
    let actions = wm.handle_event(&map_event(1, 101));
    assert_eq!(
        configures(&actions),
        vec![
            Action::ConfigureClient { window: 1, width: 800, height: 590 },
            Action::ConfigureFrame { window: 101, x: 0, y: 10, width: 800, height: 590 },
        ]
    );
}

#[test]
fn tile_layout_two_windows_split_halves() {
    let mut wm = WM::new(800, 600, 10, 2);
    wm.handle_event(&map_event(1, 101));
    wm.handle_event(&map_event(2, 102));
    let actions = wm.arrange_windows();
    assert_eq!(
        actions,
        vec![
            Action::ConfigureClient { window: 1, width: 400, height: 590 },
            Action::ConfigureFrame { window: 101, x: 0, y: 10, width: 400, height: 590 },
            Action::ConfigureClient { window: 2, width: 400, height: 590 },
            Action::ConfigureFrame { window: 102, x: 400, y: 10, width: 400, height: 590 },
        ]
    );
}

#[test]
fn tile_layout_three_windows_stack_slaves() {
    let mut wm = WM::new(800, 600, 10, 2);
    wm.handle_event(&map_event(1, 101));
    wm.handle_event(&map_event(2, 102));
    wm.handle_event(&map_event(3, 103));
    let actions = wm.arrange_windows();
    // Slaves each get floor(590 / 2) = 295, at y = 10 and y = 305.
    assert_eq!(
        actions,
        vec![
            Action::ConfigureClient { window: 1, width: 400, height: 590 },
            Action::ConfigureFrame { window: 101, x: 0, y: 10, width: 400, height: 590 },
            Action::ConfigureClient { window: 2, width: 400, height: 295 },
            Action::ConfigureFrame { window: 102, x: 400, y: 10, width: 400, height: 295 },
            Action::ConfigureClient { window: 3, width: 400, height: 295 },
            Action::ConfigureFrame { window: 103, x: 400, y: 305, width: 400, height: 295 },
        ]
    );
}

#[test]
fn tile_layout_slave_remainder_is_slack() {
    let mut wm = WM::new(800, 601, 10, 2);
    wm.handle_event(&map_event(1, 101));
    wm.handle_event(&map_event(2, 102));
    wm.handle_event(&map_event(3, 103));
    let actions = wm.arrange_windows();
    // Usable height 591 over two slaves: each floor(591 / 2) = 295, one
    // pixel of slack at the bottom.
    assert_eq!(
        actions[5],
        Action::ConfigureFrame { window: 103, x: 400, y: 305, width: 400, height: 295 },
    );
}

#[test]
fn render_returns_bar_rectangle() {
    let wm = WM::new(800, 600, 10, 2);
    assert_eq!(wm.render(), Rect { x: 0, y: 0, width: 800, height: 10 });
}
