use lumina::layout::calculate_layout;
use lumina::layout::Geometry;
use lumina::layout::GeometryError;
use lumina::layout::PanelState;
use lumina::layout::Rect;
use lumina::layout::WindowSize;

fn panel(sidebar_open: bool, suggestions_height: u32, vertical_tabs: bool) -> PanelState {
    PanelState { sidebar_open, suggestions_height, vertical_tabs }
}

fn rect(x: u64, y: u64, width: u64, height: u64) -> Rect {
    Rect { x, y, width, height }
}

#[test]
fn horizontal_tabs_with_everything_closed() {
    let window = WindowSize { width: 1200, height: 800 };
    let geometry = calculate_layout(window, panel(false, 0, false));
    assert_eq!(
        geometry,
        Ok(Geometry { primary: rect(0, 0, 1200, 104), secondary: rect(0, 104, 1200, 696) })
    );
}

#[test]
fn vertical_tabs_with_everything_closed() {
    let window = WindowSize { width: 1200, height: 800 };
    let geometry = calculate_layout(window, panel(false, 0, true));
    assert_eq!(
        geometry,
        Ok(Geometry { primary: rect(0, 0, 200, 800), secondary: rect(200, 60, 1000, 740) })
    );
}

#[test]
fn suggestions_grow_the_top_bar() {
    let window = WindowSize { width: 1200, height: 800 };
    let geometry = calculate_layout(window, panel(false, 96, false));
    assert_eq!(
        geometry,
        Ok(Geometry { primary: rect(0, 0, 1200, 200), secondary: rect(0, 200, 1200, 600) })
    );
}

#[test]
fn suggestions_do_not_matter_with_vertical_tabs() {
    let window = WindowSize { width: 1200, height: 800 };
    assert_eq!(
        calculate_layout(window, panel(false, 96, true)),
        calculate_layout(window, panel(false, 0, true))
    );
}

#[test]
fn open_panel_with_horizontal_tabs_takes_the_whole_height() {
    let window = WindowSize { width: 1200, height: 800 };
    let geometry = calculate_layout(window, panel(true, 0, false));
    assert_eq!(
        geometry,
        Ok(Geometry { primary: rect(0, 0, 1200, 800), secondary: rect(0, 104, 880, 696) })
    );
}

#[test]
fn open_panel_with_vertical_tabs_narrows_the_tab_region() {
    let window = WindowSize { width: 1200, height: 800 };
    let geometry = calculate_layout(window, panel(true, 0, true));
    assert_eq!(
        geometry,
        Ok(Geometry { primary: rect(0, 0, 200, 800), secondary: rect(200, 60, 680, 740) })
    );
}

#[test]
fn small_window_clamps_to_zero() {
    let window = WindowSize { width: 100, height: 50 };
    assert_eq!(
        calculate_layout(window, panel(true, 0, true)),
        Ok(Geometry { primary: rect(0, 0, 200, 50), secondary: rect(200, 60, 0, 0) })
    );
    assert_eq!(
        calculate_layout(window, panel(true, 10, false)),
        Ok(Geometry { primary: rect(0, 0, 100, 50), secondary: rect(0, 114, 0, 0) })
    );
}

#[test]
fn empty_window_is_laid_out() {
    let window = WindowSize { width: 0, height: 0 };
    assert_eq!(
        calculate_layout(window, panel(false, 0, false)),
        Ok(Geometry { primary: rect(0, 0, 0, 104), secondary: rect(0, 104, 0, 0) })
    );
}

#[test]
fn largest_window_and_suggestions_do_not_overflow() {
    let window = WindowSize { width: i64::MAX, height: i64::MAX };
    let geometry = calculate_layout(window, panel(false, u32::MAX, false)).unwrap();
    assert_eq!(geometry.primary.height, 104 + u64::from(u32::MAX));
    assert_eq!(geometry.secondary.y, 104 + u64::from(u32::MAX));
    assert_eq!(geometry.secondary.height, (i64::MAX as u64) - 104 - u64::from(u32::MAX));
    assert_eq!(geometry.secondary.width, i64::MAX as u64);
}

#[test]
fn negative_width_is_refused() {
    let window = WindowSize { width: -1, height: 800 };
    assert_eq!(calculate_layout(window, panel(false, 0, false)), Err(GeometryError::NegativeWidth));
    let both = WindowSize { width: -5, height: -5 };
    assert_eq!(calculate_layout(both, panel(false, 0, true)), Err(GeometryError::NegativeWidth));
}

#[test]
fn negative_height_is_refused() {
    let window = WindowSize { width: 1200, height: -1 };
    assert_eq!(calculate_layout(window, panel(true, 0, true)), Err(GeometryError::NegativeHeight));
}

#[test]
fn panel_toggles_change_one_field() {
    let mut state = panel(false, 0, true);
    state.toggle_sidebar(true);
    assert_eq!(state, panel(true, 0, true));
    state.set_suggestions_height(42);
    assert_eq!(state, panel(true, 42, true));
    state.toggle_sidebar(false);
    assert_eq!(state, panel(false, 42, true));
}

#[test]
fn rectangles_are_never_negative_on_a_grid_of_windows() {
    let sizes: [i64; 6] = [0, 1, 59, 200, 520, 4000];
    for width in sizes {
        for height in sizes {
            for open in [false, true] {
                for vertical in [false, true] {
                    let geometry = calculate_layout(
                        WindowSize { width, height },
                        panel(open, 30, vertical),
                    )
                    .unwrap();
                    let w = width as u64;
                    let h = height as u64;
                    assert!(geometry.secondary.width <= w);
                    assert!(geometry.secondary.height <= h);
                    if geometry.secondary.height > 0 {
                        assert_eq!(geometry.secondary.y + geometry.secondary.height, h);
                    }
                }
            }
        }
    }
}
