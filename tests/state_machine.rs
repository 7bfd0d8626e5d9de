use hyprshot::cursor::{cursor_name, get_cursor_zone};
use hyprshot::state::{DragMode, Rect, ScreenshotState, Selection, SelectionHitZone, SelectionPhase, Shape, Tool};
use hyprshot::toolbar::toolbar_position;

fn rect(x: i32, y: i32, w: i32, h: i32) -> Rect {
    Rect { x, y, w, h }
}

/// Drags out and finalizes a selection from `(x, y)` by `(dx, dy)`.
fn selected(x: i32, y: i32, dx: i32, dy: i32) -> ScreenshotState {
    let mut s = ScreenshotState::default();
    s.begin_drag(x, y);
    s.update_drag(dx, dy);
    s.end_drag();
    s
}

#[test]
fn create_drag_scenario() {
    let mut s = ScreenshotState::default();
    assert_eq!(s.selection().phase, SelectionPhase::Idle);
    assert_eq!(*s.selection().rect(), Rect::zero());
    s.begin_drag(50, 50);
    assert_eq!(s.selection().phase, SelectionPhase::Dragging);
    s.update_drag(30, 20);
    assert_eq!(*s.selection().rect(), rect(50, 50, 30, 20));
    assert_eq!(s.mouse_pos(), (80, 70));
    s.end_drag();
    assert_eq!(s.selection().phase, SelectionPhase::Finalized);
    assert_eq!(*s.selection().rect(), rect(50, 50, 30, 20));
}

#[test]
fn create_drag_backwards_normalises() {
    let s = selected(50, 50, -30, -20);
    assert_eq!(*s.selection().rect(), rect(20, 30, 30, 20));
}

#[test]
fn empty_drag_falls_back_to_idle() {
    let s = selected(50, 50, 0, 0);
    assert_eq!(s.selection().phase, SelectionPhase::Idle);
    assert!(s.selection().rect().is_empty());
}

#[test]
fn move_drag_translates() {
    let mut s = selected(0, 0, 100, 100);
    s.begin_drag(50, 50);
    s.update_drag(7, -3);
    assert_eq!(*s.selection().rect(), rect(7, -3, 100, 100));
}

#[test]
fn resize_se_corner_grows() {
    let mut s = selected(0, 0, 100, 100);
    s.begin_drag(100, 100);
    s.update_drag(20, 30);
    assert_eq!(*s.selection().rect(), rect(0, 0, 120, 130));
}

#[test]
fn resize_nw_corner_moves_origin() {
    let mut s = selected(0, 0, 100, 100);
    s.begin_drag(0, 0);
    s.update_drag(10, 20);
    assert_eq!(*s.selection().rect(), rect(10, 20, 90, 80));
}

#[test]
fn resize_north_edge_keeps_width() {
    let mut s = selected(0, 0, 100, 100);
    s.begin_drag(50, 2);
    s.update_drag(33, 10);
    assert_eq!(*s.selection().rect(), rect(0, 10, 100, 90));
}

#[test]
fn resize_east_edge_only_width() {
    let mut s = selected(0, 0, 100, 100);
    s.begin_drag(99, 50);
    s.update_drag(-40, 60);
    assert_eq!(*s.selection().rect(), rect(0, 0, 60, 100));
}

#[test]
fn resize_floor_with_extreme_deltas() {
    let corners = [(0, 0), (100, 0), (0, 100), (100, 100), (50, 0), (50, 100), (0, 50), (100, 50)];
    let deltas = [(i32::MAX, i32::MAX), (i32::MIN, i32::MIN), (i32::MAX, i32::MIN), (i32::MIN, i32::MAX), (0, 0)];
    for (cx, cy) in corners {
        for (dx, dy) in deltas {
            let mut s = selected(0, 0, 100, 100);
            s.begin_drag(cx, cy);
            s.update_drag(dx, dy);
            let r = *s.selection().rect();
            assert!(r.w >= 1 && r.h >= 1, "zone at ({}, {}) by ({}, {}) gave {:?}", cx, cy, dx, dy, r);
        }
    }
}

#[test]
fn resize_rect_clamps_each_zone() {
    let mut s = selected(10, 10, 50, 40);
    s.begin_drag(60, 50);
    assert_eq!(s.resize_rect(&SelectionHitZone::NW, 100, 100), rect(110, 110, 1, 1));
    assert_eq!(s.resize_rect(&SelectionHitZone::SE, -100, -100), rect(10, 10, 1, 1));
    assert_eq!(s.resize_rect(&SelectionHitZone::S, 5, 5), rect(10, 10, 50, 45));
    assert_eq!(s.resize_rect(&SelectionHitZone::W, 5, 5), rect(15, 10, 45, 40));
    assert_eq!(s.resize_rect(&SelectionHitZone::Inside, 5, 5), rect(10, 10, 50, 40));
}

#[test]
fn update_without_drag_is_noop() {
    let mut s = ScreenshotState::default();
    s.update_drag(10, 10);
    assert_eq!(s.selection().phase, SelectionPhase::Idle);
    assert_eq!(*s.selection().rect(), Rect::zero());
    assert_eq!(s.mouse_pos(), (0, 0));
}

#[test]
fn toggle_pause_needs_active_selection_and_is_one_way() {
    let mut s = ScreenshotState::default();
    s.toogle_pause();
    assert!(!s.is_paused());
    let mut s = selected(0, 0, 100, 100);
    s.toogle_pause();
    assert!(s.is_paused());
    s.toogle_pause();
    assert!(s.is_paused());
}

#[test]
fn annotation_scenario_preview() {
    let mut s = selected(0, 0, 100, 100);
    assert_eq!(s.selection().phase, SelectionPhase::Finalized);
    assert_eq!(*s.selection().rect(), rect(0, 0, 100, 100));
    s.toogle_pause();
    assert!(s.is_paused());
    s.set_tool(Tool::Rectangle);
    s.set_color((0, 255, 0));
    s.begin_drag(10, 10);
    assert!(s.current_shape().is_none());
    s.update_drag(10, 10);
    let shape = *s.current_shape().unwrap();
    assert_eq!(shape, Shape::Rectangle { rect: rect(10, 10, 10, 10), color: (0, 255, 0) });
    assert!(shape.is_valid());
    assert_eq!(*s.selection().rect(), rect(0, 0, 100, 100));
}

#[test]
fn annotation_drag_outside_selection_is_ignored() {
    let mut s = selected(0, 0, 100, 100);
    s.toogle_pause();
    s.set_tool(Tool::Arrow);
    s.begin_drag(200, 200);
    s.update_drag(10, 10);
    assert!(s.current_shape().is_none());
    assert_eq!(s.mouse_pos(), (200, 200));
}

#[test]
fn annotation_drag_needs_pause() {
    let mut s = selected(0, 0, 100, 100);
    s.set_tool(Tool::Blur);
    s.begin_drag(10, 10);
    s.update_drag(10, 10);
    assert!(s.current_shape().is_none());
}

#[test]
fn arrow_and_blur_previews() {
    let mut s = selected(0, 0, 100, 100);
    s.toogle_pause();
    s.set_tool(Tool::Arrow);
    s.begin_drag(50, 50);
    s.update_drag(-20, 5);
    assert_eq!(*s.current_shape().unwrap(), Shape::Arrow { from: (50, 50), to: (30, 55), color: (255, 0, 0) });
    s.end_drag();
    assert!(s.current_shape().is_none());
    assert_eq!(s.selection().phase, SelectionPhase::Finalized);
    s.set_tool(Tool::Blur);
    s.begin_drag(50, 50);
    s.update_drag(-20, 5);
    assert_eq!(*s.current_shape().unwrap(), Shape::Blur { rect: rect(30, 50, 20, 5) });
}

#[test]
fn rect_from_points_normalises() {
    assert_eq!(ScreenshotState::rect_from_points((5, 9), (1, 2)), rect(1, 2, 4, 7));
    assert_eq!(ScreenshotState::rect_from_points((i32::MIN, 0), (i32::MAX, 0)), rect(i32::MIN, 0, i32::MAX, 0));
}

#[test]
fn shape_validity_boundary() {
    let c = (1, 2, 3);
    assert!(!Shape::Arrow { from: (0, 0), to: (2, 2), color: c }.is_valid());
    assert!(Shape::Arrow { from: (0, 0), to: (4, 4), color: c }.is_valid());
    assert!(!Shape::Arrow { from: (0, 0), to: (3, 1), color: c }.is_valid());
    assert!(Shape::Arrow { from: (0, 0), to: (3, 2), color: c }.is_valid());
    assert!(Shape::Arrow { from: (i32::MIN, i32::MIN), to: (i32::MAX, i32::MAX), color: c }.is_valid());
    assert!(!Shape::Rectangle { rect: rect(0, 0, 5, 6), color: c }.is_valid());
    assert!(!Shape::Rectangle { rect: rect(0, 0, 6, 5), color: c }.is_valid());
    assert!(Shape::Rectangle { rect: rect(0, 0, 6, 6), color: c }.is_valid());
    assert!(!Shape::Blur { rect: rect(0, 0, 5, 100) }.is_valid());
    assert!(Shape::Blur { rect: rect(0, 0, 6, 6) }.is_valid());
}

#[test]
fn rect_contains_is_half_open() {
    let r = rect(10, 10, 5, 5);
    assert!(r.contains((10, 10)));
    assert!(r.contains((14, 14)));
    assert!(!r.contains((15, 14)));
    assert!(!r.contains((14, 15)));
    assert!(!r.contains((9, 10)));
    assert!(!rect(i32::MAX, 0, 1, 1).contains((i32::MIN, 0)));
    assert!(rect(i32::MAX, 0, 1, 1).contains((i32::MAX, 0)));
}

#[test]
fn selection_constructors() {
    let r = rect(1, 2, 3, 4);
    assert!(!Selection::idle().is_active());
    assert_eq!(Selection::dragging(r).phase, SelectionPhase::Dragging);
    assert!(Selection::dragging(r).is_active());
    assert_eq!(*Selection::finalized(r).rect(), r);
    assert_eq!(Selection::finalized(r).phase, SelectionPhase::Finalized);
}

#[test]
fn corner_priority_over_edges() {
    let r = rect(100, 100, 200, 200);
    assert_eq!(get_cursor_zone(&r, (105, 95), Some(10)), SelectionHitZone::NW);
    assert_eq!(get_cursor_zone(&r, (295, 108), Some(10)), SelectionHitZone::NE);
    assert_eq!(get_cursor_zone(&r, (90, 310), Some(10)), SelectionHitZone::SW);
    assert_eq!(get_cursor_zone(&r, (310, 290), Some(10)), SelectionHitZone::SE);
    let small = rect(0, 0, 8, 8);
    assert_eq!(get_cursor_zone(&small, (4, 4), Some(10)), SelectionHitZone::NW);
}

#[test]
fn edges_inside_and_outside() {
    let r = rect(100, 100, 200, 200);
    assert_eq!(get_cursor_zone(&r, (200, 105), None), SelectionHitZone::N);
    assert_eq!(get_cursor_zone(&r, (200, 300), None), SelectionHitZone::S);
    assert_eq!(get_cursor_zone(&r, (92, 200), None), SelectionHitZone::W);
    assert_eq!(get_cursor_zone(&r, (309, 200), None), SelectionHitZone::E);
    assert_eq!(get_cursor_zone(&r, (200, 200), None), SelectionHitZone::Inside);
    assert_eq!(get_cursor_zone(&r, (500, 500), None), SelectionHitZone::Outside);
    assert_eq!(get_cursor_zone(&r, (89, 200), None), SelectionHitZone::Outside);
    assert_eq!(get_cursor_zone(&r, (89, 200), Some(11)), SelectionHitZone::W);
    assert_eq!(get_cursor_zone(&Rect::zero(), (0, 0), None), SelectionHitZone::Outside);
}

#[test]
fn drag_mode_follows_zone() {
    let mut s = selected(100, 100, 200, 200);
    s.begin_drag(200, 200);
    s.update_drag(1, 1);
    assert_eq!(*s.selection().rect(), rect(101, 101, 200, 200));
    let m = DragMode::Resize(SelectionHitZone::N);
    assert_ne!(m, DragMode::Move);
}

#[test]
fn cursor_names() {
    assert_eq!(cursor_name(&SelectionHitZone::Inside), "move");
    assert_eq!(cursor_name(&SelectionHitZone::Outside), "default");
    assert_eq!(cursor_name(&SelectionHitZone::S), "ns-resize");
    assert_eq!(cursor_name(&SelectionHitZone::W), "ew-resize");
    assert_eq!(cursor_name(&SelectionHitZone::SE), "nwse-resize");
    assert_eq!(cursor_name(&SelectionHitZone::NE), "nesw-resize");
}

#[test]
fn toolbar_follows_selection() {
    assert_eq!(toolbar_position(&rect(100, 50, 300, 200), 120), (280, 258));
    assert_eq!(toolbar_position(&rect(0, 0, 50, 50), 120), (10, 58));
    assert_eq!(toolbar_position(&rect(0, i32::MAX, 50, 50), 0), (50, i32::MAX));
}

#[test]
fn paused_geometry_drag_does_not_start() {
    let mut s = selected(0, 0, 100, 100);
    s.toogle_pause();
    for (x, y) in [(50, 50), (0, 0), (100, 50), (300, 300)] {
        s.begin_drag(x, y);
        assert_eq!(s.selection().phase, SelectionPhase::Finalized);
        assert_eq!(s.mouse_pos(), (x, y));
        s.update_drag(25, -25);
        assert_eq!(*s.selection().rect(), rect(0, 0, 100, 100));
        s.end_drag();
        assert_eq!(s.selection().phase, SelectionPhase::Finalized);
    }
}

#[test]
fn pausing_mid_drag_stops_the_geometry() {
    let mut s = ScreenshotState::default();
    s.begin_drag(10, 10);
    s.update_drag(40, 40);
    s.toogle_pause();
    s.update_drag(90, 90);
    assert_eq!(*s.selection().rect(), rect(10, 10, 40, 40));
    s.end_drag();
    assert_eq!(s.selection().phase, SelectionPhase::Finalized);
    assert_eq!(*s.selection().rect(), rect(10, 10, 40, 40));
}
