use echo_shell::placement::{popover_placement, Point, Position, Size, TrayEdge};

fn size(width: u32, height: u32) -> Option<Size> {
    Some(Size { width, height })
}

#[test]
fn click_on_top_tray_centres_popover_below() {
    let r = popover_placement(TrayEdge::Top, size(300, 200), Some(Point { x: 500, y: 20 }), None);
    assert_eq!(r, Some(Position { x: 350, y: 50 }));
}

#[test]
fn no_click_on_top_tray_anchors_top_right() {
    let r = popover_placement(TrayEdge::Top, size(300, 200), None, size(1920, 1080));
    assert_eq!(r, Some(Position { x: 1600, y: 40 }));
}

#[test]
fn click_on_bottom_tray_places_popover_above() {
    let r = popover_placement(TrayEdge::Bottom, size(300, 200), Some(Point { x: 500, y: 1060 }), None);
    assert_eq!(r, Some(Position { x: 350, y: 850 }));
}

#[test]
fn no_click_on_bottom_tray_anchors_bottom_right() {
    let r = popover_placement(TrayEdge::Bottom, size(300, 200), None, size(1920, 1080));
    assert_eq!(r, Some(Position { x: 1600, y: 860 }));
}

#[test]
fn odd_width_drops_the_half_toward_zero() {
    let r = popover_placement(TrayEdge::Top, size(301, 200), Some(Point { x: 500, y: 20 }), None);
    assert_eq!(r, Some(Position { x: 349, y: 50 }));
    let r = popover_placement(TrayEdge::Top, size(301, 200), Some(Point { x: -10, y: 0 }), None);
    assert_eq!(r, Some(Position { x: -160, y: 30 }));
}

#[test]
fn off_screen_placement_is_not_clamped() {
    let r = popover_placement(TrayEdge::Top, size(300, 200), Some(Point { x: 0, y: 0 }), size(1920, 1080));
    assert_eq!(r, Some(Position { x: -150, y: 30 }));
}

#[test]
fn placement_needs_size_and_an_anchor() {
    assert_eq!(popover_placement(TrayEdge::Top, None, Some(Point { x: 500, y: 20 }), size(1920, 1080)), None);
    assert_eq!(popover_placement(TrayEdge::Top, size(300, 200), None, None), None);
}

#[test]
fn extreme_click_coordinates_do_not_overflow() {
    let r = popover_placement(TrayEdge::Top, size(u32::MAX, 0), Some(Point { x: i32::MIN, y: i32::MAX }), None);
    assert_eq!(r, Some(Position { x: -4_294_967_295, y: i32::MAX as i64 + 30 }));
}
