//! Where the popover goes when it is shown.
//!
//! With a click point the popover is centred horizontally on it, just below
//! a tray at the top of the screen or just above a tray at the bottom. With
//! no click point it is anchored to the top-right (top tray) or bottom-right
//! (bottom tray) corner of the primary display. Nothing is clamped: a
//! popover partly off-screen is accepted.
use vstd::prelude::*;

verus! {

/// Gap below a click on a tray at the top of the screen, clearing the icon.
pub const TOP_TRAY_OFFSET: i64 = 30;

/// Gap between the popover's bottom edge and a click on a bottom tray.
pub const BOTTOM_TRAY_GAP: i64 = 10;

/// Inset from the display's edges when no click point is known.
pub const DISPLAY_MARGIN: i64 = 20;

/// Top of the popover when anchored under a top menu bar without a click.
pub const MENU_BAR_CLEARANCE: i64 = 40;

/// The screen edge that the tray occupies on this platform.
#[derive(Clone, Copy, Debug, PartialEq, Eq, Structural)]
pub enum TrayEdge {
    Top,
    Bottom,
}

/// A size in physical pixels.
#[derive(Clone, Copy, Debug, PartialEq, Eq, Structural)]
pub struct Size {
    pub width: u32,
    pub height: u32,
}

/// A point in screen coordinates, such as where the tray was clicked.
#[derive(Clone, Copy, Debug, PartialEq, Eq, Structural)]
pub struct Point {
    pub x: i32,
    pub y: i32,
}

/// The top-left corner that a window is moved to.
#[derive(Clone, Copy, Debug, PartialEq, Eq, Structural)]
pub struct Position {
    pub x: i64,
    pub y: i64,
}

/// Halves a value and drops the fraction, rounding toward zero.
pub open spec fn half_toward_zero(v: int) -> int {
    if v >= 0 {
        v / 2
    } else {
        -((-v) / 2)
    }
}

/// The popover's top-left corner, as integers: `None` when its size is not
/// known, or when neither a click point nor the display is known.
pub open spec fn placement(
    edge: TrayEdge,
    size: Option<Size>,
    click: Option<Point>,
    display: Option<Size>,
) -> Option<(int, int)> {
    match size {
        None => None,
        Some(sz) => match click {
            Some(p) => Some(
                (
                    half_toward_zero(2 * p.x - sz.width),
                    match edge {
                        TrayEdge::Top => p.y + TOP_TRAY_OFFSET,
                        TrayEdge::Bottom => p.y - sz.height - BOTTOM_TRAY_GAP,
                    },
                ),
            ),
            None => match display {
                None => None,
                Some(d) => Some(
                    (
                        d.width - sz.width - DISPLAY_MARGIN,
                        match edge {
                            TrayEdge::Top => MENU_BAR_CLEARANCE as int,
                            TrayEdge::Bottom => d.height - sz.height - DISPLAY_MARGIN,
                        },
                    ),
                ),
            },
        },
    }
}

pub open spec fn position_is(r: Option<Position>, want: Option<(int, int)>) -> bool {
    match (r, want) {
        (None, None) => true,
        (Some(p), Some(q)) => p.x == q.0 && p.y == q.1,
        _ => false,
    }
}

/// Computes where the popover goes, from its size, the click point if any,
/// and the primary display's size if known.
pub fn popover_placement(
    edge: TrayEdge,
    size: Option<Size>,
    click: Option<Point>,
    display: Option<Size>,
) -> (r: Option<Position>)
    ensures
        position_is(r, placement(edge, size, click, display)),
{
    let sz = match size {
        None => return None,
        Some(sz) => sz,
    };
    let width = sz.width as i64;
    let height = sz.height as i64;
    match click {
        Some(p) => {
            let twice: i64 = 2 * (p.x as i64) - width;
            let x: i64 = if twice >= 0 {
                twice / 2
            } else {
                -((-twice) / 2)
            };
            let y: i64 = match edge {
                TrayEdge::Top => p.y as i64 + TOP_TRAY_OFFSET,
                TrayEdge::Bottom => p.y as i64 - height - BOTTOM_TRAY_GAP,
            };
            Some(Position { x, y })
        },
        None => match display {
            None => None,
            Some(d) => {
                let x: i64 = d.width as i64 - width - DISPLAY_MARGIN;
                let y: i64 = match edge {
                    TrayEdge::Top => MENU_BAR_CLEARANCE,
                    TrayEdge::Bottom => d.height as i64 - height - DISPLAY_MARGIN,
                };
                Some(Position { x, y })
            },
        },
    }
}

} // verus!
