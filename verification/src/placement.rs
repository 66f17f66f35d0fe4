//! Where a panel goes: beside an anchor, or cascaded from the primary
//! window.
//!
//! Inputs are 32-bit logical coordinates and a count of panels; results
//! are 128-bit, so that no sum in here can overflow, whatever the count.

use crate::geometry::FocusWindowGeometry;
use vstd::prelude::*;

verus! {

/// How far each further open panel is pushed down and to the right.
pub const CASCADE_STEP: i128 = 28;

/// Offset from the primary window's corner when no anchor is given.
pub const HOME_OFFSET: i128 = 32;

/// Gap kept between an anchor's edge and the panel.
pub const ANCHOR_GAP: i128 = 12;

/// Corner used when the primary window cannot be found.
pub const FALLBACK_ORIGIN: i128 = 120;

/// Width assumed for a panel that cannot be measured.
pub const FALLBACK_WIDTH: u32 = 320;

/// A point in logical units.
#[derive(Clone, Copy, Debug, PartialEq, Eq, Structural)]
pub struct Point {
    pub x: i32,
    pub y: i32,
}

/// A computed top-left corner.
#[derive(Clone, Copy, Debug, PartialEq, Eq, Structural)]
pub struct Position {
    pub x: i128,
    pub y: i128,
}

/// What the adapter saw of the desktop just before a request: the corner
/// of the primary window, the outer width of the panel to be placed, and
/// the monitor that hosts the primary window. Each is `None` when it could
/// not be determined.
#[derive(Clone, Copy, Debug)]
pub struct Scene {
    pub primary: Option<Point>,
    pub panel_width: Option<u32>,
    pub monitor: Option<FocusWindowGeometry>,
}

/// The cascade offset for a panel that has `others` panels beside it.
pub open spec fn cascade(others: nat) -> int {
    CASCADE_STEP * others
}

/// `value` pulled into `low ..= high`.
pub open spec fn clamped(value: int, low: int, high: int) -> int {
    if value < low {
        low
    } else if value > high {
        high
    } else {
        value
    }
}

/// The width that placement reckons with.
pub open spec fn reckoned_width(scene: Scene) -> int {
    match scene.panel_width {
        Some(width) => width as int,
        None => FALLBACK_WIDTH as int,
    }
}

/// The left edge of a panel of `width` placed at an anchor whose edges lie
/// `left` and `right` of the primary window's corner at `primary_x`.
///
/// The panel starts one gap right of the anchor's left edge. Where the
/// monitor is known and the panel then reaches past the anchor's right
/// edge and past the monitor's right bound, it is moved to end one gap
/// left of the anchor's right edge; last, its edge is pulled into the
/// monitor. Where the monitor is not known, the panel is moved in the same
/// way if it reaches more than a gap past the anchor's right edge, and is
/// not pulled anywhere.
pub open spec fn anchored_x(
    primary_x: int,
    left: int,
    right: int,
    width: int,
    monitor: Option<FocusWindowGeometry>,
) -> int {
    let preferred = primary_x + left + ANCHOR_GAP;
    let flipped = primary_x + right - ANCHOR_GAP - width;
    match monitor {
        Some(m) => {
            let low = m.x as int;
            let high = m.x + m.width - width;
            let chosen = if preferred + width > primary_x + right && preferred > high {
                flipped
            } else {
                preferred
            };
            clamped(
                chosen,
                low,
                if high < low {
                    low
                } else {
                    high
                },
            )
        },
        None => if preferred + width > primary_x + right + ANCHOR_GAP {
            flipped
        } else {
            preferred
        },
    }
}

/// The left edge of the placed panel.
pub open spec fn placed_x(
    scene: Scene,
    others: nat,
    anchor_left: Option<i32>,
    anchor_right: Option<i32>,
) -> int {
    match scene.primary {
        None => FALLBACK_ORIGIN + cascade(others),
        Some(primary) => match (anchor_left, anchor_right) {
            (Some(left), Some(right)) => anchored_x(
                primary.x as int,
                left as int,
                right as int,
                reckoned_width(scene),
                scene.monitor,
            ),
            _ => primary.x + HOME_OFFSET + cascade(others),
        },
    }
}

/// The top edge of the placed panel.
pub open spec fn placed_y(
    scene: Scene,
    others: nat,
    anchor_left: Option<i32>,
    anchor_right: Option<i32>,
    anchor_top: Option<i32>,
) -> int {
    match scene.primary {
        None => FALLBACK_ORIGIN + cascade(others),
        Some(primary) => match (anchor_left, anchor_right, anchor_top) {
            (Some(_), Some(_), Some(top)) => primary.y + top + cascade(others),
            _ => primary.y + HOME_OFFSET + cascade(others),
        },
    }
}

fn cascade_offset(others: usize) -> (offset: i128)
    ensures
        offset == cascade(others as nat),
{
    CASCADE_STEP * (others as i128)
}

fn anchored_left_edge(
    primary_x: i32,
    left: i32,
    right: i32,
    width: u32,
    monitor: Option<FocusWindowGeometry>,
) -> (x: i128)
    ensures
        x == anchored_x(primary_x as int, left as int, right as int, width as int, monitor),
{
    let preferred: i128 = primary_x as i128 + left as i128 + ANCHOR_GAP;
    let flipped: i128 = primary_x as i128 + right as i128 - ANCHOR_GAP - width as i128;
    let right_edge: i128 = primary_x as i128 + right as i128;
    match monitor {
        Some(m) => {
            let low: i128 = m.x as i128;
            let high: i128 = m.x as i128 + m.width as i128 - width as i128;
            let chosen: i128 = if preferred + width as i128 > right_edge && preferred > high {
                flipped
            } else {
                preferred
            };
            let top: i128 = if high < low {
                low
            } else {
                high
            };
            if chosen < low {
                low
            } else if chosen > top {
                top
            } else {
                chosen
            }
        },
        None => if preferred + width as i128 > right_edge + ANCHOR_GAP {
            flipped
        } else {
            preferred
        },
    }
}

/// Computes the corner for a panel that has `others` open panels beside
/// it.
///
/// With both anchor edges given the panel goes beside the anchor, see
/// [`anchored_x`]; its top is the anchor's top, or the home offset, below
/// the primary window's corner. Without them it goes to the home offset
/// from that corner. Without a primary window it goes to the fallback
/// corner. The cascade is added to both coordinates, except to an anchored
/// left edge.
pub fn position_focus_window(
    scene: &Scene,
    others: usize,
    anchor_left: Option<i32>,
    anchor_right: Option<i32>,
    anchor_top: Option<i32>,
) -> (position: Position)
    ensures
        position.x == placed_x(*scene, others as nat, anchor_left, anchor_right),
        position.y == placed_y(*scene, others as nat, anchor_left, anchor_right, anchor_top),
{
    let offset = cascade_offset(others);
    match scene.primary {
        None => Position { x: FALLBACK_ORIGIN + offset, y: FALLBACK_ORIGIN + offset },
        Some(primary) => {
            let width: u32 = match scene.panel_width {
                Some(width) => width,
                None => FALLBACK_WIDTH,
            };
            match (anchor_left, anchor_right) {
                (Some(left), Some(right)) => {
                    let x = anchored_left_edge(primary.x, left, right, width, scene.monitor);
                    let y: i128 = match anchor_top {
                        Some(top) => primary.y as i128 + top as i128 + offset,
                        None => primary.y as i128 + HOME_OFFSET + offset,
                    };
                    Position { x, y }
                },
                _ => Position {
                    x: primary.x as i128 + HOME_OFFSET + offset,
                    y: primary.y as i128 + HOME_OFFSET + offset,
                },
            }
        },
    }
}

/// Where the preferred spot fits the monitor, an anchored panel starts one
/// gap right of the anchor's left edge.
pub proof fn lemma_anchor_prefers_left(
    scene: Scene,
    others: nat,
    left: i32,
    right: i32,
)
    requires
        scene.primary is Some,
        scene.monitor is Some,
        scene.monitor->0.x <= scene.primary->0.x + left + ANCHOR_GAP,
        scene.primary->0.x + left + ANCHOR_GAP + reckoned_width(scene) <= scene.monitor->0.x
            + scene.monitor->0.width,
    ensures
        placed_x(scene, others, Some(left), Some(right)) == scene.primary->0.x + left
            + ANCHOR_GAP,
{
}

/// Without an anchor every open panel beside the new one moves it by one
/// cascade step, down and to the right of the home offset, however many
/// there are.
pub proof fn lemma_cascade_steps(scene: Scene, others: nat, anchor_top: Option<i32>)
    requires
        scene.primary is Some,
    ensures
        placed_x(scene, others, None, None) == scene.primary->0.x + HOME_OFFSET + CASCADE_STEP
            * others,
        placed_y(scene, others, None, None, anchor_top) == scene.primary->0.y + HOME_OFFSET
            + CASCADE_STEP * others,
{
}

} // verus!
