//! The primary window: what a request about it asks of the window
//! system.

use crate::model::{Platform, PANEL_MIN_WIDTH};
use vstd::prelude::*;

verus! {

/// Smallest size of the primary window outside focus mode.
pub const PRIMARY_MIN_WIDTH: u32 = 420;

pub const PRIMARY_MIN_HEIGHT: u32 = 0;

/// Smallest height of the primary window as a focus bar.
pub const BAR_MIN_HEIGHT: u32 = 56;

/// What to do about a request to maximize.
#[derive(Clone, Copy, Debug, PartialEq, Eq, Structural)]
pub enum Maximizing {
    Maximize,
    Unmaximize,
}

/// Toggles: a window that is maximized is taken back, any other is
/// maximized. `maximized` is `None` where the window system could not
/// tell, which counts as not maximized.
pub fn window_maximize(maximized: Option<bool>) -> (step: Maximizing)
    ensures
        step == (if maximized == Some(true) {
            Maximizing::Unmaximize
        } else {
            Maximizing::Maximize
        }),
{
    match maximized {
        Some(true) => Maximizing::Unmaximize,
        _ => Maximizing::Maximize,
    }
}

/// What the primary window is set to when it enters or leaves focus
/// mode. A field that is `None` is left as it is.
#[derive(Clone, Copy, Debug, PartialEq, Eq)]
pub struct PrimaryWindowState {
    /// Whether the window stays above others. If this cannot be set, the
    /// adapter reports the failure and leaves the rest undone.
    pub always_on_top: bool,
    /// Whether the window shows on every workspace.
    pub on_all_workspaces: Option<bool>,
    /// The smallest width and height of the window.
    pub min_size: Option<(u32, u32)>,
    /// Whether the window is given the keyboard.
    pub take_focus: bool,
}

/// The setting of the primary window for focus mode on or off.
///
/// It stays above others and takes the keyboard exactly when focus mode
/// is on. On macOS it then also shows on every workspace. On Windows its
/// smallest size is that of a focus bar while focus mode is on, and the
/// usual one again when it is off.
pub open spec fn primary_state(platform: Platform, enabled: bool) -> PrimaryWindowState {
    PrimaryWindowState {
        always_on_top: enabled,
        on_all_workspaces: match platform {
            Platform::MacOs => Some(enabled),
            _ => None,
        },
        min_size: match platform {
            Platform::Windows => Some(
                if enabled {
                    (PANEL_MIN_WIDTH, BAR_MIN_HEIGHT)
                } else {
                    (PRIMARY_MIN_WIDTH, PRIMARY_MIN_HEIGHT)
                },
            ),
            _ => None,
        },
        take_focus: enabled,
    }
}

/// Decides how the primary window is set for focus mode on or off. See
/// [`primary_state`].
pub fn set_focus_mode_window_state(platform: Platform, enabled: bool) -> (state: PrimaryWindowState)
    ensures
        state == primary_state(platform, enabled),
{
    PrimaryWindowState {
        always_on_top: enabled,
        on_all_workspaces: match platform {
            Platform::MacOs => Some(enabled),
            _ => None,
        },
        min_size: match platform {
            Platform::Windows => Some(
                if enabled {
                    (PANEL_MIN_WIDTH, BAR_MIN_HEIGHT)
                } else {
                    (PRIMARY_MIN_WIDTH, PRIMARY_MIN_HEIGHT)
                },
            ),
            _ => None,
        },
        take_focus: enabled,
    }
}

} // verus!
