use redd_do_core::model::Platform;
use redd_do_core::primary::{
    set_focus_mode_window_state, window_maximize, Maximizing, PrimaryWindowState,
};

#[test]
fn maximize_request_toggles() {
    assert_eq!(window_maximize(Some(true)), Maximizing::Unmaximize);
    assert_eq!(window_maximize(Some(false)), Maximizing::Maximize);
    assert_eq!(window_maximize(None), Maximizing::Maximize);
}

#[test]
fn focus_mode_on_macos_shows_on_every_workspace() {
    assert_eq!(
        set_focus_mode_window_state(Platform::MacOs, true),
        PrimaryWindowState {
            always_on_top: true,
            on_all_workspaces: Some(true),
            min_size: None,
            take_focus: true,
        }
    );
    assert_eq!(
        set_focus_mode_window_state(Platform::MacOs, false),
        PrimaryWindowState {
            always_on_top: false,
            on_all_workspaces: Some(false),
            min_size: None,
            take_focus: false,
        }
    );
}

#[test]
fn focus_mode_on_windows_narrows_the_smallest_size() {
    assert_eq!(
        set_focus_mode_window_state(Platform::Windows, true),
        PrimaryWindowState {
            always_on_top: true,
            on_all_workspaces: None,
            min_size: Some((270, 56)),
            take_focus: true,
        }
    );
    assert_eq!(set_focus_mode_window_state(Platform::Windows, false).min_size, Some((420, 0)));
}

#[test]
fn focus_mode_elsewhere_only_raises_and_focuses() {
    assert_eq!(
        set_focus_mode_window_state(Platform::Linux, true),
        PrimaryWindowState {
            always_on_top: true,
            on_all_workspaces: None,
            min_size: None,
            take_focus: true,
        }
    );
    assert!(!set_focus_mode_window_state(Platform::Linux, false).take_focus);
}
