use redd_do_core::action::Action;
use redd_do_core::geometry::FocusWindowGeometry;
use redd_do_core::manager::{
    creation_failed, enter_fullscreen_focus_handoff, exit_fullscreen_focus_handoff,
    exit_fullscreen_focus_to_home, open_focus_window, FocusManager,
};
use redd_do_core::model::{Phase, Platform};
use redd_do_core::placement::{Point, Scene};

fn scene() -> Scene {
    Scene { primary: Some(Point { x: 0, y: 0 }), panel_width: Some(360), monitor: None }
}

fn rect(x: i32, y: i32, width: u32, height: u32) -> FocusWindowGeometry {
    FocusWindowGeometry { x, y, width, height }
}

fn label(a: &Action) -> Option<&str> {
    match a {
        Action::Hide { label }
        | Action::Close { label }
        | Action::Raise { label }
        | Action::Resize { label, .. }
        | Action::MoveTo { label, .. } => Some(label),
        _ => None,
    }
}

fn opened_manager(id: &str) -> FocusManager {
    let mut m = FocusManager::new(Platform::MacOs);
    open_focus_window(&mut m, &scene(), id, "Task", None, None, None, None);
    m
}

#[test]
fn handoff_creates_the_fullscreen_surface_and_hides_the_panel_afterwards() {
    let mut m = opened_manager("a 1");
    let plan = enter_fullscreen_focus_handoff(&mut m, "a 1", "Task", Some(rect(5, 6, 300, 48)));
    assert_eq!(
        plan,
        vec![
            Action::CreateFullscreen {
                label: "focusfs-a_201".to_string(),
                url: "index.html?focus=1&fullscreen=1&taskId=a%201&taskName=Task".to_string(),
            },
            Action::SendTask {
                label: "focusfs-a_201".to_string(),
                task_id: "a 1".to_string(),
                task_name: "Task".to_string(),
                preserve_geometry: None,
            },
            Action::Focus { label: "focusfs-a_201".to_string() },
            Action::Hide { label: "focus-a_201".to_string() },
        ]
    );
    assert_eq!(m.phase("a 1"), Phase::FullscreenOpen);
    assert_eq!(m.fullscreen_handoff_geometry("a 1"), Some(rect(5, 6, 300, 48)));
}

#[test]
fn handoff_without_a_measured_rectangle_keeps_none() {
    let mut m = opened_manager("a");
    enter_fullscreen_focus_handoff(&mut m, "a", "Task", None);
    assert_eq!(m.phase("a"), Phase::FullscreenOpen);
    assert_eq!(m.fullscreen_handoff_geometry("a"), None);
}

#[test]
fn handoff_for_a_task_without_open_panel_does_nothing() {
    let mut m = FocusManager::new(Platform::MacOs);
    assert!(enter_fullscreen_focus_handoff(&mut m, "a", "Task", Some(rect(1, 2, 3, 4))).is_empty());
    assert_eq!(m.phase("a"), Phase::Closed);
    assert_eq!(m.fullscreen_handoff_geometry("a"), None);

    let mut m = opened_manager("a");
    open_focus_window(&mut m, &scene(), "b", "B", None, None, None, None);
    assert!(enter_fullscreen_focus_handoff(&mut m, "a", "Task", Some(rect(1, 2, 3, 4))).is_empty());
    assert_eq!(m.fullscreen_handoff_geometry("a"), None);
}

#[test]
fn plain_tier_has_no_handoff() {
    for platform in [Platform::Windows, Platform::Linux] {
        let mut m = FocusManager::new(platform);
        open_focus_window(&mut m, &scene(), "a", "A", None, None, None, None);
        assert!(enter_fullscreen_focus_handoff(&mut m, "a", "A", Some(rect(1, 2, 3, 4))).is_empty());
        assert_eq!(m.phase("a"), Phase::PanelOpen);
        assert_eq!(m.fullscreen_handoff_geometry("a"), None);
        assert!(exit_fullscreen_focus_handoff(&mut m, "focus-a", &scene(), "a", "A").is_empty());
        assert_eq!(m.phase("a"), Phase::PanelOpen);
    }
}

#[test]
fn round_trip_restores_the_rectangle_captured_at_handoff() {
    let mut m = opened_manager("a");
    let captured = rect(811, 377, 512, 96);
    enter_fullscreen_focus_handoff(&mut m, "a", "Task", Some(captured));
    let plan = exit_fullscreen_focus_handoff(&mut m, "focusfs-a", &scene(), "a", "Task");
    assert_eq!(
        plan,
        vec![
            Action::Raise { label: "focus-a".to_string() },
            Action::MoveTo { label: "focus-a".to_string(), x: 32, y: 32 },
            Action::SendTask {
                label: "focus-a".to_string(),
                task_id: "a".to_string(),
                task_name: "Task".to_string(),
                preserve_geometry: Some(true),
            },
            Action::NotifyOpened { task_id: "a".to_string() },
            Action::HidePrimary,
            Action::Resize { label: "focus-a".to_string(), width: 512, height: 96 },
            Action::MoveTo { label: "focus-a".to_string(), x: 811, y: 377 },
            Action::Close { label: "focusfs-a".to_string() },
        ]
    );
    // The last word on the panel's size and corner is the captured rectangle.
    let last_size = plan.iter().rev().find(|a| matches!(a, Action::Resize { .. }) && label(a) == Some("focus-a"));
    let last_corner = plan.iter().rev().find(|a| matches!(a, Action::MoveTo { .. }) && label(a) == Some("focus-a"));
    assert_eq!(last_size, Some(&Action::Resize { label: "focus-a".to_string(), width: 512, height: 96 }));
    assert_eq!(last_corner, Some(&Action::MoveTo { label: "focus-a".to_string(), x: 811, y: 377 }));
    assert_eq!(m.phase("a"), Phase::PanelOpen);
    assert_eq!(m.fullscreen_handoff_geometry("a"), None);
}

#[test]
fn handoff_back_from_another_surface_closes_the_tracked_fullscreen_surface() {
    let mut m = opened_manager("a");
    enter_fullscreen_focus_handoff(&mut m, "a", "Task", None);
    let plan = exit_fullscreen_focus_handoff(&mut m, "main", &scene(), "a", "Task");
    assert_eq!(plan.last(), Some(&Action::Close { label: "focusfs-a".to_string() }));
    assert!(!plan.iter().any(|a| matches!(a, Action::Resize { .. })));
    assert_eq!(m.phase("a"), Phase::PanelOpen);
}

#[test]
fn second_handoff_shows_an_existing_fullscreen_surface_again() {
    let mut m = opened_manager("a");
    enter_fullscreen_focus_handoff(&mut m, "a", "Task", None);
    // The panel comes back while the fullscreen surface stays up.
    open_focus_window(&mut m, &scene(), "a", "Task", None, None, None, None);
    let plan = enter_fullscreen_focus_handoff(&mut m, "a", "Task", Some(rect(9, 9, 9, 9)));
    assert_eq!(
        plan,
        vec![
            Action::RaiseFullscreen { label: "focusfs-a".to_string() },
            Action::SendTask {
                label: "focusfs-a".to_string(),
                task_id: "a".to_string(),
                task_name: "Task".to_string(),
                preserve_geometry: None,
            },
            Action::Hide { label: "focus-a".to_string() },
        ]
    );
}

#[test]
fn going_home_always_drops_the_handoff_rectangle() {
    for platform in [Platform::MacOs, Platform::Windows, Platform::Linux] {
        let mut m = FocusManager::new(platform);
        open_focus_window(&mut m, &scene(), "a", "A", None, None, None, None);
        enter_fullscreen_focus_handoff(&mut m, "a", "A", Some(rect(1, 2, 3, 4)));
        exit_fullscreen_focus_to_home(&mut m, "focusfs-a", "a", Some(true));
        assert_eq!(m.fullscreen_handoff_geometry("a"), None);
        assert_eq!(m.phase("a"), Phase::Closed);
        // Also where there was nothing to drop.
        exit_fullscreen_focus_to_home(&mut m, "main", "never-opened", None);
        assert_eq!(m.fullscreen_handoff_geometry("never-opened"), None);
    }
}

#[test]
fn going_home_from_fullscreen_on_the_rich_tier() {
    let mut m = opened_manager("a");
    enter_fullscreen_focus_handoff(&mut m, "a", "Task", Some(rect(1, 2, 3, 4)));
    let plan = exit_fullscreen_focus_to_home(&mut m, "focusfs-a", "a", Some(true));
    assert_eq!(
        plan,
        vec![
            Action::Close { label: "focusfs-a".to_string() },
            Action::Hide { label: "focus-a".to_string() },
            Action::NotifyClosed { closed_task: Some("a".to_string()), complete_on_home: Some(true) },
            Action::RestorePrimary,
        ]
    );
    assert_eq!(m.panel_count(), 1);
}

#[test]
fn going_home_from_elsewhere_closes_the_tracked_fullscreen_surface() {
    let mut m = opened_manager("a");
    enter_fullscreen_focus_handoff(&mut m, "a", "Task", None);
    let plan = exit_fullscreen_focus_to_home(&mut m, "main", "a", None);
    assert_eq!(plan[0], Action::Close { label: "focusfs-a".to_string() });
    assert_eq!(
        plan[2],
        Action::NotifyClosed { closed_task: Some("a".to_string()), complete_on_home: Some(false) }
    );
}

#[test]
fn going_home_on_the_plain_tier_closes_the_panel() {
    let mut m = FocusManager::new(Platform::Linux);
    open_focus_window(&mut m, &scene(), "a", "A", None, None, None, None);
    let plan = exit_fullscreen_focus_to_home(&mut m, "focus-a", "a", Some(false));
    assert_eq!(
        plan,
        vec![
            Action::Close { label: "focus-a".to_string() },
            Action::NotifyClosed { closed_task: Some("a".to_string()), complete_on_home: Some(false) },
            Action::RestorePrimary,
        ]
    );
    assert_eq!(m.panel_count(), 0);
}

#[test]
fn going_home_without_a_session_still_tells_the_primary_window() {
    let mut m = FocusManager::new(Platform::MacOs);
    let plan = exit_fullscreen_focus_to_home(&mut m, "main", "a", None);
    assert_eq!(
        plan,
        vec![
            Action::NotifyClosed { closed_task: Some("a".to_string()), complete_on_home: Some(false) },
            Action::RestorePrimary,
        ]
    );
}

#[test]
fn failed_panel_creation_leaves_no_session() {
    let mut m = FocusManager::new(Platform::MacOs);
    open_focus_window(&mut m, &scene(), "b", "B", None, None, None, None);
    open_focus_window(&mut m, &scene(), "a", "A", None, None, None, None);
    creation_failed(&mut m, "focus-a");
    assert_eq!(m.phase("a"), Phase::Closed);
    assert_eq!(m.panel_count(), 1);
    assert_eq!(m.phase("b"), Phase::Closed);
}

#[test]
fn failed_fullscreen_creation_brings_the_session_back_to_its_panel() {
    let mut m = opened_manager("a");
    enter_fullscreen_focus_handoff(&mut m, "a", "Task", Some(rect(1, 2, 3, 4)));
    creation_failed(&mut m, "focusfs-a");
    assert_eq!(m.phase("a"), Phase::PanelOpen);
}

#[test]
fn failure_of_an_unknown_surface_changes_nothing() {
    let mut m = opened_manager("a");
    creation_failed(&mut m, "main");
    creation_failed(&mut m, "focusfs-zzz");
    creation_failed(&mut m, "focus-zzz");
    assert_eq!(m.phase("a"), Phase::PanelOpen);
    assert_eq!(m.panel_count(), 1);
}

#[test]
fn failed_creation_on_the_way_back_keeps_the_rectangle() {
    let mut m = opened_manager("a");
    let kept = rect(811, 377, 512, 96);
    enter_fullscreen_focus_handoff(&mut m, "a", "Task", Some(kept));
    // The panel is lost, so that the way back has to create it.
    creation_failed(&mut m, "focus-a");
    assert_eq!(m.panel_count(), 0);
    assert_eq!(m.fullscreen_handoff_geometry("a"), Some(kept));
    let plan = exit_fullscreen_focus_handoff(&mut m, "focusfs-a", &scene(), "a", "Task");
    assert!(matches!(plan[0], Action::CreatePanel { .. }));
    assert_eq!(plan.last(), Some(&Action::Close { label: "focusfs-a".to_string() }));
    assert_eq!(m.fullscreen_handoff_geometry("a"), None);
    creation_failed(&mut m, "focus-a");
    assert_eq!(m.fullscreen_handoff_geometry("a"), Some(kept));
    assert_eq!(m.panel_count(), 0);
    // A second report gives nothing back twice.
    exit_fullscreen_focus_to_home(&mut m, "main", "a", None);
    creation_failed(&mut m, "focus-a");
    assert_eq!(m.fullscreen_handoff_geometry("a"), None);
}

#[test]
fn failed_creation_on_the_way_back_keeps_the_fullscreen_surface_up() {
    let mut m = opened_manager("b");
    enter_fullscreen_focus_handoff(&mut m, "b", "B", None);
    assert_eq!(m.phase("b"), Phase::FullscreenOpen);
    // The fullscreen surface of b asks for the way back of a task that has no panel.
    let plan = exit_fullscreen_focus_handoff(&mut m, "focusfs-b", &scene(), "c", "C");
    assert!(matches!(plan[0], Action::CreatePanel { .. }));
    assert_eq!(plan.last(), Some(&Action::Close { label: "focusfs-b".to_string() }));
    assert_eq!(m.phase("b"), Phase::Closed);
    assert_eq!(m.phase("c"), Phase::PanelOpen);
    creation_failed(&mut m, "focus-c");
    assert_eq!(m.phase("c"), Phase::Closed);
    assert_eq!(m.phase("b"), Phase::FullscreenOpen);
    assert_eq!(m.panel_count(), 1);
}

#[test]
fn way_back_that_creates_nothing_keeps_nothing_in_mind() {
    let mut m = opened_manager("a");
    let kept = rect(1, 2, 3, 4);
    enter_fullscreen_focus_handoff(&mut m, "a", "Task", Some(kept));
    exit_fullscreen_focus_handoff(&mut m, "focusfs-a", &scene(), "a", "Task");
    creation_failed(&mut m, "focus-a");
    assert_eq!(m.fullscreen_handoff_geometry("a"), None);
}

#[test]
fn an_open_request_forgets_what_the_way_back_kept_in_mind() {
    let mut m = FocusManager::new(Platform::MacOs);
    exit_fullscreen_focus_handoff(&mut m, "main", &scene(), "a", "Task");
    open_focus_window(&mut m, &scene(), "a", "Task", None, None, None, None);
    creation_failed(&mut m, "focus-a");
    assert_eq!(m.panel_count(), 0);
    assert_eq!(m.fullscreen_handoff_geometry("a"), None);
}
