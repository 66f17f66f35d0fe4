use redd_do_core::action::Action;
use redd_do_core::geometry::FocusWindowGeometry;
use redd_do_core::manager::{
    apply_last_focus_window_geometry, enter_fullscreen_focus_handoff, exit_focus_mode,
    open_focus_window, save_focus_window_geometry, FocusManager,
};
use redd_do_core::model::{Phase, Platform};
use redd_do_core::placement::{Point, Scene};

fn scene() -> Scene {
    Scene { primary: Some(Point { x: 0, y: 0 }), panel_width: None, monitor: None }
}

fn rect(x: i32, y: i32, width: u32, height: u32) -> FocusWindowGeometry {
    FocusWindowGeometry { x, y, width, height }
}

fn closed(task: Option<&str>) -> Action {
    Action::NotifyClosed { closed_task: task.map(|t| t.to_string()), complete_on_home: None }
}

#[test]
fn close_from_a_surface_that_is_no_focus_surface_is_a_no_op() {
    for platform in [Platform::MacOs, Platform::Windows, Platform::Linux] {
        let mut m = FocusManager::new(platform);
        open_focus_window(&mut m, &scene(), "a", "A", None, None, None, None);
        for origin in ["main", "", "focus", "focusfs", "Focus-a", "xfocus-a", "xfocusfs-a"] {
            let plan = exit_focus_mode(&mut m, origin, None, Some(rect(1, 2, 3, 4)));
            assert!(plan.is_empty());
            assert_eq!(m.phase("a"), Phase::PanelOpen);
            assert_eq!(m.panel_count(), 1);
            assert_eq!(m.last_focus_panel_geometry(), None);
        }
    }
}

#[test]
fn rich_tier_close_hides_the_panel_and_remembers_its_rectangle() {
    let mut m = FocusManager::new(Platform::MacOs);
    open_focus_window(&mut m, &scene(), "a", "A", None, None, None, None);
    let plan = exit_focus_mode(&mut m, "focus-a", Some("a"), Some(rect(10, 20, 300, 48)));
    assert_eq!(
        plan,
        vec![Action::Hide { label: "focus-a".to_string() }, closed(Some("a")), Action::RestorePrimary]
    );
    assert_eq!(m.phase("a"), Phase::Closed);
    assert_eq!(m.panel_count(), 1);
    assert_eq!(m.last_focus_panel_geometry(), Some(rect(10, 20, 300, 48)));
}

#[test]
fn rich_tier_close_without_measurement_keeps_the_old_rectangle() {
    let mut m = FocusManager::new(Platform::MacOs);
    open_focus_window(&mut m, &scene(), "a", "A", None, None, None, None);
    exit_focus_mode(&mut m, "focus-a", Some("a"), Some(rect(10, 20, 300, 48)));
    open_focus_window(&mut m, &scene(), "a", "A", None, None, None, None);
    exit_focus_mode(&mut m, "focus-a", Some("a"), None);
    assert_eq!(m.last_focus_panel_geometry(), Some(rect(10, 20, 300, 48)));
}

#[test]
fn close_without_task_targets_the_panel_that_asked() {
    let mut m = FocusManager::new(Platform::MacOs);
    open_focus_window(&mut m, &scene(), "a b", "A", None, None, None, None);
    let plan = exit_focus_mode(&mut m, "focus-a_20b", None, None);
    assert_eq!(
        plan,
        vec![Action::Hide { label: "focus-a_20b".to_string() }, closed(None), Action::RestorePrimary]
    );
    assert_eq!(m.phase("a b"), Phase::Closed);
}

#[test]
fn close_of_an_untracked_task_still_tells_the_primary_window() {
    let mut m = FocusManager::new(Platform::MacOs);
    let plan = exit_focus_mode(&mut m, "main", Some("ghost"), Some(rect(1, 2, 3, 4)));
    assert_eq!(plan, vec![closed(Some("ghost")), Action::RestorePrimary]);
    assert_eq!(m.last_focus_panel_geometry(), None);
}

#[test]
fn close_drops_the_handoff_rectangle_of_its_task() {
    let mut m = FocusManager::new(Platform::MacOs);
    open_focus_window(&mut m, &scene(), "a", "A", None, None, None, None);
    enter_fullscreen_focus_handoff(&mut m, "a", "A", Some(rect(1, 2, 3, 4)));
    let plan = exit_focus_mode(&mut m, "focusfs-a", Some("a"), None);
    assert_eq!(
        plan,
        vec![
            Action::Close { label: "focusfs-a".to_string() },
            Action::Hide { label: "focus-a".to_string() },
            closed(Some("a")),
            Action::RestorePrimary,
        ]
    );
    assert_eq!(m.fullscreen_handoff_geometry("a"), None);
    assert_eq!(m.phase("a"), Phase::Closed);
}

#[test]
fn plain_tier_close_closes_the_panel() {
    let mut m = FocusManager::new(Platform::Windows);
    open_focus_window(&mut m, &scene(), "a", "A", None, None, None, None);
    let plan = exit_focus_mode(&mut m, "focus-a", Some("a"), Some(rect(1, 2, 3, 4)));
    assert_eq!(
        plan,
        vec![Action::Close { label: "focus-a".to_string() }, closed(Some("a")), Action::RestorePrimary]
    );
    assert_eq!(m.panel_count(), 0);
    assert_eq!(m.last_focus_panel_geometry(), None);
}

#[test]
fn plain_tier_close_of_a_missing_panel_leaves_the_others() {
    let mut m = FocusManager::new(Platform::Linux);
    open_focus_window(&mut m, &scene(), "a", "A", None, None, None, None);
    let plan = exit_focus_mode(&mut m, "main", Some("other"), None);
    assert_eq!(plan, vec![closed(Some("other")), Action::RestorePrimary]);
    assert_eq!(m.panel_count(), 1);
    assert_eq!(m.phase("a"), Phase::PanelOpen);
}

#[test]
fn close_without_task_from_a_fullscreen_surface_closes_it() {
    let mut m = FocusManager::new(Platform::MacOs);
    open_focus_window(&mut m, &scene(), "a", "A", None, None, None, None);
    enter_fullscreen_focus_handoff(&mut m, "a", "A", Some(rect(1, 2, 3, 4)));
    let plan = exit_focus_mode(&mut m, "focusfs-a", None, Some(rect(5, 6, 7, 8)));
    assert_eq!(
        plan,
        vec![
            Action::Close { label: "focusfs-a".to_string() },
            Action::Hide { label: "focus-a".to_string() },
            closed(None),
            Action::RestorePrimary,
        ]
    );
    assert_eq!(m.phase("a"), Phase::Closed);
    assert_eq!(m.last_focus_panel_geometry(), Some(rect(5, 6, 7, 8)));
    // Without a task no handoff rectangle is dropped.
    assert_eq!(m.fullscreen_handoff_geometry("a"), Some(rect(1, 2, 3, 4)));
}

#[test]
fn close_without_task_from_an_untracked_fullscreen_surface_still_closes_it() {
    for platform in [Platform::MacOs, Platform::Linux] {
        let mut m = FocusManager::new(platform);
        let plan = exit_focus_mode(&mut m, "focusfs-zzz", None, None);
        assert_eq!(
            plan,
            vec![Action::Close { label: "focusfs-zzz".to_string() }, closed(None), Action::RestorePrimary]
        );
    }
}

#[test]
fn rich_tier_close_of_a_missing_panel_leaves_the_others() {
    let mut m = FocusManager::new(Platform::MacOs);
    open_focus_window(&mut m, &scene(), "a", "A", None, None, None, None);
    let plan = exit_focus_mode(&mut m, "main", Some("other"), None);
    assert_eq!(plan, vec![closed(Some("other")), Action::RestorePrimary]);
    assert_eq!(m.phase("a"), Phase::PanelOpen);
}

#[test]
fn saved_rectangle_is_applied_size_first() {
    let mut m = FocusManager::new(Platform::MacOs);
    assert!(apply_last_focus_window_geometry(&m, "focus-a").is_empty());
    save_focus_window_geometry(&mut m, None);
    assert!(apply_last_focus_window_geometry(&m, "focus-a").is_empty());
    save_focus_window_geometry(&mut m, Some(rect(-5, 6, 70, 80)));
    assert_eq!(
        apply_last_focus_window_geometry(&m, "focus-a"),
        vec![
            Action::Resize { label: "focus-a".to_string(), width: 70, height: 80 },
            Action::MoveTo { label: "focus-a".to_string(), x: -5, y: 6 },
        ]
    );
    save_focus_window_geometry(&mut m, None);
    assert_eq!(m.last_focus_panel_geometry(), Some(rect(-5, 6, 70, 80)));
}
