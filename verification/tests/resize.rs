use redd_do_core::action::Action;
use redd_do_core::geometry::FocusWindowGeometry;
use redd_do_core::manager::{
    enter_fullscreen_focus, exit_focus_mode, exit_fullscreen_focus, open_focus_window,
    set_focus_window_height, set_focus_window_size, FocusManager,
};
use redd_do_core::model::{Platform, Tier};
use redd_do_core::placement::{Point, Scene};

fn opened(platform: Platform) -> FocusManager {
    let mut m = FocusManager::new(platform);
    let scene = Scene { primary: Some(Point { x: 0, y: 0 }), panel_width: None, monitor: None };
    open_focus_window(&mut m, &scene, "a", "A", None, None, None, None);
    m
}

fn rect(x: i32, y: i32, width: u32, height: u32) -> FocusWindowGeometry {
    FocusWindowGeometry { x, y, width, height }
}

fn resize(width: u32, height: u32) -> Action {
    Action::Resize { label: "focus-a".to_string(), width, height }
}

fn move_to(x: i128, y: i128) -> Action {
    Action::MoveTo { label: "focus-a".to_string(), x, y }
}

#[test]
fn width_request_holds_the_height_of_the_platform() {
    assert_eq!(set_focus_window_size(&opened(Platform::MacOs), "focus-a", 400), vec![resize(400, 48)]);
    assert_eq!(
        set_focus_window_size(&opened(Platform::Windows), "focus-a", 400),
        vec![Action::LeaveNativeFullscreen { label: "focus-a".to_string() }, resize(400, 56)]
    );
    assert_eq!(
        set_focus_window_size(&opened(Platform::Linux), "focus-a", 400),
        vec![Action::LeaveNativeFullscreen { label: "focus-a".to_string() }, resize(400, 48)]
    );
}

#[test]
fn asking_twice_for_a_width_gives_the_same_geometry_as_asking_once() {
    for platform in [Platform::MacOs, Platform::Windows, Platform::Linux] {
        let m = opened(platform);
        let once = set_focus_window_size(&m, "focus-a", 400);
        let twice = set_focus_window_size(&m, "focus-a", 400);
        assert_eq!(once, twice);
        let last = |plan: &Vec<Action>| {
            plan.iter().rev().find_map(|a| match a {
                Action::Resize { width, height, .. } => Some((*width, *height)),
                _ => None,
            })
        };
        let mut both = set_focus_window_size(&m, "focus-a", 400);
        both.extend(set_focus_window_size(&m, "focus-a", 400));
        assert_eq!(last(&both), last(&once));
    }
}

#[test]
fn width_request_without_open_panel_is_a_no_op() {
    let m = FocusManager::new(Platform::MacOs);
    assert!(set_focus_window_size(&m, "focus-a", 400).is_empty());
    let mut m = opened(Platform::MacOs);
    assert!(set_focus_window_size(&m, "main", 400).is_empty());
    assert!(set_focus_window_size(&m, "focus-b", 400).is_empty());
    exit_focus_mode(&mut m, "focus-a", Some("a"), None);
    assert!(set_focus_window_size(&m, "focus-a", 400).is_empty());
}

#[test]
fn height_request_keeps_the_measured_width() {
    let m = opened(Platform::MacOs);
    assert_eq!(set_focus_window_height(&m, "focus-a", 220, Some(333)), vec![resize(333, 220)]);
}

#[test]
fn height_request_without_measured_width_or_panel_is_a_no_op() {
    let m = opened(Platform::Linux);
    assert!(set_focus_window_height(&m, "focus-a", 220, None).is_empty());
    assert!(set_focus_window_height(&m, "main", 220, Some(300)).is_empty());
    assert!(set_focus_window_height(&FocusManager::new(Platform::Linux), "focus-a", 220, Some(300)).is_empty());
}

#[test]
fn rich_tier_covers_the_monitor_without_keeping_a_rectangle() {
    let mut m = opened(Platform::MacOs);
    assert_eq!(m.tier(), Tier::Rich);
    let plan = enter_fullscreen_focus(&mut m, "focus-a", Some(rect(1, 2, 3, 4)), Some(rect(-1920, 10, 1920, 1080)));
    assert_eq!(
        plan,
        vec![
            Action::PrepareCover { label: "focus-a".to_string() },
            move_to(-1920, 10),
            resize(1920, 1080),
        ]
    );
    assert_eq!(m.pre_fullscreen_geometry(), None);
    assert!(exit_fullscreen_focus(&mut m, "focus-a").is_empty());
}

#[test]
fn cover_falls_back_to_a_fixed_rectangle_per_tier() {
    let mut m = opened(Platform::MacOs);
    assert_eq!(
        enter_fullscreen_focus(&mut m, "focus-a", None, None),
        vec![Action::PrepareCover { label: "focus-a".to_string() }, move_to(0, 0), resize(1440, 900)]
    );
    let mut m = opened(Platform::Windows);
    assert_eq!(m.tier(), Tier::Degraded);
    assert_eq!(
        enter_fullscreen_focus(&mut m, "focus-a", None, None),
        vec![Action::PrepareCover { label: "focus-a".to_string() }, move_to(0, 0), resize(1920, 1080)]
    );
    assert_eq!(m.pre_fullscreen_geometry(), None);
}

#[test]
fn plain_tier_keeps_the_rectangle_and_restores_it_once() {
    let mut m = opened(Platform::Linux);
    let before = rect(40, 50, 360, 56);
    enter_fullscreen_focus(&mut m, "focus-a", Some(before), Some(rect(0, 0, 2560, 1440)));
    assert_eq!(m.pre_fullscreen_geometry(), Some(before));
    assert_eq!(exit_fullscreen_focus(&mut m, "focus-a"), vec![resize(360, 56), move_to(40, 50)]);
    assert_eq!(m.pre_fullscreen_geometry(), None);
    assert!(exit_fullscreen_focus(&mut m, "focus-a").is_empty());
}

#[test]
fn cover_requests_from_elsewhere_are_no_ops() {
    let mut m = opened(Platform::Linux);
    assert!(enter_fullscreen_focus(&mut m, "main", Some(rect(1, 2, 3, 4)), None).is_empty());
    assert_eq!(m.pre_fullscreen_geometry(), None);
    enter_fullscreen_focus(&mut m, "focus-a", Some(rect(1, 2, 3, 4)), None);
    assert!(exit_fullscreen_focus(&mut m, "main").is_empty());
    assert_eq!(m.pre_fullscreen_geometry(), Some(rect(1, 2, 3, 4)));
}
