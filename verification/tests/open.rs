use redd_do_core::action::Action;
use redd_do_core::geometry::FocusWindowGeometry;
use redd_do_core::manager::{exit_focus_mode, open_focus_window, FocusManager};
use redd_do_core::model::{Phase, Platform};
use redd_do_core::placement::{Point, Scene};

fn scene_at(x: i32, y: i32) -> Scene {
    Scene { primary: Some(Point { x, y }), panel_width: None, monitor: None }
}

fn create(label: &str, url: &str) -> Action {
    Action::CreatePanel {
        label: label.to_string(),
        url: url.to_string(),
        width: 360,
        height: 56,
        min_width: 270,
        min_height: 48,
    }
}

fn raise(label: &str) -> Action {
    Action::Raise { label: label.to_string() }
}

fn hidden(label: &str) -> Action {
    Action::Hide { label: label.to_string() }
}

fn close(label: &str) -> Action {
    Action::Close { label: label.to_string() }
}

fn move_to(label: &str, x: i128, y: i128) -> Action {
    Action::MoveTo { label: label.to_string(), x, y }
}

fn resize(label: &str, width: u32, height: u32) -> Action {
    Action::Resize { label: label.to_string(), width, height }
}

fn send(label: &str, id: &str, name: &str, preserve: Option<bool>) -> Action {
    Action::SendTask {
        label: label.to_string(),
        task_id: id.to_string(),
        task_name: name.to_string(),
        preserve_geometry: preserve,
    }
}

fn opened(id: &str) -> Action {
    Action::NotifyOpened { task_id: id.to_string() }
}

#[test]
fn rich_tier_creates_a_new_panel() {
    let mut m = FocusManager::new(Platform::MacOs);
    let plan = open_focus_window(&mut m, &scene_at(100, 50), "t1", "Write report", None, None, None, None);
    assert_eq!(
        plan,
        vec![
            create("focus-t1", "index.html?focus=1&taskId=t1&taskName=Write%20report"),
            raise("focus-t1"),
            move_to("focus-t1", 132, 82),
            send("focus-t1", "t1", "Write report", Some(false)),
            opened("t1"),
            Action::HidePrimary,
        ]
    );
    assert_eq!(m.phase("t1"), Phase::PanelOpen);
    assert_eq!(m.panel_count(), 1);
}

#[test]
fn rich_tier_new_panel_gets_the_task_with_the_wish_to_preserve_geometry() {
    let mut m = FocusManager::new(Platform::MacOs);
    let plan = open_focus_window(&mut m, &scene_at(0, 0), "t1", "A", None, None, None, Some(true));
    assert_eq!(
        plan,
        vec![
            create("focus-t1", "index.html?focus=1&taskId=t1&taskName=A"),
            raise("focus-t1"),
            move_to("focus-t1", 32, 32),
            send("focus-t1", "t1", "A", Some(true)),
            opened("t1"),
            Action::HidePrimary,
        ]
    );
}

#[test]
fn rich_tier_new_panel_is_placed_at_its_creation_width() {
    // 360 wide: preferred 112 ends at 472, past the anchor and past the monitor's 400.
    let mut m = FocusManager::new(Platform::MacOs);
    let scene = Scene {
        primary: Some(Point { x: 100, y: 0 }),
        panel_width: Some(10),
        monitor: Some(FocusWindowGeometry { x: -1000, y: 0, width: 1400, height: 900 }),
    };
    let plan = open_focus_window(&mut m, &scene, "t1", "A", Some(0), Some(300), None, None);
    assert_eq!(plan[2], move_to("focus-t1", 100 + 300 - 12 - 360, 32));
}

#[test]
fn rich_tier_raises_an_existing_panel_and_delivers_the_task() {
    let mut m = FocusManager::new(Platform::MacOs);
    open_focus_window(&mut m, &scene_at(0, 0), "t1", "A", None, None, None, None);
    let plan = open_focus_window(&mut m, &scene_at(10, 20), "t1", "A", None, None, None, None);
    assert_eq!(
        plan,
        vec![
            raise("focus-t1"),
            move_to("focus-t1", 42, 52),
            send("focus-t1", "t1", "A", Some(false)),
            opened("t1"),
            Action::HidePrimary,
        ]
    );
    assert_eq!(m.panel_count(), 1);
}

#[test]
fn rich_tier_existing_panel_is_placed_at_its_measured_width() {
    let mut m = FocusManager::new(Platform::MacOs);
    open_focus_window(&mut m, &scene_at(0, 0), "t1", "A", None, None, None, None);
    let scene = Scene { primary: Some(Point { x: 100, y: 0 }), panel_width: Some(500), monitor: None };
    let plan = open_focus_window(&mut m, &scene, "t1", "A", Some(0), Some(300), Some(7), None);
    assert_eq!(plan[1], move_to("focus-t1", 100 + 300 - 12 - 500, 7));
}

#[test]
fn opening_a_second_task_hides_the_first_panel_before_showing_the_new_one() {
    let mut m = FocusManager::new(Platform::MacOs);
    open_focus_window(&mut m, &scene_at(0, 0), "b", "B", None, None, None, None);
    let plan = open_focus_window(&mut m, &scene_at(0, 0), "a", "A", None, None, None, None);
    assert_eq!(plan[0], hidden("focus-b"));
    assert_eq!(plan[1], create("focus-a", "index.html?focus=1&taskId=a&taskName=A"));
    let retired = plan.iter().position(|a| *a == hidden("focus-b")).unwrap();
    let shown = plan
        .iter()
        .position(|a| matches!(a, Action::CreatePanel { .. } | Action::Raise { .. }))
        .unwrap();
    assert!(retired < shown);
    assert_eq!(m.phase("b"), Phase::Closed);
    assert_eq!(m.phase("a"), Phase::PanelOpen);
}

#[test]
fn at_most_one_panel_is_open_after_any_run_of_open_requests() {
    for platform in [Platform::MacOs, Platform::Windows, Platform::Linux] {
        let mut m = FocusManager::new(platform);
        let ids = ["a", "b", "c", "a", "c", "b", "b"];
        for id in ids {
            open_focus_window(&mut m, &scene_at(0, 0), id, "T", None, None, None, None);
            let open = ["a", "b", "c"].iter().filter(|t| m.phase(t) == Phase::PanelOpen).count();
            assert_eq!(open, 1);
            assert_eq!(m.phase(id), Phase::PanelOpen);
        }
    }
}

#[test]
fn hidden_panels_still_count_for_the_cascade() {
    let mut m = FocusManager::new(Platform::MacOs);
    for id in ["a", "b", "c"] {
        open_focus_window(&mut m, &scene_at(100, 50), id, "T", None, None, None, None);
    }
    let plan = open_focus_window(&mut m, &scene_at(100, 50), "d", "T", None, None, None, None);
    assert_eq!(plan[0], hidden("focus-c"));
    assert_eq!(plan[3], move_to("focus-d", 100 + 32 + 3 * 28, 50 + 32 + 3 * 28));
    assert_eq!(m.panel_count(), 4);
}

#[test]
fn reopening_after_a_close_restores_the_remembered_rectangle() {
    let mut m = FocusManager::new(Platform::MacOs);
    open_focus_window(&mut m, &scene_at(0, 0), "a", "A", None, None, None, None);
    let kept = FocusWindowGeometry { x: 700, y: 300, width: 420, height: 48 };
    exit_focus_mode(&mut m, "focus-a", Some("a"), Some(kept));
    assert_eq!(m.last_focus_panel_geometry(), Some(kept));
    let plan = open_focus_window(&mut m, &scene_at(0, 0), "a", "A", Some(1), Some(2), Some(3), None);
    assert_eq!(
        plan,
        vec![
            raise("focus-a"),
            resize("focus-a", 420, 48),
            move_to("focus-a", 700, 300),
            send("focus-a", "a", "A", Some(false)),
            opened("a"),
            Action::HidePrimary,
        ]
    );
    // The rectangle stays remembered for the next panel too.
    let next = open_focus_window(&mut m, &scene_at(0, 0), "b", "B", None, None, None, None);
    assert_eq!(next[3], resize("focus-b", 420, 48));
    assert_eq!(next[4], move_to("focus-b", 700, 300));
}

#[test]
fn plain_tier_creates_a_panel_and_delivers_the_task_twice() {
    for platform in [Platform::Windows, Platform::Linux] {
        let mut m = FocusManager::new(platform);
        let plan = open_focus_window(&mut m, &scene_at(100, 50), "t 1", "A", None, None, None, Some(true));
        assert_eq!(
            plan,
            vec![
                create("focus-t_201", "index.html?focus=1"),
                move_to("focus-t_201", 132, 82),
                raise("focus-t_201"),
                send("focus-t_201", "t 1", "A", Some(true)),
                Action::SendTaskLater {
                    label: "focus-t_201".to_string(),
                    task_id: "t 1".to_string(),
                    task_name: "A".to_string(),
                    preserve_geometry: Some(true),
                    delay_ms: 160,
                },
                opened("t 1"),
            ]
        );
        assert!(!plan.contains(&Action::HidePrimary));
        assert_eq!(m.phase("t 1"), Phase::PanelOpen);
    }
}

#[test]
fn plain_tier_brings_an_existing_panel_to_front() {
    let mut m = FocusManager::new(Platform::Linux);
    open_focus_window(&mut m, &scene_at(0, 0), "a", "A", None, None, None, None);
    let plan = open_focus_window(&mut m, &scene_at(10, 20), "a", "A", None, None, None, Some(true));
    assert_eq!(
        plan,
        vec![
            raise("focus-a"),
            move_to("focus-a", 42, 52),
            send("focus-a", "a", "A", Some(true)),
            Action::SendTaskLater {
                label: "focus-a".to_string(),
                task_id: "a".to_string(),
                task_name: "A".to_string(),
                preserve_geometry: Some(true),
                delay_ms: 160,
            },
            opened("a"),
        ]
    );
    assert_eq!(m.panel_count(), 1);
}

#[test]
fn every_open_delivers_the_task_to_the_panel_once() {
    for platform in [Platform::MacOs, Platform::Windows, Platform::Linux] {
        let mut m = FocusManager::new(platform);
        for (id, preserve) in [("a", None), ("b", Some(false)), ("a", Some(true)), ("a", None)] {
            let plan = open_focus_window(&mut m, &scene_at(0, 0), id, "T", None, None, None, preserve);
            let label = format!("focus-{id}");
            let expected = send(&label, id, "T", Some(preserve == Some(true)));
            assert_eq!(plan.iter().filter(|a| **a == expected).count(), 1);
            let sent = plan.iter().filter(|a| matches!(a, Action::SendTask { .. })).count();
            assert_eq!(sent, 1);
        }
    }
}

#[test]
fn plain_tier_closes_the_other_panel_first() {
    let mut m = FocusManager::new(Platform::Windows);
    open_focus_window(&mut m, &scene_at(0, 0), "b", "B", None, None, None, None);
    let plan = open_focus_window(&mut m, &scene_at(0, 0), "a", "A", None, None, None, None);
    assert_eq!(plan[0], close("focus-b"));
    assert_eq!(plan[1], create("focus-a", "index.html?focus=1"));
    assert_eq!(plan[2], move_to("focus-a", 32, 32));
    assert_eq!(m.phase("b"), Phase::Closed);
    assert_eq!(m.panel_count(), 1);
}

#[test]
fn task_texts_are_escaped_in_the_address() {
    let mut m = FocusManager::new(Platform::MacOs);
    let plan = open_focus_window(&mut m, &scene_at(0, 0), "id/1", "Lire & écrire", None, None, None, None);
    assert_eq!(
        plan[0],
        create(
            "focus-id_2F1",
            "index.html?focus=1&taskId=id%2F1&taskName=Lire%20%26%20%C3%A9crire"
        )
    );
}

#[test]
fn a_new_manager_holds_nothing() {
    let m = FocusManager::new(Platform::MacOs);
    assert_eq!(m.panel_count(), 0);
    assert_eq!(m.phase("a"), Phase::Closed);
    assert_eq!(m.last_focus_panel_geometry(), None);
    assert_eq!(m.pre_fullscreen_geometry(), None);
    assert_eq!(m.fullscreen_handoff_geometry("a"), None);
    assert_eq!(m.platform(), Platform::MacOs);
}
