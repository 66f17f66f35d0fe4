use redd_do_core::geometry::FocusWindowGeometry;
use redd_do_core::placement::{position_focus_window, Point, Position, Scene};

fn scene(primary: Option<(i32, i32)>, width: Option<u32>, monitor: Option<(i32, u32)>) -> Scene {
    Scene {
        primary: primary.map(|(x, y)| Point { x, y }),
        panel_width: width,
        monitor: monitor.map(|(x, width)| FocusWindowGeometry { x, y: 0, width, height: 1080 }),
    }
}

#[test]
fn anchored_panel_starts_one_gap_right_of_the_anchor() {
    let s = scene(Some((400, 300)), Some(150), Some((0, 1920)));
    let p = position_focus_window(&s, 0, Some(10), Some(200), None);
    assert_eq!(p.x, 400 + 22);
    assert_eq!(p.y, 300 + 32);
}

#[test]
fn anchored_panel_uses_the_anchor_top() {
    let s = scene(Some((400, 300)), Some(150), Some((0, 1920)));
    let p = position_focus_window(&s, 0, Some(10), Some(200), Some(64));
    assert_eq!(p, Position { x: 422, y: 364 });
}

#[test]
fn anchored_panel_cascades_downwards_only() {
    let s = scene(Some((400, 300)), Some(150), Some((0, 1920)));
    let p = position_focus_window(&s, 2, Some(10), Some(200), Some(64));
    assert_eq!(p, Position { x: 422, y: 364 + 56 });
}

#[test]
fn fourth_panel_cascades_by_three_steps() {
    let s = scene(Some((100, 50)), None, None);
    let p = position_focus_window(&s, 3, None, None, None);
    assert_eq!(p, Position { x: 100 + 32 + 3 * 28, y: 50 + 32 + 3 * 28 });
}

#[test]
fn first_panel_sits_at_the_home_offset() {
    let s = scene(Some((-40, 7)), Some(500), Some((0, 100)));
    let p = position_focus_window(&s, 0, None, None, None);
    assert_eq!(p, Position { x: -8, y: 39 });
}

#[test]
fn one_anchor_edge_alone_is_no_anchor() {
    let s = scene(Some((100, 50)), Some(150), Some((0, 1920)));
    assert_eq!(
        position_focus_window(&s, 1, Some(10), None, Some(5)),
        Position { x: 160, y: 110 }
    );
    assert_eq!(
        position_focus_window(&s, 1, None, Some(200), Some(5)),
        Position { x: 160, y: 110 }
    );
}

#[test]
fn missing_primary_window_falls_back_to_a_fixed_corner() {
    let s = scene(None, Some(150), Some((0, 1920)));
    assert_eq!(position_focus_window(&s, 0, Some(10), Some(200), Some(5)), Position { x: 120, y: 120 });
    assert_eq!(position_focus_window(&s, 2, None, None, None), Position { x: 176, y: 176 });
}

#[test]
fn panel_past_anchor_and_monitor_flips_to_the_anchor_right() {
    // Preferred 1712 would end at 2112: past the anchor's right edge and the monitor.
    let s = scene(Some((1600, 0)), Some(400), Some((0, 1920)));
    let p = position_focus_window(&s, 0, Some(100), Some(300), None);
    assert_eq!(p.x, 1600 + 300 - 12 - 400);
}

#[test]
fn panel_past_monitor_but_inside_anchor_is_only_clamped() {
    // Preferred 1712 ends at 1862 inside the anchor, but the monitor ends at 1800.
    let s = scene(Some((1600, 0)), Some(150), Some((0, 1800)));
    let p = position_focus_window(&s, 0, Some(100), Some(300), None);
    assert_eq!(p.x, 1800 - 150);
}

#[test]
fn panel_past_anchor_but_inside_monitor_stays_preferred() {
    let s = scene(Some((100, 0)), Some(400), Some((0, 1920)));
    let p = position_focus_window(&s, 0, Some(100), Some(300), None);
    assert_eq!(p.x, 212);
}

#[test]
fn panel_is_pulled_into_the_monitor_from_the_left() {
    let s = scene(Some((-500, 0)), Some(150), Some((0, 1920)));
    let p = position_focus_window(&s, 0, Some(10), Some(200), None);
    assert_eq!(p.x, 0);
}

#[test]
fn panel_wider_than_the_monitor_sits_at_its_left_bound() {
    let s = scene(Some((100, 0)), Some(3000), Some((50, 1920)));
    let p = position_focus_window(&s, 0, Some(10), Some(200), None);
    assert_eq!(p.x, 50);
}

#[test]
fn without_monitor_the_anchor_alone_decides() {
    let fits = scene(Some((100, 0)), Some(150), None);
    assert_eq!(position_focus_window(&fits, 0, Some(10), Some(200), None).x, 122);
    let wide = scene(Some((100, 0)), Some(400), None);
    assert_eq!(position_focus_window(&wide, 0, Some(10), Some(200), None).x, 100 + 200 - 12 - 400);
}

#[test]
fn unmeasured_panel_is_taken_as_320_wide() {
    // 320 wide: preferred 112 ends at 432, past anchor right 300 + 12; without monitor it flips.
    let s = scene(Some((100, 0)), None, None);
    assert_eq!(position_focus_window(&s, 0, Some(0), Some(200), None).x, 100 + 200 - 12 - 320);
    // An anchor of 320 still fits.
    assert_eq!(position_focus_window(&s, 0, Some(0), Some(320), None).x, 112);
}

#[test]
fn cascade_grows_with_every_panel_without_end() {
    let s = scene(Some((7, -9)), None, None);
    for others in [0usize, 1, 2, 1000, 0xffff_ffff, usize::MAX] {
        let p = position_focus_window(&s, others, None, None, None);
        assert_eq!(p.x, 7 + 32 + 28 * others as i128);
        assert_eq!(p.y, -9 + 32 + 28 * others as i128);
    }
}

#[test]
fn panel_a_little_past_the_anchor_and_past_the_monitor_flips() {
    // Preferred 112 ends at 262: past the anchor's right edge at 255 and past the monitor's 250.
    let s = scene(Some((0, 0)), Some(150), Some((0, 250)));
    let p = position_focus_window(&s, 0, Some(100), Some(255), None);
    assert_eq!(p.x, 255 - 12 - 150);
}

#[test]
fn without_monitor_a_panel_a_little_past_the_anchor_stays() {
    // Preferred 112 ends at 262: past the anchor's right edge at 255 by less than a gap.
    let s = scene(Some((0, 0)), Some(150), None);
    assert_eq!(position_focus_window(&s, 0, Some(100), Some(255), None).x, 112);
    assert_eq!(position_focus_window(&s, 0, Some(100), Some(249), None).x, 249 - 12 - 150);
}

#[test]
fn extreme_coordinates_do_not_overflow() {
    let s = Scene {
        primary: Some(Point { x: i32::MAX, y: i32::MAX }),
        panel_width: Some(u32::MAX),
        monitor: Some(FocusWindowGeometry { x: i32::MIN, y: 0, width: 0, height: 0 }),
    };
    let p = position_focus_window(&s, usize::MAX, Some(i32::MAX), Some(i32::MIN), Some(i32::MAX));
    assert_eq!(p.x, i32::MIN as i128);
    assert_eq!(p.y, 2 * (i32::MAX as i128) + 28 * (usize::MAX as i128));
}
