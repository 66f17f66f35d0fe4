use redd_do_core::geometry::{FocusWindowGeometry, GeometryStore};

fn rect(x: i32, y: i32, width: u32, height: u32) -> FocusWindowGeometry {
    FocusWindowGeometry { x, y, width, height }
}

#[test]
fn new_store_yields_no_prior_geometry() {
    let store = GeometryStore::new();
    assert_eq!(store.get("task"), None);
    assert_eq!(store.get(""), None);
}

#[test]
fn put_then_get_returns_the_snapshot() {
    let mut store = GeometryStore::new();
    store.put("task", rect(10, -20, 300, 48));
    assert_eq!(store.get("task"), Some(rect(10, -20, 300, 48)));
    assert_eq!(store.get("other"), None);
}

#[test]
fn put_replaces_the_earlier_snapshot() {
    let mut store = GeometryStore::new();
    store.put("task", rect(1, 2, 3, 4));
    store.put("task", rect(5, 6, 7, 8));
    assert_eq!(store.get("task"), Some(rect(5, 6, 7, 8)));
}

#[test]
fn remove_hands_out_the_snapshot_and_forgets_it() {
    let mut store = GeometryStore::new();
    store.put("a", rect(1, 2, 3, 4));
    store.put("b", rect(5, 6, 7, 8));
    assert_eq!(store.remove("a"), Some(rect(1, 2, 3, 4)));
    assert_eq!(store.get("a"), None);
    assert_eq!(store.get("b"), Some(rect(5, 6, 7, 8)));
    assert_eq!(store.remove("a"), None);
}

#[test]
fn keys_are_kept_apart_exactly() {
    let mut store = GeometryStore::new();
    store.put("task", rect(1, 1, 1, 1));
    store.put("Task", rect(2, 2, 2, 2));
    store.put("task ", rect(3, 3, 3, 3));
    assert_eq!(store.get("task"), Some(rect(1, 1, 1, 1)));
    assert_eq!(store.get("Task"), Some(rect(2, 2, 2, 2)));
    assert_eq!(store.get("task "), Some(rect(3, 3, 3, 3)));
}
