use redd_do_core::label::{focus_window_label, fullscreen_focus_window_label};

#[test]
fn plain_identifier_keeps_its_text() {
    assert_eq!(focus_window_label("task42"), "focus-task42");
    assert_eq!(fullscreen_focus_window_label("task42"), "focusfs-task42");
}

#[test]
fn letters_digits_and_three_marks_stand_for_themselves() {
    assert_eq!(focus_window_label("Az09-.~"), "focus-Az09-.~");
}

#[test]
fn underscore_is_escaped_like_a_reserved_byte() {
    assert_eq!(focus_window_label("_"), "focus-_5F");
    assert_eq!(focus_window_label("a_b"), "focus-a_5Fb");
    assert_eq!(fullscreen_focus_window_label("__"), "focusfs-_5F_5F");
}

#[test]
fn reserved_bytes_are_escaped_with_underscores() {
    assert_eq!(focus_window_label("a b/c"), "focus-a_20b_2Fc");
    assert_eq!(focus_window_label("100%"), "focus-100_25");
    assert_eq!(fullscreen_focus_window_label("x:y"), "focusfs-x_3Ay");
}

#[test]
fn text_beyond_ascii_is_escaped_byte_by_byte() {
    assert_eq!(focus_window_label("é"), "focus-_C3_A9");
    assert_eq!(focus_window_label("日"), "focus-_E6_97_A5");
    assert_eq!(focus_window_label("😀"), "focus-_F0_9F_98_80");
}

#[test]
fn empty_identifier_gives_the_bare_prefix() {
    assert_eq!(focus_window_label(""), "focus-");
    assert_eq!(fullscreen_focus_window_label(""), "focusfs-");
}

#[test]
fn labels_hold_only_safe_characters() {
    let label = focus_window_label("a/b?c=d&e#f g\"h'i<j>k\\l%m\n");
    assert!(label
        .chars()
        .all(|c| c.is_ascii_alphanumeric() || c == '-' || c == '_' || c == '.' || c == '~'));
}

#[test]
fn labels_are_the_same_on_every_call() {
    assert_eq!(focus_window_label("task 1"), focus_window_label("task 1"));
    assert_eq!(
        fullscreen_focus_window_label("task 1"),
        fullscreen_focus_window_label("task 1")
    );
}

#[test]
fn different_plain_identifiers_get_different_labels() {
    let ids = ["a", "b", "ab", "a b", "a/b", "a_b", "a_20b", "A", "task-1", "task.1", "é", "e", "%", "_"];
    for (i, first) in ids.iter().enumerate() {
        for (j, second) in ids.iter().enumerate() {
            if i != j {
                assert_ne!(focus_window_label(first), focus_window_label(second));
                assert_ne!(
                    fullscreen_focus_window_label(first),
                    fullscreen_focus_window_label(second)
                );
            }
        }
    }
}

#[test]
fn panel_and_fullscreen_labels_of_a_task_differ() {
    for id in ["", "a", "fs-", "s-x", "task 1"] {
        assert_ne!(focus_window_label(id), fullscreen_focus_window_label(id));
    }
    assert!(!fullscreen_focus_window_label("a").starts_with("focus-"));
}

#[test]
fn text_that_reads_like_an_escape_gets_a_label_of_its_own() {
    assert_eq!(focus_window_label("a b"), "focus-a_20b");
    assert_eq!(focus_window_label("a_20b"), "focus-a_5F20b");
    assert_eq!(focus_window_label("%"), "focus-_25");
    assert_eq!(focus_window_label("_25"), "focus-_5F25");
    assert_ne!(focus_window_label("%"), focus_window_label("_25"));
    assert_ne!(fullscreen_focus_window_label("%"), fullscreen_focus_window_label("_25"));
}

#[test]
fn identifiers_made_of_escape_characters_never_share_a_label() {
    let alphabet = ['%', '_', '2', '5', 'F', ' '];
    let mut ids: Vec<String> = vec![String::new()];
    let mut layer: Vec<String> = vec![String::new()];
    for _ in 0..4 {
        let mut next = Vec::new();
        for id in &layer {
            for c in alphabet {
                let mut longer = id.clone();
                longer.push(c);
                next.push(longer);
            }
        }
        ids.extend(next.iter().cloned());
        layer = next;
    }
    let mut labels: Vec<String> = ids.iter().map(|id| focus_window_label(id)).collect();
    labels.sort();
    labels.dedup();
    assert_eq!(labels.len(), ids.len());
}
