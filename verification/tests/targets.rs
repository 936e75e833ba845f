use napi_cli::targets::{default_selection, selected_targets};
use napi_cli::text::{holds, owned};
use napi_cli::{AVAILABLE_TARGETS, DEFAULT_TARGETS};

#[test]
fn thirteen_targets_are_available() {
    assert_eq!(AVAILABLE_TARGETS.len(), 13);
    assert_eq!(AVAILABLE_TARGETS[0], "aarch64-apple-darwin");
    assert_eq!(AVAILABLE_TARGETS[12], "armv7-linux-androideabi");
}

#[test]
fn three_targets_are_default() {
    assert_eq!(
        DEFAULT_TARGETS,
        ["x86_64-apple-darwin", "x86_64-pc-windows-msvc", "x86_64-unknown-linux-gnu"]
    );
}

#[test]
fn default_targets_are_available() {
    for target in DEFAULT_TARGETS {
        assert!(holds(&AVAILABLE_TARGETS, target));
    }
}

#[test]
fn default_selection_marks_the_default_targets() {
    assert_eq!(
        default_selection(),
        vec![
            false, false, false, false, false, true, true, true, false, false, false, false,
            false
        ]
    );
}

#[test]
fn holds_finds_only_whole_items() {
    assert!(holds(&["a", "b"], "b"));
    assert!(!holds(&["a", "b"], "c"));
    assert!(!holds(&["ab"], "a"));
    assert!(!holds(&[], "a"));
}

#[test]
fn owned_copies_in_order() {
    assert_eq!(owned(&["b", "a", "b"]), vec!["b".to_string(), "a".to_string(), "b".to_string()]);
    assert_eq!(owned(&[]), Vec::<String>::new());
}

#[test]
fn selected_targets_follow_the_choice() {
    assert_eq!(
        selected_targets(&vec![9, 0, 9]),
        vec![
            "x86_64-unknown-freebsd".to_string(),
            "aarch64-apple-darwin".to_string(),
            "x86_64-unknown-freebsd".to_string()
        ]
    );
    assert_eq!(selected_targets(&vec![]), Vec::<String>::new());
}
