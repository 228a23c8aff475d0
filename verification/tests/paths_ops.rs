use microxdg::is_absolute;
use microxdg::join;

#[test]
fn absolute_paths_recognised() {
    assert!(is_absolute("/"));
    assert!(is_absolute("/home/user"));
    assert!(!is_absolute(""));
    assert!(!is_absolute("relative"));
    assert!(!is_absolute("./relative"));
    assert!(!is_absolute("~/home"));
}

#[test]
fn join_inserts_separator_when_needed() {
    assert_eq!("/a/b", join("/a", "b"));
    assert_eq!("/a/b", join("/a/", "b"));
    assert_eq!("/a/.local/share", join("/a", ".local/share"));
}

#[test]
fn join_with_empty_base_keeps_segment() {
    assert_eq!("b", join("", "b"));
}

#[test]
fn join_with_absolute_segment_replaces_base() {
    assert_eq!("/b", join("/a", "/b"));
}
