use ipc::{get_full_path, resolve, SEPARATOR, SOCKET_PATH};

#[test]
fn relative_name_goes_under_the_base() {
    assert_eq!(resolve("/tmp", "echo.sock"), "/tmp/echo.sock");
    assert_eq!(resolve("/run/user/1000", "a/b.sock"), "/run/user/1000/a/b.sock");
}

#[test]
fn absolute_name_is_unchanged() {
    assert_eq!(resolve("/tmp", "/run/echo.sock"), "/run/echo.sock");
    assert_eq!(resolve("/tmp", "/"), "/");
}

#[test]
fn empty_name_is_the_base_with_a_separator() {
    assert_eq!(resolve("/tmp", ""), "/tmp/");
}

#[test]
fn empty_base_still_gets_a_separator() {
    assert_eq!(resolve("", "echo.sock"), "/echo.sock");
}

#[test]
fn name_with_wide_characters() {
    assert_eq!(resolve("/tmp", "b\u{fc}ro.sock"), "/tmp/b\u{fc}ro.sock");
    assert_eq!(resolve("/tmp", "\u{1f980}"), "/tmp/\u{1f980}");
}

#[test]
fn separator_inside_the_name_does_not_make_it_absolute() {
    assert_eq!(resolve("/tmp", "a/"), "/tmp/a/");
}

#[test]
fn default_base_is_tmp() {
    assert_eq!(SOCKET_PATH, "/tmp");
    assert_eq!(SEPARATOR, '/');
    assert_eq!(get_full_path("basic.sock"), "/tmp/basic.sock");
    assert_eq!(get_full_path("/var/run/basic.sock"), "/var/run/basic.sock");
}

#[test]
fn full_path_agrees_with_resolve() {
    for name in ["x", "/x", "", "a/b", "/tmp/x"] {
        assert_eq!(get_full_path(name), resolve(SOCKET_PATH, name));
    }
}

#[test]
fn resolving_twice_changes_nothing() {
    for name in ["x", "/x", "", "a/b"] {
        let once = get_full_path(name);
        assert_eq!(get_full_path(&once), once);
        assert!(once.starts_with('/'));
    }
}
