use ape::path::{path_inside_root, resolve_path};

#[test]
fn relative_path_from_root_cwd() {
    assert_eq!(resolve_path("a/b", "/", "/", "/"), "/a/b");
}

#[test]
fn dot_and_empty_components_are_dropped() {
    assert_eq!(resolve_path("/a//./b/", "/", "/", "/"), "/a/b");
    assert_eq!(resolve_path("/a/b/../c", "/", "/", "/"), "/a/c");
}

#[test]
fn dot_dot_stops_at_the_top() {
    assert_eq!(resolve_path("/../../x", "/", "/", "/"), "/x");
    assert_eq!(resolve_path("..", "/", "/", "/"), "/");
}

#[test]
fn empty_path_names_the_current_directory() {
    assert_eq!(resolve_path("", "/jail", "/jail/x", "/"), "/jail/x");
    assert_eq!(resolve_path("", "", "", "/base"), "/base");
}

#[test]
fn absolute_path_is_placed_inside_the_root() {
    assert_eq!(resolve_path("/etc/passwd", "/jail", "/", "/"), "/jail/etc/passwd");
    assert_eq!(resolve_path("/", "/jail", "/jail/a", "/"), "/jail");
}

#[test]
fn dot_dot_cannot_leave_the_root() {
    assert_eq!(resolve_path("../../..", "/jail", "/jail/a", "/"), "/jail");
    assert_eq!(resolve_path("/../../etc", "/jail", "/jail", "/"), "/jail/etc");
}

#[test]
fn relative_root_and_relative_cwd() {
    assert_eq!(resolve_path("x/./y//../z", "jail", "", "/"), "/jail/x/z");
    assert_eq!(resolve_path("f", "/jail", "sub", "/"), "/jail/sub/f");
}

#[test]
fn resolved_paths_map_back_inside_the_root() {
    let cases = [
        ("../../..", "/jail", "/jail/a"),
        ("/etc/passwd", "/jail", "/"),
        ("x", "/r/s", "/elsewhere"),
        ("", "jail/", "../.."),
    ];
    for (raw, root, cwd) in cases {
        let host = resolve_path(raw, root, cwd, "/");
        assert!(path_inside_root(&host, root, "/").is_some(), "{} escaped {}", host, root);
    }
}

#[test]
fn path_inside_root_cases() {
    assert_eq!(path_inside_root("/jail/a/b", "/jail", "/").as_deref(), Some("/a/b"));
    assert_eq!(path_inside_root("/jail", "/jail", "/").as_deref(), Some("/"));
    assert_eq!(path_inside_root("/jail/", "/jail", "/").as_deref(), Some("/"));
    assert_eq!(path_inside_root("/other", "/jail", "/"), None);
    assert_eq!(path_inside_root("/jailbreak", "/jail", "/"), None);
    assert_eq!(path_inside_root("relative", "/", "/"), None);
    assert_eq!(path_inside_root("/a//b/../c", "/", "/").as_deref(), Some("/a/c"));
    assert_eq!(path_inside_root("/base/x", "", "/base").as_deref(), Some("/x"));
}

#[test]
fn inside_path_resolves_back_to_the_host_path() {
    let host = "/jail/home/user";
    let inside = path_inside_root(host, "/jail", "/").unwrap();
    assert_eq!(inside, "/home/user");
    assert_eq!(resolve_path(&inside, "/jail", "/jail/tmp", "/"), host);
}

#[test]
fn inside_path_that_looks_like_a_host_path_is_kept() {
    // "/a/x" already starts with the root "/a/", so it is read as a host path
    let inside = path_inside_root("/a/a/x", "/a", "/").unwrap();
    assert_eq!(inside, "/a/x");
    assert_eq!(resolve_path(&inside, "/a", "/a", "/"), "/a/x");
}

#[test]
fn non_ascii_components() {
    assert_eq!(resolve_path("ü/../ñ", "/", "/ä", "/"), "/ä/ñ");
    assert_eq!(path_inside_root("/é/ß", "/é", "/").as_deref(), Some("/ß"));
}

#[test]
fn guest_path_maps_back_through_the_root() {
    let host = resolve_path("/etc/../usr//bin", "/jail", "/anywhere", "/");
    assert_eq!(host, "/jail/usr/bin");
    assert_eq!(path_inside_root(&host, "/jail", "/"), Some("/usr/bin".to_string()));
    let top = resolve_path("/", "/jail", "/x", "/");
    assert_eq!(path_inside_root(&top, "/jail", "/"), Some("/".to_string()));
}

#[test]
fn guest_path_that_looks_like_the_root_does_not_map_back() {
    let host = resolve_path("/jail/x", "/jail", "/", "/");
    assert_eq!(host, "/jail/x");
    assert_eq!(path_inside_root(&host, "/jail", "/"), Some("/x".to_string()));
}
