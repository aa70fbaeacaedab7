use tardis::paths::check_path_prefix;
use tardis::paths::is_metadata_path;
use tardis::paths::join_path;
use tardis::paths::make_relative;
use tardis::paths::parent_dir;
use tardis::paths::split_path;
use tardis::paths::str_eq;
use tardis::paths::to_absolute;

#[test]
fn containment_descendant_included() {
    assert!(check_path_prefix("/a/b", "/a/b/x.txt"));
    assert!(check_path_prefix("/a", "/a/b/c/x.txt"));
}

#[test]
fn containment_equal_path_included() {
    assert!(check_path_prefix("/a/b", "/a/b"));
}

#[test]
fn containment_is_component_wise_not_string_prefix() {
    // "/a/bc/x.txt" starts with the string "/a/b" but is not under it.
    assert!(!check_path_prefix("/a/b", "/a/bc/x.txt"));
    assert!(!check_path_prefix("/home/foo", "/home/foobar"));
}

#[test]
fn containment_root_holds_everything() {
    assert!(check_path_prefix("/", "/a/b"));
    assert!(check_path_prefix("/", "/"));
}

#[test]
fn containment_absolute_never_under_relative() {
    assert!(!check_path_prefix("a/b", "/a/b/x"));
    assert!(!check_path_prefix("/a", "a/b"));
}

#[test]
fn containment_ignores_repeated_separators() {
    assert!(check_path_prefix("/a//b/", "/a/b/c"));
    assert!(check_path_prefix("/a/b", "/a//b//c"));
}

#[test]
fn split_path_components() {
    assert_eq!(split_path("/a/b/c"), vec!["a", "b", "c"]);
    assert_eq!(split_path("a//b/"), vec!["a", "b"]);
    assert_eq!(split_path("/"), Vec::<String>::new());
    assert_eq!(split_path(""), Vec::<String>::new());
}

#[test]
fn make_relative_strips_the_directory() {
    assert_eq!(make_relative("/a/b", "/a/b/x.txt").as_deref(), Some("x.txt"));
    assert_eq!(make_relative("/a", "/a/b/c").as_deref(), Some("b/c"));
    assert_eq!(make_relative("/a/b", "/a/b").as_deref(), Some(""));
}

#[test]
fn make_relative_refuses_outside_paths() {
    assert_eq!(make_relative("/a/b", "/a/bc/x.txt"), None);
    assert_eq!(make_relative("/a/b", "/other"), None);
}

#[test]
fn join_path_inserts_one_separator() {
    assert_eq!(join_path("/a", "b"), "/a/b");
    assert_eq!(join_path("/a/", "b"), "/a/b");
    assert_eq!(join_path("", "b"), "b");
}

#[test]
fn join_path_absolute_name_stands_alone() {
    assert_eq!(join_path("/a", "/x"), "/x");
}

#[test]
fn to_absolute_resolves_relative_paths() {
    assert_eq!(to_absolute("x", "/w"), "/w/x");
    assert_eq!(to_absolute("/x", "/w"), "/x");
}

#[test]
fn parent_dir_drops_the_last_component() {
    assert_eq!(parent_dir("/a/b/entries.json").as_deref(), Some("/a/b"));
    assert_eq!(parent_dir("/a").as_deref(), Some("/"));
    assert_eq!(parent_dir("entries.json").as_deref(), Some(""));
    assert_eq!(parent_dir("/"), None);
    assert_eq!(parent_dir(""), None);
}

#[test]
fn metadata_name_is_the_last_component() {
    assert!(is_metadata_path("/root/abc/entries.json"));
    assert!(is_metadata_path("entries.json"));
    assert!(!is_metadata_path("/root/abc/entries.jso"));
    assert!(!is_metadata_path("/root/entries.json/other"));
    assert!(!is_metadata_path(""));
}

#[test]
fn str_eq_compares_characters() {
    assert!(str_eq("abc", "abc"));
    assert!(!str_eq("abc", "abd"));
    assert!(!str_eq("abc", "ab"));
    assert!(str_eq("", ""));
}
