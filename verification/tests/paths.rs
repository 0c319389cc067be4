use file_explorer::path::{resolve, starts_at_root};
use std::path::Path;

#[test]
fn a_relative_path_goes_below_the_current_directory() {
    assert_eq!(resolve("/tmp/work", "a.txt"), "/tmp/work/a.txt");
    assert_eq!(resolve("/tmp/work", "sub/dir"), "/tmp/work/sub/dir");
}

#[test]
fn an_absolute_path_stands_for_itself() {
    assert_eq!(resolve("/tmp/work", "/etc/hosts"), "/etc/hosts");
    assert_eq!(resolve("/tmp/work", "/"), "/");
}

#[test]
fn no_second_separator_is_written() {
    assert_eq!(resolve("/", "tmp"), "/tmp");
    assert_eq!(resolve("/tmp/work/", "a.txt"), "/tmp/work/a.txt");
}

#[test]
fn dots_are_kept_for_the_system_to_resolve() {
    assert_eq!(resolve("/tmp/work", ".."), "/tmp/work/..");
    assert_eq!(resolve("/tmp/work", "."), "/tmp/work/.");
    assert_eq!(resolve("/", ".."), "/..");
}

#[test]
fn an_empty_path_names_the_current_directory() {
    assert_eq!(resolve("/tmp/work", ""), "/tmp/work/");
    assert_eq!(resolve("/", ""), "/");
}

#[test]
fn an_empty_current_directory_adds_nothing() {
    assert_eq!(resolve("", "a.txt"), "a.txt");
    assert_eq!(resolve("", ""), "");
}

#[test]
fn paths_outside_ascii_resolve_like_any_other() {
    assert_eq!(resolve("/home/zoë", "café.txt"), "/home/zoë/café.txt");
    assert_eq!(resolve("/données/", "📂"), "/données/📂");
}

#[test]
fn only_a_leading_slash_makes_a_path_absolute() {
    assert!(starts_at_root("/"));
    assert!(starts_at_root("/tmp"));
    assert!(!starts_at_root(""));
    assert!(!starts_at_root("tmp/"));
    assert!(!starts_at_root("./tmp"));
    assert!(!starts_at_root("é/"));
}

#[test]
fn the_result_ends_with_the_path() {
    for current in ["", "/", "/tmp", "/tmp/"] {
        for path in ["", "a", "a/b", "/x", ".."] {
            assert!(resolve(current, path).ends_with(path));
        }
    }
}

#[test]
fn the_result_is_absolute_when_current_or_path_is() {
    for current in ["/", "/tmp", "/tmp/"] {
        for path in ["", "a", "a/b", "/x", ".."] {
            assert!(starts_at_root(&resolve(current, path)));
        }
    }
    assert!(starts_at_root(&resolve("", "/x")));
    assert!(starts_at_root(&resolve("relative", "/x")));
}

#[test]
fn resolving_agrees_with_joining_paths_with_a_slash() {
    for current in ["", "/", "/tmp", "/tmp/", "/tmp/work", "relative", "relative/"] {
        for path in ["", "a", "a/b", "/x", "/", "..", ".", "a.txt", "æ/ø"] {
            let joined = Path::new(current).join(path);
            assert_eq!(resolve(current, path), joined.to_str().unwrap());
        }
    }
}
