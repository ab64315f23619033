use mirrord_layer::file::local_file::{local_file_path, system_path};
use mirrord_layer::detour::HookError;
use mirrord_layer::path::{absolute_path, PathBuf};
use mirrord_layer::text::decimal_digits;

fn resolve(path: &str) -> PathBuf {
    absolute_path(PathBuf::from(path))
}

#[test]
fn test_absolute_normal() {
    assert_eq!(
        absolute_path(PathBuf::from("/a/b/c")),
        PathBuf::from("/a/b/c")
    );
    assert_eq!(
        absolute_path(PathBuf::from("/a/b/../c")),
        PathBuf::from("/a/c")
    );
    assert_eq!(
        absolute_path(PathBuf::from("/a/b/./c")),
        PathBuf::from("/a/b/c")
    )
}

#[test]
fn root_and_empty_paths_resolve_to_the_root() {
    assert_eq!(resolve("/"), PathBuf::from("/"));
    assert_eq!(resolve(""), PathBuf::from("/"));
    assert_eq!(resolve("."), PathBuf::from("/"));
    assert_eq!(resolve("//"), PathBuf::from("/"));
}

#[test]
fn parent_of_the_root_is_the_root() {
    assert_eq!(resolve("/.."), PathBuf::from("/"));
    assert_eq!(resolve("/../../a"), PathBuf::from("/a"));
    assert_eq!(resolve("/a/../../b"), PathBuf::from("/b"));
    assert_eq!(resolve("/a/.."), PathBuf::from("/"));
}

#[test]
fn idle_segments_are_dropped() {
    assert_eq!(resolve("/a//b"), PathBuf::from("/a/b"));
    assert_eq!(resolve("/a/b/"), PathBuf::from("/a/b"));
    assert_eq!(resolve("/./a/./b/."), PathBuf::from("/a/b"));
}

#[test]
fn names_with_dots_are_names() {
    assert_eq!(resolve("/..a/.b/c./..."), PathBuf::from("/..a/.b/c./..."));
    assert_eq!(resolve("/.../.."), PathBuf::from("/"));
}

#[test]
fn relative_paths_become_absolute() {
    assert_eq!(resolve("a/b"), PathBuf::from("/a/b"));
    assert_eq!(resolve("../a"), PathBuf::from("/a"));
}

#[test]
fn resolving_twice_is_resolving_once() {
    for path in ["/a/../b/./c", "x/../..", "/", "/a//b/..", "..a"] {
        let once = resolve(path);
        let twice = absolute_path(once.clone());
        assert_eq!(once, twice);
        assert!(twice.is_absolute());
    }
}

#[test]
fn paths_are_absolute_or_relative() {
    assert!(PathBuf::from("/a").is_absolute());
    assert!(!PathBuf::from("/a").is_relative());
    assert!(PathBuf::from("a").is_relative());
    assert!(PathBuf::from("").is_relative());
}

#[test]
fn joining_puts_one_separator_between() {
    assert_eq!(PathBuf::from("/tmp").join(b"x"), PathBuf::from("/tmp/x"));
    assert_eq!(PathBuf::from("/tmp/").join(b"x"), PathBuf::from("/tmp/x"));
    assert_eq!(PathBuf::from("").join(b"x"), PathBuf::from("x"));
    assert_eq!(PathBuf::from("/tmp").join(b"/x"), PathBuf::from("/x"));
    assert_eq!(PathBuf::from("/tmp").join(b""), PathBuf::from("/tmp/"));
}

#[test]
fn text_of_a_path_that_is_not_utf8() {
    let path = PathBuf { bytes: vec![47, 0xff, 97] };
    assert_eq!(path.to_text(), "");
    assert_eq!(path.display(), "/\u{fffd}a");
    let path = PathBuf::from("/\u{e4}");
    assert_eq!(path.bytes, vec![47, 0xc3, 0xa4]);
    assert_eq!(path.to_text(), "/\u{e4}");
    assert_eq!(path.display(), "/\u{e4}");
}

#[test]
fn numbers_in_decimal() {
    assert_eq!(decimal_digits(0), b"0".to_vec());
    assert_eq!(decimal_digits(10), b"10".to_vec());
    assert_eq!(decimal_digits(u64::MAX), b"18446744073709551615".to_vec());
}

#[test]
fn local_file_is_named_after_the_remote_one() {
    let dir = PathBuf::from("/tmp");
    assert_eq!(local_file_path(&dir, 42, "abc"), "/tmp/42-abc");
    let dir = PathBuf { bytes: vec![47, 0xff] };
    assert_eq!(local_file_path(&dir, 7, "z"), "/\u{fffd}/7-z");
}

#[test]
fn zero_bytes_are_no_part_of_a_path() {
    assert_eq!(system_path("/tmp/a"), Ok(b"/tmp/a".to_vec()));
    assert_eq!(system_path("/tmp/\0a"), Err(HookError::Null));
}
