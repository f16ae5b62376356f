use macaroni::text::{catenate, ends_with, ends_with_slash, join_path, starts_with, strip_prefix};
use std::path::PathBuf;

#[test]
fn starts_with_agrees_with_std() {
    let samples = [
        "", "/", "/foo", "/foo/", "/foo/bar", "foo", "/fo", "/caf\u{e9}", "/caf\u{e8}", "\u{e9}",
        "\u{65e5}\u{672c}", "\u{65e5}", "\u{1f600}", "\u{1f600}x", "a\u{0}b",
    ];
    for s in samples {
        for p in samples {
            assert_eq!(starts_with(s, p), s.starts_with(p), "{:?} {:?}", s, p);
        }
    }
}

#[test]
fn strip_prefix_agrees_with_std() {
    let samples = ["", "/", "/foo", "/foo/bar", "/caf\u{e9}", "/caf\u{e9}/x", "\u{1f600}", "\u{1f600}x"];
    for s in samples {
        for p in samples {
            assert_eq!(strip_prefix(s, p), s.strip_prefix(p), "{:?} {:?}", s, p);
        }
    }
    assert_eq!(strip_prefix("/foo/bar", "/foo"), Some("/bar"));
    assert_eq!(strip_prefix("/foo", "/foo"), Some(""));
    assert_eq!(strip_prefix("/foo", ""), Some("/foo"));
    assert_eq!(strip_prefix("/foo", "/foo/bar"), None);
    assert_eq!(strip_prefix("/foo", "/bar"), None);
}

#[test]
fn ends_with_slash_looks_at_the_last_character() {
    assert!(ends_with_slash("/"));
    assert!(ends_with_slash("/foo/"));
    assert!(ends_with_slash("\u{e9}/"));
    assert!(!ends_with_slash(""));
    assert!(!ends_with_slash("/foo"));
    assert!(!ends_with_slash("/foo/\u{e9}"));
    // U+012F ends with the byte 0xAF, U+202F with 0xAF, neither with 0x2F.
    assert!(!ends_with_slash("\u{12f}"));
    assert!(!ends_with_slash("\u{202f}"));
}

#[test]
fn catenate_puts_one_after_the_other() {
    assert_eq!(catenate("", ""), "");
    assert_eq!(catenate("/a", ""), "/a");
    assert_eq!(catenate("", "/b"), "/b");
    assert_eq!(catenate("/a", "/b"), "/a/b");
    assert_eq!(catenate("\u{e9}", "\u{65e5}"), "\u{e9}\u{65e5}");
}

#[test]
fn join_path_exact_values() {
    assert_eq!(join_path("/host", "a/b"), "/host/a/b");
    assert_eq!(join_path("/host/", "a/b"), "/host/a/b");
    assert_eq!(join_path("/host", "/abs"), "/abs");
    assert_eq!(join_path("", "a"), "a");
    assert_eq!(join_path("", "/a"), "/a");
    assert_eq!(join_path("/host", ""), "/host/");
    assert_eq!(join_path("/host/", ""), "/host/");
    assert_eq!(join_path("", ""), "");
    assert_eq!(join_path("rel", "x"), "rel/x");
}

#[test]
fn join_path_agrees_with_std() {
    let samples = ["", "/", "a", "a/", "/a", "/a/", "a/b", "/a/b/", "\u{e9}", "/\u{e9}/"];
    for base in samples {
        for path in samples {
            let mut expected = PathBuf::from(base);
            expected.push(path);
            assert_eq!(
                join_path(base, path),
                expected.to_str().unwrap(),
                "{:?} {:?}",
                base,
                path
            );
        }
    }
}

#[test]
fn ends_with_agrees_with_std() {
    let samples = [
        "", "/", "/foo", "/foo/", "o", "oo", "foo", "\u{e9}", "caf\u{e9}", "\u{a9}", "x\u{a9}",
        "\u{65e5}\u{672c}", "\u{672c}", "\u{1f600}", "x\u{1f600}", ".dylib",
        "libmacaroni_system.dylib",
    ];
    for s in samples {
        for x in samples {
            assert_eq!(ends_with(s, x), s.ends_with(x), "{:?} {:?}", s, x);
        }
    }
}

#[test]
fn a_byte_suffix_that_splits_a_character_is_no_suffix() {
    // "\u{e9}" is 0xC3 0xA9 and "\u{a9}" is 0xC2 0xA9; "\u{429}" is 0xD0 0xA9.
    assert!(!ends_with("\u{e9}", "\u{a9}"));
    assert!(!ends_with("\u{429}", "\u{a9}"));
    assert!(ends_with("a\u{a9}", "\u{a9}"));
}
