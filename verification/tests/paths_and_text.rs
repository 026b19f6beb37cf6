use dra::decimal::{parse_u64, to_decimal};
use dra::paths::{extension, file_name, is_in_path, join, paths_equal, split};
use dra::text::{same_text, trim, trim_end_matching, trim_start_matching};

#[test]
fn test_is_in_path_self() {
    let local_bin = join(&join("/home/user", ".local"), "bin");
    let _ = is_in_path("/usr/bin:/home/user/.local/bin", &local_bin);
}

#[test]
fn is_in_path_compares_components() {
    assert!(is_in_path("/usr/bin:/home/u/.local/bin/", "/home/u/.local/bin"));
    assert!(is_in_path("/usr//bin", "/usr/bin"));
    assert!(is_in_path("/a/./b", "/a/b"));
    assert!(!is_in_path("/usr/bin", "/usr/local/bin"));
    assert!(!is_in_path("", "/usr/bin"));
    assert!(is_in_path("a:", ""));
    assert!(!is_in_path("./bin", "bin"));
    assert!(!is_in_path("/a/../b", "/b"));
}

#[test]
fn paths_compare_like_std() {
    let cases = [
        ("/a/b", "/a/b/"),
        ("a//b", "a/b"),
        ("./a", "a"),
        (".", ""),
        ("/./a", "/a"),
        ("a/.", "a"),
        ("/", "//"),
        ("a/..", "a"),
        ("..", "../"),
    ];
    for (a, b) in cases {
        assert_eq!(paths_equal(a, b), std::path::Path::new(a) == std::path::Path::new(b), "{} {}", a, b);
    }
}

#[test]
fn join_like_std() {
    for (a, b) in [("/home/u", ".local"), ("/home/u/", "x"), ("", "x"), ("a", "/abs"), ("a", "")] {
        assert_eq!(join(a, b), std::path::Path::new(a).join(b).to_str().unwrap());
    }
}

#[test]
fn file_name_and_extension_like_std() {
    for p in ["/tmp/a.tar.gz", "/tmp/dir/", "/", "a/..", "x", ".", "./y", ".bashrc", "a.", ""] {
        let expected = std::path::Path::new(p).file_name().map(|s| s.to_str().unwrap().to_string());
        assert_eq!(file_name(p), expected, "{}", p);
    }
    for f in ["a.tar.gz", ".bashrc", "a.", "noext", "..x", "a..b"] {
        let expected = std::path::Path::new(f).extension().map(|s| s.to_str().unwrap().to_string());
        assert_eq!(extension(f), expected, "{}", f);
    }
}

#[test]
fn split_like_std() {
    for s in ["a:b", "", ":", "a::b:", "abc"] {
        let expected: Vec<String> = s.split(':').map(|x| x.to_string()).collect();
        assert_eq!(split(s, ':'), expected);
    }
}

#[test]
fn trimming() {
    assert_eq!(trim(" \t a b \n"), "a b");
    assert_eq!(trim("\u{2003}\u{85}x"), "x");
    assert_eq!(trim("   "), "");
    assert_eq!(trim_end_matching("a///", '/'), "a");
    assert_eq!(trim_start_matching("vvx", 'v'), "x");
    assert!(same_text("äö", "äö"));
    assert!(!same_text("a", "ab"));
}

#[test]
fn decimal_roundtrip() {
    for n in [0u64, 7, 10, 99, 100, 1234567890, u64::MAX] {
        let s = to_decimal(n);
        assert_eq!(s, n.to_string());
        assert_eq!(parse_u64(&s), Some(n));
    }
    assert_eq!(parse_u64("007"), Some(7));
    assert_eq!(parse_u64(" 7"), None);
}
