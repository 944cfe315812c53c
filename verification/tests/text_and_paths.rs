//! Text and paths.

use cim_core::path::{bytes_eq, FsPath};
use cim_core::text::{
    chars_of, decimal_of, is_white_space, join, list_contains, nth_line, parse_u64,
    signed_decimal_of, str_eq, trim,
};

fn path(s: &str) -> FsPath {
    FsPath::from_text(s)
}

fn strings(list: &[&str]) -> Vec<String> {
    list.iter().map(|s| s.to_string()).collect()
}

#[test]
fn trimming_agrees_with_std() {
    for s in ["", " ", "a", " a b\t\n", "\u{85}x\u{2003}", "\u{200b}x", "\u{1680}é\u{205f}"] {
        assert_eq!(trim(s), s.trim(), "{:?}", s);
    }
}

#[test]
fn white_space_agrees_with_std() {
    for n in 0..0x3100u32 {
        if let Some(c) = char::from_u32(n) {
            assert_eq!(is_white_space(c), c.is_whitespace(), "{:?}", c);
        }
    }
}

#[test]
fn lines_agree_with_std() {
    for s in ["", "\n", "a", "a\n", "a\r\nb", "a\n\nb\r", "a\r\r\nb\n", "\r\n\r\n", "é\nü"] {
        for n in 0..4 {
            assert_eq!(nth_line(s, n), s.lines().nth(n), "{:?} {}", s, n);
        }
    }
}

#[test]
fn numbers_are_read_as_std_reads_them() {
    for s in [
        "", "+", "-", "0", "007", "+5", "++5", "-5", "5 ", "5a", "١", "18446744073709551615",
        "18446744073709551616", "99999999999999999999999", "00000000000000000000000000001",
    ] {
        assert_eq!(parse_u64(s), s.parse::<u64>().ok(), "{:?}", s);
    }
}

#[test]
fn numbers_are_written_in_decimal() {
    for n in [0, 1, 9, 10, 99, 100, 12_345, u64::MAX] {
        assert_eq!(decimal_of(n), n.to_string());
        assert_eq!(parse_u64(&decimal_of(n)), Some(n));
    }
    for n in [0, 1, -1, 130, i32::MAX, i32::MIN] {
        assert_eq!(signed_decimal_of(n), n.to_string());
    }
}

#[test]
fn strings_are_compared_and_joined() {
    assert!(str_eq("abc", "abc"));
    assert!(!str_eq("abc", "abd"));
    assert_eq!(chars_of("aé"), vec!['a', 'é']);
    let list = strings(&["a", "", "c"]);
    assert!(list_contains(&list, &"".to_string()));
    assert!(!list_contains(&list, &"b".to_string()));
    assert_eq!(join(&list, ", "), "a, , c");
    assert_eq!(join(&strings(&["only"]), ", "), "only");
    assert_eq!(join(&strings(&[]), ", "), "");
}

#[test]
fn paths_agree_with_std() {
    let paths = [
        "", "/", "//", ".", "..", "./", "a", "a/", "a//", "/a", "a/b", "a/b/", "a/.", "a/./",
        "a/./b", "a/..", "/..", "./a", "/.", ".//", "a//b", "a/.b", "a/b.", "...", "a/...",
    ];
    for s in paths {
        let p = path(s);
        let std_path = std::path::Path::new(s);
        let name = std_path.file_name().map(|n| n.to_str().unwrap().as_bytes().to_vec());
        assert_eq!(p.file_name(), name, "file name of {:?}", s);
        let parent = std_path.parent().map(|d| path(d.to_str().unwrap()));
        assert_eq!(p.parent(), parent, "parent of {:?}", s);
        for tail in ["", "x", "x/y", "/x", "."] {
            let joined = std_path.join(tail);
            assert_eq!(p.join(tail.as_bytes()), path(joined.to_str().unwrap()), "{:?} {:?}", s, tail);
        }
        for name in ["cim.old", "x"] {
            let renamed = std_path.with_file_name(name);
            assert_eq!(
                p.with_file_name(name.as_bytes()),
                path(renamed.to_str().unwrap()),
                "{:?} {:?}",
                s,
                name
            );
        }
    }
}

#[test]
fn paths_are_shown_as_text() {
    assert_eq!(path("/tmp/é").display(), "/tmp/é");
    let odd = FsPath { bytes: vec![b'/', 0xff, b'a'] };
    assert_eq!(odd.display(), "/\u{fffd}a");
}

#[test]
fn joined_name_is_the_file_name() {
    let p = path("/bin").join(b"cim");
    assert_eq!(p.file_name(), Some(b"cim".to_vec()));
    assert_eq!(p.parent(), Some(path("/bin")));
    let q = p.with_file_name(b"cim.old");
    assert_eq!(q.file_name(), Some(b"cim.old".to_vec()));
    assert_eq!(q.parent(), p.parent());
    assert_eq!(p.clone(), p);
}

#[test]
fn bytes_are_compared() {
    assert!(bytes_eq(b"", b""));
    assert!(bytes_eq(b"cim", b"cim"));
    assert!(!bytes_eq(b"cim", b"cin"));
    assert!(!bytes_eq(b"cim", b"cim.old"));
}
