use boxctl::text::{
    chars_of, concat2, concat3, is_white_space_char, join_exec, join_path, replace_all_exec,
    same_text, string_of, trim,
};

#[test]
fn trim_drops_unicode_white_space() {
    assert_eq!(trim("  hi\t\n"), "hi");
    assert_eq!(trim("a  b"), "a  b");
    assert_eq!(trim(" \t "), "");
    assert_eq!(trim(""), "");
    assert_eq!(trim("\u{2003}x\u{205f}"), "x");
    assert_eq!(trim("\u{200b}x"), "\u{200b}x");
}

#[test]
fn white_space_matches_std() {
    for c in ['\t', '\n', '\u{b}', '\u{c}', '\r', ' ', '\u{85}', '\u{a0}', '\u{1680}', '\u{2000}',
        '\u{200a}', '\u{2028}', '\u{2029}', '\u{202f}', '\u{205f}', '\u{3000}', 'a', '\u{200b}',
        '\u{feff}', '_']
    {
        assert_eq!(is_white_space_char(c), c.is_whitespace(), "{:?}", c);
    }
}

#[test]
fn replace_matches_std() {
    for (t, p, w) in [
        ("a{k}b{k}", "{k}", "Z"),
        ("aaa", "aa", "X"),
        ("none here", "{k}", "Z"),
        ("{k}{k}", "{k}", ""),
        ("", "{k}", "Z"),
        ("中{文}字", "{文}", "x"),
    ] {
        assert_eq!(replace_all_exec(t, p, w), t.replace(p, w));
    }
}

#[test]
fn join_separates_parts() {
    let none: Vec<String> = Vec::new();
    assert_eq!(join_exec(&none, "; "), "");
    assert_eq!(join_exec(&["a".to_string()], "; "), "a");
    assert_eq!(
        join_exec(&["a".to_string(), "b".to_string(), "c".to_string()], "; "),
        "a; b; c"
    );
}

#[test]
fn join_path_places_names() {
    assert_eq!(join_path("", "net.log"), "net.log");
    assert_eq!(join_path("/run", "net.log"), "/run/net.log");
    assert_eq!(join_path("/run/", "net.log"), "/run/net.log");
}

#[test]
fn small_text_helpers() {
    assert_eq!(concat2("ab", "cd"), "abcd");
    assert_eq!(concat3("a", "b", "c"), "abc");
    assert!(same_text("tun", "tun"));
    assert!(!same_text("tun", "tun2"));
    assert!(!same_text("tun", "tup"));
    let v = chars_of("héllo");
    assert_eq!(v, vec!['h', 'é', 'l', 'l', 'o']);
    assert_eq!(string_of(&v, 1, 4), "éll");
}
