use hoptodesk_launch::text::{
    chars_of, ends_with, replace, splitn, starts_with, str_eq, string_of, strip_prefix,
};

fn strings(v: &[&str]) -> Vec<String> {
    v.iter().map(|s| s.to_string()).collect()
}

#[test]
fn chars_round_trip_keeps_unicode() {
    let cs = chars_of("héllo→");
    assert_eq!(cs, vec!['h', 'é', 'l', 'l', 'o', '→']);
    assert_eq!(string_of(&cs), "héllo→");
    assert_eq!(string_of(&[]), "");
}

#[test]
fn str_eq_compares_characters() {
    assert!(str_eq("--cm", "--cm"));
    assert!(!str_eq("--cm", "--cm-no-ui"));
    assert!(!str_eq("abc", "abd"));
    assert!(str_eq("", ""));
}

#[test]
fn prefixes_and_suffixes() {
    assert!(starts_with("hoptodesk://connect/1", "hoptodesk://"));
    assert!(starts_with("abc", ""));
    assert!(!starts_with("ab", "abc"));
    assert!(ends_with("123.hoptodesk", ".hoptodesk"));
    assert!(!ends_with("hoptodesk", ".hoptodesk"));
    assert_eq!(strip_prefix("hoptodesk://sync/42", "hoptodesk://sync/"), Some("42".to_string()));
    assert_eq!(strip_prefix("hoptodesk://sync/", "hoptodesk://sync/"), Some(String::new()));
    assert_eq!(strip_prefix("hoptodesk://x", "hoptodesk://sync/"), None);
}

#[test]
fn replace_scans_from_the_left() {
    assert_eq!(replace("a--b--c", "--", ""), "abc");
    assert_eq!(replace("---x", "--", ""), "-x");
    assert_eq!(replace("aaa", "aa", "b"), "ba");
    assert_eq!(replace("conf.toml", ".toml", "2.toml"), "conf2.toml");
    assert_eq!(replace("", "x", "y"), "");
}

#[test]
fn replace_without_the_pattern_changes_nothing() {
    assert_eq!(replace("settings.conf", ".toml", "2.toml"), "settings.conf");
    assert_eq!(replace("peer", ".exe", ""), "peer");
}

#[test]
fn replace_agrees_with_std() {
    for (s, from, to) in [("x.toml.toml", ".toml", "2.toml"), ("--a---b", "--", ""), ("ééé", "é", "e")] {
        assert_eq!(replace(s, from, to), s.replace(from, to));
    }
}

#[test]
fn splitn_keeps_the_rest_in_the_last_piece() {
    assert_eq!(splitn("a/b/c/d/e", 4, '/'), strings(&["a", "b", "c", "d/e"]));
    assert_eq!(splitn("a/b", 4, '/'), strings(&["a", "b"]));
    assert_eq!(splitn("", 4, '/'), strings(&[""]));
    assert_eq!(splitn("a//", 4, '/'), strings(&["a", "", ""]));
    assert_eq!(splitn("a/b", 1, '/'), strings(&["a/b"]));
    assert_eq!(splitn("a/b", 0, '/'), strings(&[]));
}

#[test]
fn splitn_agrees_with_std() {
    for s in ["1/2/3/4/5/6", "/x", "x/", "", "no-slash", "é/ü"] {
        let ours = splitn(s, 4, '/');
        let theirs: Vec<String> = s.splitn(4, '/').map(|p| p.to_string()).collect();
        assert_eq!(ours, theirs);
    }
}
