use dap_adapters::env::EnvVars;
use dap_adapters::text::{chars_of, contains_str, join_with_spaces, replace_str};

fn pairs(items: &[(&str, &str)]) -> Vec<(String, String)> {
    items.iter().map(|(k, v)| (k.to_string(), v.to_string())).collect()
}

fn sorted(mut v: Vec<(String, String)>) -> Vec<(String, String)> {
    v.sort();
    v
}

#[test]
fn replace_every_placeholder() {
    assert_eq!(replace_str("com.$ZED_STEM.$ZED_STEMKt", "$ZED_STEM", "app"), "com.app.appKt");
}

#[test]
fn replace_without_occurrence_keeps_text() {
    assert_eq!(replace_str("com.example.MainKt", "$ZED_STEM", "app"), "com.example.MainKt");
}

#[test]
fn replace_scans_left_to_right_without_overlap() {
    assert_eq!(replace_str("aaa", "aa", "b"), "ba");
    assert_eq!(replace_str("aaaa", "aa", "b"), "bb");
}

#[test]
fn replace_matches_std_on_unicode() {
    let s = "ünï$ZED_STEMçødé$ZED_STEM";
    assert_eq!(replace_str(s, "$ZED_STEM", "ß"), s.replace("$ZED_STEM", "ß"));
}

#[test]
fn contains_finds_placeholder() {
    assert!(contains_str("pkg.$ZED_STEMKt", "$ZED_STEM"));
    assert!(!contains_str("pkg.$ZED_STEKt", "$ZED_STEM"));
    assert!(contains_str("abc", ""));
    assert!(!contains_str("", "a"));
}

#[test]
fn chars_in_order() {
    assert_eq!(chars_of("añb"), vec!['a', 'ñ', 'b']);
}

#[test]
fn join_uses_single_spaces() {
    let items = vec!["--headless".to_string(), "--path".to_string(), "game".to_string()];
    assert_eq!(join_with_spaces(&items), "--headless --path game");
    assert_eq!(join_with_spaces(&vec![]), "");
    assert_eq!(join_with_spaces(&vec!["one".to_string()]), "one");
}

#[test]
fn env_insert_replaces_binding() {
    let mut env = EnvVars::new();
    assert!(env.is_empty());
    env.insert("A".to_string(), "1".to_string());
    env.insert("B".to_string(), "2".to_string());
    env.insert("A".to_string(), "3".to_string());
    assert!(!env.is_empty());
    assert_eq!(sorted(env.to_pairs()), pairs(&[("A", "3"), ("B", "2")]));
}

#[test]
fn env_extend_prefers_other() {
    let mut env = EnvVars::from_pairs(pairs(&[("PATH", "/bin"), ("HOME", "/home/u")]));
    env.extend(EnvVars::from_pairs(pairs(&[("PATH", "/usr/bin"), ("LANG", "C")])));
    assert_eq!(
        sorted(env.to_pairs()),
        pairs(&[("HOME", "/home/u"), ("LANG", "C"), ("PATH", "/usr/bin")])
    );
}

#[test]
fn env_from_pairs_later_wins() {
    let env = EnvVars::from_pairs(pairs(&[("X", "1"), ("X", "2")]));
    assert_eq!(env.to_pairs(), pairs(&[("X", "2")]));
}

#[test]
fn replace_empty_pattern_matches_std() {
    assert_eq!(replace_str("abc", "", "-"), "abc".replace("", "-"));
    assert_eq!(replace_str("", "", "-"), "-");
}
