use nix_installer::command::temporary_sibling;
use nix_installer::text::{
    all_held, chars_of, decimal_string, dedup_texts, find_chars, holds_text, join_with,
    split_on, starts_with, text_is,
};

fn strings(items: &[&str]) -> Vec<String> {
    items.iter().map(|s| s.to_string()).collect()
}

#[test]
fn decimal_numerals() {
    assert_eq!(decimal_string(0), "0");
    assert_eq!(decimal_string(7), "7");
    assert_eq!(decimal_string(10), "10");
    assert_eq!(decimal_string(3000), "3000");
    assert_eq!(decimal_string(4294967295), "4294967295");
    assert_eq!(decimal_string(u64::MAX), "18446744073709551615");
}

#[test]
fn splitting_keeps_empty_parts() {
    assert_eq!(split_on("", ' '), strings(&[""]));
    assert_eq!(split_on("a", ' '), strings(&["a"]));
    assert_eq!(split_on("a b", ' '), strings(&["a", "b"]));
    assert_eq!(split_on("a  b ", ' '), strings(&["a", "", "b", ""]));
    assert_eq!(split_on(" a", ' '), strings(&["", "a"]));
}

#[test]
fn joining_undoes_splitting() {
    for text in ["", "a", "nix-command flakes", " a  b ", "é ü"] {
        assert_eq!(join_with(&split_on(text, ' '), " "), text);
    }
    assert_eq!(join_with(&strings(&[]), ","), "");
    assert_eq!(join_with(&strings(&["a", "b", "c"]), ", "), "a, b, c");
}

#[test]
fn first_occurrences_stay() {
    assert_eq!(dedup_texts(&strings(&["a", "b", "a", "c", "b"])), strings(&["a", "b", "c"]));
    assert_eq!(dedup_texts(&strings(&[])), strings(&[]));
}

#[test]
fn membership() {
    let items = strings(&["a", "b"]);
    assert!(holds_text(&items, &"b".to_string()));
    assert!(!holds_text(&items, &"c".to_string()));
    assert!(all_held(&strings(&["b", "a", "b"]), &items));
    assert!(!all_held(&strings(&["b", "c"]), &items));
    assert!(all_held(&strings(&[]), &items));
    assert!(text_is(&"abc".to_string(), "abc"));
    assert!(!text_is(&"abc".to_string(), "abd"));
}

#[test]
fn searching() {
    assert_eq!(find_chars(&chars_of("hello world"), &chars_of("o")), Some(4));
    assert_eq!(find_chars(&chars_of("hello"), &chars_of("")), Some(0));
    assert_eq!(find_chars(&chars_of("hello"), &chars_of("hello!")), None);
    assert_eq!(find_chars(&chars_of("aab"), &chars_of("ab")), Some(1));
    assert!(starts_with("https://example.org", "https://"));
    assert!(!starts_with("xhttps://example.org", "https://"));
    assert!(!starts_with("ht", "https://"));
}

#[test]
fn temporary_files_are_siblings() {
    assert_eq!(temporary_sibling("/etc/nix/nix.conf", 42), "/etc/nix/nix-installer-tmp.42");
    assert_eq!(temporary_sibling("nix.conf", 0), "nix-installer-tmp.0");
    assert_eq!(temporary_sibling("/nix.conf", 4294967295), "/nix-installer-tmp.4294967295");
    assert_eq!(temporary_sibling("/etc/nix/", 1), "/etc/nix/nix-installer-tmp.1");
}
