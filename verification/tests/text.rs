use mcp_proxy::table::Table;
use mcp_proxy::text::{
    chars_of, contains, eq_ignore_ascii_case, find, join, listed, number_text, piece_after,
    same_text, shorten, starts_with,
};

fn strings(list: &[&str]) -> Vec<String> {
    list.iter().map(|s| s.to_string()).collect()
}

#[test]
fn texts_are_compared() {
    assert_eq!(chars_of("aé文"), vec!['a', 'é', '文']);
    assert!(same_text("文", "文"));
    assert!(!same_text("a", "ab"));
    assert!(!same_text("ab", "ac"));
    assert!(starts_with("Bearer x", "Bearer "));
    assert!(!starts_with("bearer x", "Bearer "));
    assert!(!starts_with("B", "Bearer "));
    assert!(starts_with("", ""));
    assert!(eq_ignore_ascii_case("aUtHoRiZaTiOn", "Authorization"));
    assert!(!eq_ignore_ascii_case("É", "é"));
    assert!(!eq_ignore_ascii_case("[", "{"));
    assert!(!eq_ignore_ascii_case("a", "aa"));
}

#[test]
fn texts_are_searched() {
    assert_eq!(find("文文b", "b"), Some(2));
    assert_eq!(find("aab", "ab"), Some(1));
    assert_eq!(find("aab", "ac"), None);
    assert_eq!(find("a", "ab"), None);
    assert_eq!(find("a", ""), Some(0));
    assert!(contains("xtext/event-streamy", "text/event-stream"));
    assert_eq!(piece_after("a--b--c", "--").as_deref(), Some("b"));
    assert_eq!(piece_after("a--", "--").as_deref(), Some(""));
    assert_eq!(piece_after("a---b", "--").as_deref(), Some("-b"));
    assert_eq!(piece_after("a", "--"), None);
    assert!(listed(&strings(&["a", "b"]), "b"));
    assert!(!listed(&strings(&["a", "b"]), "c"));
}

#[test]
fn texts_are_put_together() {
    assert_eq!(number_text(0), "0");
    assert_eq!(number_text(1_234_567_890), "1234567890");
    assert_eq!(number_text(u64::MAX), u64::MAX.to_string());
    assert_eq!(join(&strings(&[]), ", "), "");
    assert_eq!(join(&strings(&["a"]), ", "), "a");
    assert_eq!(join(&strings(&["a", "", "b"]), ", "), "a, , b");
    assert_eq!(shorten("abcdef", 3), "abc...");
    assert_eq!(shorten("abc", 3), "abc");
    assert_eq!(shorten("文文", 3), "文...");
}

#[test]
fn table_keeps_one_value_per_key() {
    let t: Table<String> = Table::new();
    assert!(t.is_empty());
    let t = t
        .with("a".into(), "1".into())
        .with("b".into(), "2".into())
        .with("a".into(), "3".into());
    assert_eq!(t.len(), 2);
    assert_eq!(t.key(0), "a");
    assert_eq!(t.value(0), "3");
    assert_eq!(t.get("b").unwrap(), "2");
    assert_eq!(t.get("c"), None);
    let copy = t.clone();
    assert_eq!(copy.len(), 2);
    assert_eq!(copy.get("a").unwrap(), "3");
}
