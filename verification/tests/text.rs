//! Text, maps keyed by text, and spans of time.

use buck2_nextest::duration::Duration;
use buck2_nextest::string_map::StringMap;
use buck2_nextest::text::{
    copy_texts, push_decimal, same_text, split_text_first, text_after_last,
};

#[test]
fn texts_are_compared_by_what_they_hold() {
    assert!(same_text("demo", "demo"));
    assert!(!same_text("demo", "Demo"));
    assert!(!same_text("demo", "demos"));
    let texts = vec!["a".to_owned(), "b".to_owned()];
    assert_eq!(copy_texts(&texts), texts);
}

#[test]
fn text_is_cut_after_the_last_mark() {
    assert_eq!(text_after_last("root//app:demo", ':'), "demo");
    assert_eq!(text_after_last("a:b:c", ':'), "c");
    assert_eq!(text_after_last("a:", ':'), "");
    assert_eq!(text_after_last("demo", ':'), "demo");
    assert_eq!(text_after_last("", ':'), "");
}

#[test]
fn text_is_split_at_the_first_mark() {
    assert_eq!(split_text_first("KEY=a=b", '='), Some(("KEY", "a=b")));
    assert_eq!(split_text_first("=b", '='), Some(("", "b")));
    assert_eq!(split_text_first("KEY=", '='), Some(("KEY", "")));
    assert_eq!(split_text_first("KEY", '='), None);
    assert_eq!(split_text_first("\u{e9}\u{e8}=\u{ea}", '='), Some(("\u{e9}\u{e8}", "\u{ea}")));
}

#[test]
fn numbers_are_written_in_decimal() {
    for value in [0, 7, 10, 99, 100, 12_345, u64::MAX] {
        let mut text = "n".to_owned();
        push_decimal(&mut text, value);
        assert_eq!(text, format!("n{value}"));
    }
}

#[test]
fn the_last_entry_for_a_key_wins() {
    let entry = |key: &str, value: &str| (key.to_owned(), value.to_owned());
    let mut map = StringMap::from_entries(vec![
        entry("A", "first"),
        entry("B", "only"),
        entry("A", "last"),
    ]);
    assert_eq!(map.len(), 2);
    assert_eq!(map.get("A").map(String::as_str), Some("last"));
    assert_eq!(map.get("B").map(String::as_str), Some("only"));
    assert_eq!(map.get("C"), None);

    assert!(!map.insert("C".to_owned(), "new".to_owned()));
    assert!(map.insert("C".to_owned(), "newer".to_owned()));
    assert_eq!(map.get("C").map(String::as_str), Some("newer"));

    let other = StringMap::from_entries(vec![entry("B", "other"), entry("D", "more")]);
    map.extend(&other);
    assert_eq!(map.len(), 4);
    assert_eq!(map.get("B").map(String::as_str), Some("other"));
    assert_eq!(map.get("D").map(String::as_str), Some("more"));

    let copy = map.duplicate();
    assert_eq!(copy.len(), 4);
    assert_eq!(copy.get("A").map(String::as_str), Some("last"));
    assert_eq!(copy.entries().len(), 4);
    assert_eq!(StringMap::<String>::new().len(), 0);
}

#[test]
fn spans_carry_into_seconds() {
    let span = Duration::new(1, 2_500_000_000);
    assert_eq!((span.as_secs(), span.subsec_nanos()), (3, 500_000_000));
    let sum = span
        .checked_add(Duration::new(0, 500_000_000))
        .expect("it fits");
    assert_eq!((sum.as_secs(), sum.subsec_nanos()), (4, 0));
    assert_eq!(Duration::zero().as_secs(), 0);
    assert_eq!(Duration::zero().subsec_nanos(), 0);
}

#[test]
fn spans_that_are_too_long_do_not_add_up() {
    let longest = || Duration::new(u64::MAX, 999_999_999);
    assert!(longest().checked_add(Duration::new(0, 1)).is_none());
    assert!(longest().checked_add(longest()).is_none());
    let sum = longest()
        .checked_add(Duration::zero())
        .expect("nothing is added");
    assert_eq!(
        (sum.as_secs(), sum.subsec_nanos()),
        (u64::MAX, 999_999_999)
    );
}
