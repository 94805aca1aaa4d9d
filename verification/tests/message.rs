use gelf_kafka_listener::message::{names_ascend, GelfMessage};
use gelf_kafka_listener::text::{text_eq, text_precedes};
use serde_json::Value;

fn entry(name: &str, value: i64) -> (String, Value) {
    (name.to_string(), Value::from(value))
}

#[test]
fn new_message_has_no_fields() {
    let message = GelfMessage::new();
    assert!(message.is_empty());
    assert_eq!(message.len(), 0);
    assert!(!message.contains_key("host"));
    assert_eq!(message.get("host"), None);
}

#[test]
fn insert_adds_a_field() {
    let mut message = GelfMessage::new();
    assert_eq!(message.insert("host".to_string(), Value::from("h")), None);
    assert!(!message.is_empty());
    assert_eq!(message.len(), 1);
    assert!(message.contains_key("host"));
    assert!(!message.contains_key("hos"));
    assert!(!message.contains_key("host "));
    assert_eq!(message.get("host"), Some(&Value::from("h")));
}

#[test]
fn insert_replaces_a_field_and_returns_the_old_value() {
    let mut message = GelfMessage::new();
    message.insert("a".to_string(), Value::from(1));
    message.insert("b".to_string(), Value::from(2));
    message.insert("c".to_string(), Value::from(3));
    assert_eq!(message.insert("b".to_string(), Value::from(20)), Some(Value::from(2)));
    assert_eq!(message.len(), 3);
    assert_eq!(message.get("a"), Some(&Value::from(1)));
    assert_eq!(message.get("b"), Some(&Value::from(20)));
    assert_eq!(message.get("c"), Some(&Value::from(3)));
}

#[test]
fn from_fields_lets_the_later_entry_count() {
    let message = GelfMessage::from_fields(vec![
        entry("x", 1),
        entry("y", 2),
        entry("x", 3),
        entry("z", 4),
        entry("y", 5),
    ]);
    assert_eq!(message.len(), 3);
    assert_eq!(message.get("x"), Some(&Value::from(3)));
    assert_eq!(message.get("y"), Some(&Value::from(5)));
    assert_eq!(message.get("z"), Some(&Value::from(4)));
}

#[test]
fn from_fields_of_nothing_is_empty() {
    assert!(GelfMessage::from_fields(Vec::new()).is_empty());
}

#[test]
fn names_ascend_on_strictly_ordered_names() {
    assert!(names_ascend(&Vec::new()));
    assert!(names_ascend(&vec![entry("a", 1)]));
    assert!(names_ascend(&vec![entry("a", 1), entry("ab", 2), entry("b", 3)]));
    assert!(!names_ascend(&vec![entry("b", 1), entry("a", 2)]));
    assert!(!names_ascend(&vec![entry("a", 1), entry("a", 2)]));
    assert!(!names_ascend(&vec![entry("a", 1), entry("c", 2), entry("b", 3)]));
}

#[test]
fn text_eq_compares_whole_texts() {
    assert!(text_eq("", ""));
    assert!(text_eq("tcp", "tcp"));
    assert!(text_eq("h\u{e9}llo", "h\u{e9}llo"));
    assert!(!text_eq("tcp", "tcq"));
    assert!(!text_eq("tcp", "tc"));
    assert!(!text_eq("tc", "tcp"));
    assert!(!text_eq("", "a"));
    assert!(!text_eq("e", "\u{e9}"));
}

#[test]
fn text_precedes_is_the_order_of_the_bytes() {
    assert!(text_precedes("", "a"));
    assert!(text_precedes("a", "b"));
    assert!(text_precedes("a", "ab"));
    assert!(text_precedes("ab", "b"));
    assert!(text_precedes("Z", "a"));
    assert!(text_precedes("z", "\u{e9}"));
    assert!(!text_precedes("", ""));
    assert!(!text_precedes("a", "a"));
    assert!(!text_precedes("b", "a"));
    assert!(!text_precedes("ab", "a"));
    assert!(!text_precedes("a", ""));
}
