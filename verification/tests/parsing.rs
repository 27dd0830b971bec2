use twitch_notifier::json::{parse_json, Json};
use twitch_notifier::notifications::notification_body;
use twitch_notifier::settings::{default_check_interval, Settings};

#[test]
fn parses_flat_object() {
    let doc = parse_json(r#" {"a": "x", "b": 7, "c": true, "d": null} "#).unwrap();
    let a = doc.get(&"a".to_string()).unwrap();
    assert_eq!(a.as_string().unwrap(), "x");
    let b = doc.get(&"b".to_string()).unwrap();
    assert_eq!(b.as_u64(), Some(7));
    assert!(matches!(doc.get(&"c".to_string()).unwrap(), Json::Bool(true)));
    assert!(matches!(doc.get(&"d".to_string()).unwrap(), Json::Null));
    assert!(doc.get(&"e".to_string()).is_none());
}

#[test]
fn parses_nested_arrays_and_objects() {
    let doc = parse_json(r#"{"data": [ {"id": "1"}, {"id": "2"} ], "extra": [[], {}]}"#).unwrap();
    let data = doc.get(&"data".to_string()).unwrap().as_array().unwrap();
    assert_eq!(data.len(), 2);
    assert_eq!(
        data[1].get(&"id".to_string()).unwrap().as_string().unwrap(),
        "2"
    );
}

#[test]
fn decodes_simple_escapes() {
    let doc = parse_json(r#""a\nb\t\"q\"\\""#).unwrap();
    assert_eq!(doc.as_string().unwrap(), "a\nb\t\"q\"\\");
}

#[test]
fn decodes_unicode_escapes() {
    let doc = parse_json(r#""A\u00e9""#).unwrap();
    assert_eq!(doc.as_string().unwrap(), "A\u{e9}");
}

#[test]
fn decodes_surrogate_pairs() {
    let doc = parse_json(r#""\ud83d\ude00""#).unwrap();
    assert_eq!(doc.as_string().unwrap(), "\u{1F600}");
}

#[test]
fn rejects_lone_surrogate() {
    assert!(parse_json(r#""\ud83d""#).is_none());
}

#[test]
fn rejects_malformed_documents() {
    assert!(parse_json("").is_none());
    assert!(parse_json("{").is_none());
    assert!(parse_json(r#"{"a": 1,}"#).is_none());
    assert!(parse_json("[1, 2,]").is_none());
    assert!(parse_json(r#""unterminated"#).is_none());
    assert!(parse_json("tru").is_none());
    assert!(parse_json("{} {}").is_none());
}

#[test]
fn accepts_surrounding_whitespace() {
    assert!(parse_json(" \r\n\t [1, 2, 3] \n ").is_some());
}

#[test]
fn reads_numbers_as_u64() {
    let doc = parse_json("18446744073709551615").unwrap();
    assert_eq!(doc.as_u64(), Some(u64::MAX));
    let doc = parse_json("18446744073709551616").unwrap();
    assert_eq!(doc.as_u64(), None);
    let doc = parse_json("-1").unwrap();
    assert_eq!(doc.as_u64(), None);
    let doc = parse_json("1.5").unwrap();
    assert_eq!(doc.as_u64(), None);
    let doc = parse_json("0").unwrap();
    assert_eq!(doc.as_u64(), Some(0));
}

#[test]
fn composes_notification_body_without_title() {
    assert_eq!(notification_body("Science & Technology", None), "Science & Technology");
}

#[test]
fn composes_notification_body_with_title_and_empty_content() {
    assert_eq!(notification_body("", Some("Stream title")), "Stream title");
}

#[test]
fn composes_notification_body_with_title() {
    assert_eq!(
        notification_body("Just Chatting", Some("Stream title")),
        "Just Chatting\nStream title"
    );
}

#[test]
fn settings_default_interval() {
    assert_eq!(default_check_interval(), 60);
    let s = Settings::new("id".to_string(), "secret".to_string(), vec![], None);
    assert_eq!(s.check_interval_seconds, 60);
    let s = Settings::new("id".to_string(), "secret".to_string(), vec![], Some(15));
    assert_eq!(s.check_interval_seconds, 15);
}
