//! Unit tests of the line-protocol encoder and its value types.

use mqtt2influx::line::{encode_line, NormalizedRecord, Number};

fn number(text: &str) -> Number {
    Number::from_text(text.to_string()).expect("valid numeric text")
}

fn sample_record() -> NormalizedRecord {
    NormalizedRecord {
        measurement: "electricity".to_string(),
        tags: vec![("mpan".to_string(), "1234".to_string())],
        fields: vec![
            ("power".to_string(), number("0.42")),
            ("cumulative".to_string(), number("1234.567")),
        ],
        timestamp_seconds: 1685622645,
    }
}

#[test]
fn encoding_renders_measurement_tags_fields_timestamp() {
    let line = encode_line(&sample_record());
    assert_eq!(line, "electricity,mpan=1234 power=0.42,cumulative=1234.567 1685622645");
}

#[test]
fn encoding_twice_is_byte_identical() {
    let record = sample_record();
    assert_eq!(encode_line(&record), encode_line(&record));
}

#[test]
fn no_trailing_newline() {
    assert!(!encode_line(&sample_record()).ends_with('\n'));
}

#[test]
fn reserved_tag_characters_are_escaped() {
    let record = NormalizedRecord {
        measurement: "m".to_string(),
        tags: vec![("name".to_string(), "Lamp, Desk=main room".to_string())],
        fields: vec![("v".to_string(), number("1"))],
        timestamp_seconds: 0,
    };
    let line = encode_line(&record);
    assert_eq!(line, "m,name=Lamp\\,\\ Desk\\=main\\ room v=1 0");
}

#[test]
fn other_characters_are_left_unaltered() {
    let record = NormalizedRecord {
        measurement: "m".to_string(),
        tags: vec![("name".to_string(), "a-b_c.d\"e".to_string())],
        fields: vec![("v".to_string(), number("1"))],
        timestamp_seconds: 0,
    };
    let line = encode_line(&record);
    assert_eq!(line, "m,name=a-b_c.d\"e v=1 0");
}

#[test]
fn multiple_tags_in_order() {
    let record = NormalizedRecord {
        measurement: "m".to_string(),
        tags: vec![
            ("a".to_string(), "1".to_string()),
            ("b".to_string(), "2".to_string()),
        ],
        fields: vec![("v".to_string(), number("3"))],
        timestamp_seconds: 5,
    };
    assert_eq!(encode_line(&record), "m,a=1,b=2 v=3 5");
}

#[test]
fn negative_timestamp_renders_with_sign() {
    let record = NormalizedRecord {
        measurement: "m".to_string(),
        tags: vec![],
        fields: vec![("v".to_string(), number("1"))],
        timestamp_seconds: -1,
    };
    assert_eq!(encode_line(&record), "m v=1 -1");
}

#[test]
fn extreme_timestamps_render_exactly() {
    let record = NormalizedRecord {
        measurement: "m".to_string(),
        tags: vec![],
        fields: vec![("v".to_string(), number("1"))],
        timestamp_seconds: i64::MIN,
    };
    assert_eq!(encode_line(&record), "m v=1 -9223372036854775808");
    let record = NormalizedRecord {
        measurement: "m".to_string(),
        tags: vec![],
        fields: vec![("v".to_string(), number("1"))],
        timestamp_seconds: i64::MAX,
    };
    assert_eq!(encode_line(&record), "m v=1 9223372036854775807");
}

#[test]
fn number_accepts_decimal_literals() {
    for text in ["0", "-12.5", "1e30", "2.5E-7", "+3"] {
        assert!(Number::from_text(text.to_string()).is_some());
    }
}

#[test]
fn number_rejects_other_text() {
    for text in ["", "abc", "12 ", "1,5", "nan"] {
        assert!(Number::from_text(text.to_string()).is_none());
    }
}

#[test]
fn number_keeps_its_text_verbatim() {
    let n = number("1234.5000");
    assert_eq!(n.text().as_str(), "1234.5000");
}
