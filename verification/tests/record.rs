use media_control::store::{decode_record, encode_record};

#[test]
fn load_missing_content_defaults() {
    // an unreadable or missing record file degrades to empty content
    assert_eq!(decode_record(""), (String::new(), 0));
}

#[test]
fn load_non_numeric_handle_defaults() {
    assert_eq!(decode_record("abc;xyz"), (String::new(), 0));
}

#[test]
fn load_well_formed() {
    assert_eq!(
        decode_record("org.mpris.MediaPlayer2.foo;42"),
        ("org.mpris.MediaPlayer2.foo".to_string(), 42)
    );
}

#[test]
fn save_load_round_trip() {
    let text = encode_record("org.mpris.MediaPlayer2.foo", 42);
    assert_eq!(text, "org.mpris.MediaPlayer2.foo;42");
    assert_eq!(decode_record(&text), ("org.mpris.MediaPlayer2.foo".to_string(), 42));
}

#[test]
fn encode_zero_handle() {
    assert_eq!(encode_record("x", 0), "x;0");
}

#[test]
fn load_missing_delimiter_defaults() {
    assert_eq!(decode_record("abc"), (String::new(), 0));
}

#[test]
fn load_empty_handle_defaults() {
    assert_eq!(decode_record("abc;"), (String::new(), 0));
}

#[test]
fn load_extra_field_ignored() {
    assert_eq!(decode_record("abc;42;junk"), ("abc".to_string(), 42));
}

#[test]
fn load_handle_at_max() {
    assert_eq!(decode_record("p;4294967295"), ("p".to_string(), u32::MAX));
}

#[test]
fn load_handle_overflow_defaults() {
    assert_eq!(decode_record("p;4294967296"), (String::new(), 0));
}

#[test]
fn load_handle_with_plus_sign() {
    assert_eq!(decode_record("p;+42"), ("p".to_string(), 42));
}

#[test]
fn load_bare_plus_defaults() {
    assert_eq!(decode_record("p;+"), (String::new(), 0));
}

#[test]
fn load_negative_handle_defaults() {
    assert_eq!(decode_record("p;-1"), (String::new(), 0));
}

#[test]
fn load_empty_id_is_kept() {
    assert_eq!(decode_record(";7"), (String::new(), 7));
}

#[test]
fn round_trip_large_handle() {
    let text = encode_record("spotify", 4294967295);
    assert_eq!(decode_record(&text), ("spotify".to_string(), u32::MAX));
}
