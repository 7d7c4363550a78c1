use lucky_numbers::json_serializer::json_u8_array;
use lucky_numbers::lambda_gateway::JsonBody;
use lucky_numbers::payloads::OutputPayload;
use lucky_numbers::strutil::is_blank;
use lucky_numbers::strutil::push_dec_u8;

#[test]
fn output_payload_serializes_compactly() {
    let out = OutputPayload {
        message: String::from("Hi, Alice. Your lucky numbers are:"),
        numbers: vec![1, 20, 41],
    };
    assert_eq!(
        out.to_json(),
        r#"{"message":"Hi, Alice. Your lucky numbers are:","numbers":[1,20,41]}"#
    );
}

#[test]
fn message_characters_are_json_escaped() {
    let out = OutputPayload {
        message: String::from("a\"b\\c\nd"),
        numbers: vec![],
    };
    assert_eq!(out.to_json(), r#"{"message":"a\"b\\c\nd","numbers":[]}"#);
}

#[test]
fn serialized_output_matches_serde_json() {
    let message = "quotes \" and \\ and control \u{1} chars";
    let out = OutputPayload {
        message: String::from(message),
        numbers: vec![0, 9, 10, 99, 100, 255],
    };
    let mut reference = serde_json::Map::new();
    reference.insert(
        String::from("message"),
        serde_json::Value::from(message),
    );
    reference.insert(String::from("numbers"), serde_json::Value::from(vec![0u8, 9, 10, 99, 100, 255]));
    let expected = serde_json::to_string(&serde_json::Value::Object(reference)).unwrap();
    assert_eq!(out.to_json(), expected);
}

#[test]
fn byte_arrays_render_in_decimal() {
    assert_eq!(json_u8_array(&vec![]), "[]");
    assert_eq!(json_u8_array(&vec![7]), "[7]");
    assert_eq!(json_u8_array(&vec![0, 10, 100, 255]), "[0,10,100,255]");
}

#[test]
fn decimal_digits_have_no_padding() {
    let mut s = String::new();
    push_dec_u8(&mut s, 0);
    push_dec_u8(&mut s, 42);
    push_dec_u8(&mut s, 255);
    assert_eq!(s, "042255");
}

#[test]
fn blankness_follows_unicode_whitespace() {
    assert!(is_blank(""));
    assert!(is_blank(" \t\r\n"));
    assert!(is_blank("\u{3000}\u{205f}"));
    assert!(!is_blank("x"));
    assert!(!is_blank(" x "));
    assert!(!is_blank("\u{200b}"));
}
