use telebot::error::ErrorKind;
use telebot::reply::{decode, decode_envelope, decode_text, Envelope};

#[test]
fn decode_success_returns_result_text() {
    let r = decode(br#"{"ok":true,"result":{"a":1}}"#);
    assert_eq!(r.unwrap(), r#"{"a":1}"#);
}

#[test]
fn decode_remote_failure_carries_description() {
    let e = decode(br#"{"ok":false,"description":"bad"}"#).unwrap_err();
    assert_eq!(e.kind(), ErrorKind::Telegram);
    assert_eq!(e.remote_message().unwrap().message(), "bad");
}

#[test]
fn decode_empty_object_is_malformed() {
    let e = decode(b"{}").unwrap_err();
    assert_eq!(e.kind(), ErrorKind::Json);
    assert!(e.remote_message().is_none());
}

#[test]
fn decode_twice_gives_same_result() {
    let raw: &[u8] = br#"{"ok":true,"result":[1,2,{"b":"x"}]}"#;
    let first = decode(raw).unwrap();
    let second = decode(raw).unwrap();
    assert_eq!(first, second);
    assert_eq!(first, r#"[1,2,{"b":"x"}]"#);
}

#[test]
fn decode_invalid_utf8() {
    let e = decode(&[0x7b, 0xff, 0xfe, 0x7d]).unwrap_err();
    assert_eq!(e.kind(), ErrorKind::UTF8Decode);
}

#[test]
fn decode_not_json() {
    let e = decode(b"not json at all").unwrap_err();
    assert_eq!(e.kind(), ErrorKind::JsonParse);
}

#[test]
fn decode_ok_not_boolean_is_malformed() {
    let e = decode(br#"{"ok":"true","result":1}"#).unwrap_err();
    assert_eq!(e.kind(), ErrorKind::Json);
}

#[test]
fn decode_ok_true_without_result_is_remote_failure() {
    let e = decode(br#"{"ok":true,"description":"no result"}"#).unwrap_err();
    assert_eq!(e.kind(), ErrorKind::Telegram);
    assert_eq!(e.remote_message().unwrap().message(), "no result");
}

#[test]
fn decode_failure_without_description() {
    let e = decode(br#"{"ok":false}"#).unwrap_err();
    assert_eq!(e.kind(), ErrorKind::Telegram);
    assert!(e.remote_message().is_none());
}

#[test]
fn decode_result_is_compact() {
    let r = decode(b"{ \"ok\" : true , \"result\" : { \"a\" : [ 1 , 2 ] } }").unwrap();
    assert_eq!(r, r#"{"a":[1,2]}"#);
}

#[test]
fn decode_string_result_keeps_quotes() {
    let r = decode_text(r#"{"ok":true,"result":"link"}"#).unwrap();
    assert_eq!(r, r#""link""#);
}

#[test]
fn envelope_success() {
    let r = decode_envelope(Envelope {
        ok: Some(true),
        result: Some(String::from("{\"a\":1}")),
        description: None,
    });
    assert_eq!(r.unwrap(), "{\"a\":1}");
}

#[test]
fn envelope_missing_ok() {
    let r = decode_envelope(Envelope {
        ok: None,
        result: Some(String::from("1")),
        description: Some(String::from("x")),
    });
    let e = r.unwrap_err();
    assert_eq!(e.kind(), ErrorKind::Json);
    assert!(e.remote_message().is_none());
}

#[test]
fn envelope_failure_with_description() {
    let r = decode_envelope(Envelope {
        ok: Some(false),
        result: Some(String::from("1")),
        description: Some(String::from("bad")),
    });
    let e = r.unwrap_err();
    assert_eq!(e.kind(), ErrorKind::Telegram);
    assert_eq!(e.remote_message().unwrap().message(), "bad");
}
