use flate2::write::GzEncoder;
use flate2::Compression;
use gelf_kafka_listener::gelf::{
    decode_gelf_message, decompressed, is_gzipped, parse_message, parsed_message, text_of_frame,
    DecodeError, GZIP_MAGIC_FIRST, GZIP_MAGIC_SECOND,
};
use serde_json::Value;
use std::io::Write;

const SAMPLE: &[u8] = br#"{"version":"1.1","host":"h","short_message":"hi"}"#;

fn gzip(data: &[u8]) -> Vec<u8> {
    let mut encoder = GzEncoder::new(Vec::new(), Compression::default());
    encoder.write_all(data).unwrap();
    encoder.finish().unwrap()
}

fn text(value: &str) -> Value {
    Value::String(value.to_string())
}

#[test]
fn gzip_magic_is_1f_8b() {
    assert_eq!(GZIP_MAGIC_FIRST, 0x1f);
    assert_eq!(GZIP_MAGIC_SECOND, 0x8b);
}

#[test]
fn is_gzipped_needs_both_magic_bytes() {
    assert!(is_gzipped(&[0x1f, 0x8b]));
    assert!(is_gzipped(&[0x1f, 0x8b, 0x08, 0x00]));
    assert!(!is_gzipped(&[]));
    assert!(!is_gzipped(&[0x1f]));
    assert!(!is_gzipped(&[0x8b, 0x1f]));
    assert!(!is_gzipped(&[0x1f, 0x8c]));
    assert!(!is_gzipped(&[0x20, 0x1f, 0x8b]));
    assert!(!is_gzipped(SAMPLE));
}

#[test]
fn is_gzipped_recognizes_what_the_encoder_writes() {
    assert!(is_gzipped(&gzip(SAMPLE)));
}

#[test]
fn raw_object_decodes_to_its_fields() {
    let message = decode_gelf_message(SAMPLE).unwrap();
    assert_eq!(message.len(), 3);
    assert_eq!(message.get("version"), Some(&text("1.1")));
    assert_eq!(message.get("host"), Some(&text("h")));
    assert_eq!(message.get("short_message"), Some(&text("hi")));
    assert_eq!(message.get("source_ip"), None);
}

#[test]
fn compressed_object_decodes_like_the_raw_one() {
    let raw = decode_gelf_message(SAMPLE).unwrap();
    let compressed = decode_gelf_message(&gzip(SAMPLE)).unwrap();
    assert_eq!(compressed.len(), raw.len());
    for name in ["version", "host", "short_message"] {
        assert!(compressed.contains_key(name));
        assert_eq!(compressed.get(name), raw.get(name));
    }
}

#[test]
fn values_of_every_shape_are_kept() {
    let frame = br#"{"n":-3,"big":18446744073709551615,"t":true,"z":null,"a":[1,"x"],"o":{"k":"v"}}"#;
    let message = decode_gelf_message(frame).unwrap();
    assert_eq!(message.len(), 6);
    assert_eq!(message.get("n"), Some(&Value::from(-3)));
    assert_eq!(message.get("big"), Some(&Value::from(u64::MAX)));
    assert_eq!(message.get("t"), Some(&Value::Bool(true)));
    assert_eq!(message.get("z"), Some(&Value::Null));
    assert_eq!(message.get("a"), Some(&Value::Array(vec![Value::from(1), text("x")])));
    let mut inner = serde_json::Map::new();
    inner.insert("k".to_string(), text("v"));
    assert_eq!(message.get("o"), Some(&Value::Object(inner)));
}

#[test]
fn empty_object_decodes_to_an_empty_message() {
    let message = decode_gelf_message(b"{}").unwrap();
    assert!(message.is_empty());
    assert_eq!(message.len(), 0);
}

#[test]
fn a_repeated_name_keeps_its_last_value() {
    let message = decode_gelf_message(br#"{"a":1,"b":2,"a":3}"#).unwrap();
    assert_eq!(message.len(), 2);
    assert_eq!(message.get("a"), Some(&Value::from(3)));
    assert_eq!(message.get("b"), Some(&Value::from(2)));
}

#[test]
fn empty_frame_is_a_parse_failure() {
    assert_eq!(decode_gelf_message(&[]).unwrap_err(), DecodeError::Parse);
}

#[test]
fn text_that_is_no_object_is_a_parse_failure() {
    assert_eq!(decode_gelf_message(b"not json").unwrap_err(), DecodeError::Parse);
    assert_eq!(decode_gelf_message(b"[1,2]").unwrap_err(), DecodeError::Parse);
    assert_eq!(decode_gelf_message(b"\"text\"").unwrap_err(), DecodeError::Parse);
    assert_eq!(decode_gelf_message(b"{\"a\":1").unwrap_err(), DecodeError::Parse);
    assert_eq!(decode_gelf_message(b"{\"a\":1} x").unwrap_err(), DecodeError::Parse);
}

#[test]
fn corrupt_gzip_is_a_decompression_failure() {
    let frame = [0x1f, 0x8b, 0x08, 0x00, 0xde, 0xad, 0xbe, 0xef, 0x00, 0x01, 0x02, 0x03];
    assert_eq!(decode_gelf_message(&frame).unwrap_err(), DecodeError::Decompress);
    assert_eq!(decode_gelf_message(&[0x1f, 0x8b]).unwrap_err(), DecodeError::Decompress);
}

#[test]
fn truncated_gzip_is_a_decompression_failure() {
    let whole = gzip(SAMPLE);
    let cut = &whole[..whole.len() / 2];
    assert_eq!(decode_gelf_message(cut).unwrap_err(), DecodeError::Decompress);
}

#[test]
fn compressed_bytes_that_are_no_text_are_a_decompression_failure() {
    let frame = gzip(&[b'{', 0xff, 0xfe, b'}']);
    assert_eq!(decode_gelf_message(&frame).unwrap_err(), DecodeError::Decompress);
}

#[test]
fn compressed_text_that_is_no_object_is_a_parse_failure() {
    assert_eq!(decode_gelf_message(&gzip(b"not json")).unwrap_err(), DecodeError::Parse);
    assert_eq!(decode_gelf_message(&gzip(b"")).unwrap_err(), DecodeError::Parse);
}

#[test]
fn frame_without_magic_is_never_decompressed() {
    let mut frame = vec![b' '];
    frame.extend_from_slice(&gzip(SAMPLE));
    assert!(!is_gzipped(&frame));
    assert!(text_of_frame(&frame).is_ok());
    assert_eq!(decode_gelf_message(&frame).unwrap_err(), DecodeError::Parse);
}

#[test]
fn invalid_utf8_in_a_raw_frame_is_replaced() {
    let frame = [b'{', b'"', b'a', b'"', b':', b'"', 0xff, b'"', b'}'];
    let message = decode_gelf_message(&frame).unwrap();
    assert_eq!(message.get("a"), Some(&text("\u{fffd}")));
}

#[test]
fn text_of_raw_frame_is_its_lossy_text() {
    assert_eq!(text_of_frame(b"plain").unwrap(), "plain");
    assert_eq!(text_of_frame(&[b'a', 0xc3, 0xa9]).unwrap(), "a\u{e9}");
    assert_eq!(text_of_frame(&[b'a', 0xff, b'b']).unwrap(), "a\u{fffd}b");
    assert_eq!(text_of_frame(&[]).unwrap(), "");
}

#[test]
fn text_of_compressed_frame_is_what_was_compressed() {
    assert_eq!(text_of_frame(&gzip(b"hello world")).unwrap(), "hello world");
    assert_eq!(text_of_frame(&gzip(SAMPLE)).unwrap().as_bytes(), SAMPLE);
}

#[test]
fn failed_decompression_becomes_the_decompress_error() {
    let failure = std::io::Error::new(std::io::ErrorKind::InvalidData, "bad stream");
    assert_eq!(decompressed(Err(failure)).unwrap_err(), DecodeError::Decompress);
    assert_eq!(decompressed(Ok("text".to_string())).unwrap(), "text");
}

#[test]
fn parse_message_reads_one_object() {
    let message = parse_message(r#"{"k":"v"}"#).unwrap();
    assert_eq!(message.len(), 1);
    assert_eq!(message.get("k"), Some(&text("v")));
    assert_eq!(parse_message("").unwrap_err(), DecodeError::Parse);
    assert_eq!(parse_message("3").unwrap_err(), DecodeError::Parse);
}

#[test]
fn parsed_entries_in_order_become_the_message() {
    let entries = vec![("a".to_string(), Value::from(1)), ("b".to_string(), Value::from(2))];
    let message = parsed_message(Ok(entries)).unwrap();
    assert_eq!(message.len(), 2);
    assert_eq!(message.get("a"), Some(&Value::from(1)));
    assert_eq!(message.get("b"), Some(&Value::from(2)));
}

#[test]
fn parsed_entries_out_of_order_become_the_message() {
    let entries = vec![
        ("b".to_string(), Value::from(1)),
        ("a".to_string(), Value::from(2)),
        ("b".to_string(), Value::from(3)),
    ];
    let message = parsed_message(Ok(entries)).unwrap();
    assert_eq!(message.len(), 2);
    assert_eq!(message.get("a"), Some(&Value::from(2)));
    assert_eq!(message.get("b"), Some(&Value::from(3)));
}

#[test]
fn failed_parse_becomes_the_parse_error() {
    let failure = serde_json::from_str::<Value>("{").unwrap_err();
    assert_eq!(parsed_message(Err(failure)).unwrap_err(), DecodeError::Parse);
}

#[test]
fn a_failed_frame_does_not_affect_the_next() {
    assert!(decode_gelf_message(&[]).is_err());
    assert!(decode_gelf_message(b"garbage").is_err());
    assert!(decode_gelf_message(&[0x1f, 0x8b, 0x00]).is_err());
    let message = decode_gelf_message(SAMPLE).unwrap();
    assert_eq!(message.get("host"), Some(&text("h")));
}
