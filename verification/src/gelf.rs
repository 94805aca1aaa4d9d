//! The frame decoder: from the bytes of one inbound frame to a GELF message.
//!
//! A frame that starts with the gzip magic number is decompressed into text;
//! any other frame is read as UTF-8 text, with what is not valid UTF-8
//! replaced. The text must then spell one JSON object, whose fields become the
//! fields of the message.

use crate::json::{json_object, parse_object};
use crate::message::{fields_map, lemma_ascending_names_are_distinct, names_ascend};
pub use crate::message::GelfMessage;
use crate::text::{lossy_text, text_from_utf8_lossy};
use flate2::read::GzDecoder;
use serde_json::Value;
use std::io::Read;
use vstd::prelude::*;
use vstd::utf8::{decode_utf8, valid_utf8};

verus! {

/// The first byte of the gzip magic number.
pub const GZIP_MAGIC_FIRST: u8 = 0x1f;

/// The second byte of the gzip magic number.
pub const GZIP_MAGIC_SECOND: u8 = 0x8b;

/// What an I/O operation of the standard library reports when it fails.
#[verifier::external_type_specification]
#[verifier::external_body]
pub struct ExIoError(std::io::Error);

/// The stage of decoding at which a frame was given up.
#[derive(Debug, Clone, Copy, PartialEq, Eq)]
pub enum DecodeError {
    /// The frame carries the gzip magic number and could not be decompressed
    /// into text.
    Decompress,
    /// The text of the frame is not one JSON object.
    Parse,
}

/// Whether a frame starts with the two bytes of the gzip magic number.
pub open spec fn has_gzip_magic(data: Seq<u8>) -> bool {
    data.len() >= 2 && data[0] == GZIP_MAGIC_FIRST && data[1] == GZIP_MAGIC_SECOND
}

/// The text that a gzip stream decompresses to, or `None` where the bytes are
/// no complete gzip stream or what they hold is not valid UTF-8.
pub uninterp spec fn gunzip_text(data: Seq<u8>) -> Option<Seq<char>>;

/// The text of a frame: decompressed where the frame carries the gzip magic
/// number, read as lossy UTF-8 where it does not.
pub open spec fn frame_text(data: Seq<u8>) -> Option<Seq<char>> {
    if has_gzip_magic(data) {
        gunzip_text(data)
    } else {
        Some(lossy_text(data))
    }
}

/// The fields that a text decodes to.
pub open spec fn parsed(text: Seq<char>) -> Result<Map<Seq<char>, Value>, DecodeError> {
    match json_object(text) {
        Some(fields) => Ok(fields),
        None => Err(DecodeError::Parse),
    }
}

/// The fields that a frame decodes to.
pub open spec fn decoded(data: Seq<u8>) -> Result<Map<Seq<char>, Value>, DecodeError> {
    match frame_text(data) {
        Some(text) => parsed(text),
        None => Err(DecodeError::Decompress),
    }
}

/// A decoding result holds exactly the expected fields, or fails with exactly
/// the expected error.
pub open spec fn decodes_as(
    result: Result<GelfMessage, DecodeError>,
    expected: Result<Map<Seq<char>, Value>, DecodeError>,
) -> bool {
    match result {
        Ok(message) => expected == Ok::<Map<Seq<char>, Value>, DecodeError>(message@),
        Err(error) => expected == Err::<Map<Seq<char>, Value>, DecodeError>(error),
    }
}

/// Runs `flate2::read::GzDecoder` over the bytes and reads all that it yields
/// into a string, with `Read::read_to_string`.
///
/// Trusted: whether this succeeds and which text it yields depend on the bytes
/// alone, as `gunzip_text` names them.
#[verifier::external_body]
pub(crate) fn gunzip_to_string(data: &[u8]) -> (text: Result<String, std::io::Error>)
    ensures
        match text {
            Ok(t) => gunzip_text(data@) == Some(t@),
            Err(_) => gunzip_text(data@) is None,
        },
{
    let mut text = String::new();
    match GzDecoder::new(data).read_to_string(&mut text) {
        Ok(_) => Ok(text),
        Err(error) => Err(error),
    }
}

/// Tells whether a frame is gzip-compressed, by its first two bytes.
pub fn is_gzipped(data: &[u8]) -> (gzipped: bool)
    ensures
        gzipped == has_gzip_magic(data@),
{
    data.len() >= 2 && data[0] == GZIP_MAGIC_FIRST && data[1] == GZIP_MAGIC_SECOND
}

/// Turns the outcome of decompression into the text of the frame, or into the
/// error of the decompression stage.
pub fn decompressed(outcome: Result<String, std::io::Error>) -> (text: Result<String, DecodeError>)
    ensures
        match outcome {
            Ok(t) => text == Ok::<String, DecodeError>(t),
            Err(_) => text == Err::<String, DecodeError>(DecodeError::Decompress),
        },
{
    match outcome {
        Ok(text) => Ok(text),
        Err(_) => Err(DecodeError::Decompress),
    }
}

/// Extracts the text of a frame. A frame with the gzip magic number is
/// decompressed; no other frame is ever handed to the decompressor.
pub fn text_of_frame(data: &[u8]) -> (text: Result<String, DecodeError>)
    ensures
        match text {
            Ok(t) => frame_text(data@) == Some(t@),
            Err(error) => error == DecodeError::Decompress && frame_text(data@) is None,
        },
        !has_gzip_magic(data@) ==> text is Ok,
        !has_gzip_magic(data@) && valid_utf8(data@) ==> text is Ok && text->Ok_0@ == decode_utf8(
            data@,
        ),
{
    if is_gzipped(data) {
        decompressed(gunzip_to_string(data))
    } else {
        Ok(text_from_utf8_lossy(data))
    }
}

/// Turns the outcome of parsing into a message, or into the error of the
/// parsing stage. Entries that come in the order of their names, as the parser
/// lists them, are taken over in one pass.
pub fn parsed_message(outcome: Result<Vec<(String, Value)>, serde_json::Error>) -> (message: Result<
    GelfMessage,
    DecodeError,
>)
    ensures
        match outcome {
            Ok(entries) => message is Ok && message->Ok_0@ == fields_map(entries@),
            Err(_) => message == Err::<GelfMessage, DecodeError>(DecodeError::Parse),
        },
{
    match outcome {
        Ok(entries) => {
            if names_ascend(&entries) {
                proof {
                    lemma_ascending_names_are_distinct(entries@);
                }
                Ok(GelfMessage::from_entries(entries))
            } else {
                Ok(GelfMessage::from_fields(entries))
            }
        },
        Err(_) => Err(DecodeError::Parse),
    }
}

/// Parses a text as one JSON object and makes a message of its fields.
pub fn parse_message(text: &str) -> (message: Result<GelfMessage, DecodeError>)
    ensures
        decodes_as(message, parsed(text@)),
{
    parsed_message(parse_object(text))
}

/// Decodes one frame: decompresses it if it is gzip-compressed, reads it as
/// lossy UTF-8 if it is not, and parses the text as a JSON object.
pub fn decode_gelf_message(data: &[u8]) -> (message: Result<GelfMessage, DecodeError>)
    ensures
        decodes_as(message, decoded(data@)),
{
    match text_of_frame(data) {
        Ok(text) => parse_message(text.as_str()),
        Err(error) => Err(error),
    }
}

/// A frame whose text spells a JSON object, compressed or not, decodes to
/// exactly the fields of that object.
pub proof fn lemma_object_payload_decodes(
    data: Seq<u8>,
    text: Seq<char>,
    fields: Map<Seq<char>, Value>,
)
    requires
        frame_text(data) == Some(text),
        json_object(text) == Some(fields),
    ensures
        decoded(data) == Ok::<Map<Seq<char>, Value>, DecodeError>(fields),
{
}

/// A frame that does not start with the gzip magic number is decoded from its
/// own bytes read as lossy UTF-8: decompression has no part in the result, and
/// the decompression stage cannot fail.
pub proof fn lemma_plain_frame_is_raw_text(data: Seq<u8>)
    requires
        !has_gzip_magic(data),
    ensures
        frame_text(data) == Some(lossy_text(data)),
        decoded(data) == parsed(lossy_text(data)),
        decoded(data) != Err::<Map<Seq<char>, Value>, DecodeError>(DecodeError::Decompress),
{
}

/// Compression is transparent: a compressed frame that unpacks to the text of
/// a plain frame decodes to the same result as the plain frame.
pub proof fn lemma_compression_is_transparent(plain: Seq<u8>, compressed: Seq<u8>)
    requires
        !has_gzip_magic(plain),
        has_gzip_magic(compressed),
        gunzip_text(compressed) == Some(lossy_text(plain)),
    ensures
        decoded(compressed) == decoded(plain),
{
}

} // verus!
