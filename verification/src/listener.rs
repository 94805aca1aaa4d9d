//! What the listeners decide: which protocol runs, where a frame ends, and
//! what becomes of one frame.

use crate::enrich::{enrich_with_key, enriched, is_correlation_key, random_key};
use crate::gelf::{decode_gelf_message, decoded, DecodeError};
use crate::json::json_bytes;
use crate::publish::{build_record, BrokerRecord, PublishError};
use crate::text::text_eq;
use vstd::prelude::*;
use vstd::slice::slice_subrange;

verus! {

/// The size in bytes of the buffer that a stream connection or a datagram
/// socket reads into. A frame must fit into one read of this buffer and must
/// not span two reads: what one read returns is taken as one whole frame, and
/// nothing is put together from several reads.
pub const READ_BUFFER_SIZE: usize = 65536;

/// The transport that the process listens on.
#[derive(Debug, Clone, Copy, PartialEq, Eq)]
pub enum Protocol {
    /// A stream listener: each read from a connection is one frame.
    Tcp,
    /// A datagram listener: each datagram is one frame.
    Udp,
    /// A request listener: each request body is one frame.
    Http,
}

/// What one read from a stream connection gave.
#[derive(Debug, Clone, Copy, PartialEq, Eq)]
pub enum ReadOutcome {
    /// The read returned this many bytes.
    Read(usize),
    /// The read failed.
    Failed,
}

/// Why one frame gave no record or did not reach the broker.
#[derive(Debug, Clone, Copy, PartialEq, Eq)]
pub enum FrameError {
    /// The frame could not be decoded.
    Decode(DecodeError),
    /// The message could not be published.
    Publish(PublishError),
}

/// The protocol that a name selects, if it selects one.
pub open spec fn protocol_named(name: Seq<char>) -> Option<Protocol> {
    if name == "tcp"@ {
        Some(Protocol::Tcp)
    } else if name == "udp"@ {
        Some(Protocol::Udp)
    } else if name == "http"@ {
        Some(Protocol::Http)
    } else {
        None
    }
}

/// The payload of the record that a frame gives under a key and a source
/// address, or the error that the frame ends in.
pub open spec fn record_payload(data: Seq<u8>, key: Seq<char>, source: Seq<char>) -> Result<
    Seq<u8>,
    FrameError,
> {
    match decoded(data) {
        Err(error) => Err(FrameError::Decode(error)),
        Ok(fields) => match json_bytes(enriched(fields, key, source)) {
            Some(payload) => Ok(payload),
            None => Err(FrameError::Publish(PublishError::Serialize)),
        },
    }
}

/// A result holds the record of a frame for a topic under a key, or the error
/// that the frame ends in.
pub open spec fn is_record_of(
    result: Result<BrokerRecord, FrameError>,
    data: Seq<u8>,
    key: Seq<char>,
    source: Seq<char>,
    topic: Seq<char>,
) -> bool {
    match result {
        Ok(record) => record.topic@ == topic && record.key@ == key && record_payload(
            data,
            key,
            source,
        ) == Ok::<Seq<u8>, FrameError>(record.payload@),
        Err(error) => record_payload(data, key, source) == Err::<Seq<u8>, FrameError>(error),
    }
}

impl Protocol {
    /// The name that selects this protocol.
    pub fn name(&self) -> (name: &'static str)
        ensures
            protocol_named(name@) == Some(*self),
    {
        proof {
            lemma_protocol_names_differ();
        }
        match self {
            Protocol::Tcp => "tcp",
            Protocol::Udp => "udp",
            Protocol::Http => "http",
        }
    }
}

/// The three protocol names are three different names.
pub proof fn lemma_protocol_names_differ()
    ensures
        "tcp"@ != "udp"@,
        "tcp"@ != "http"@,
        "udp"@ != "http"@,
{
    reveal_strlit("tcp");
    reveal_strlit("udp");
    reveal_strlit("http");
    assert("tcp"@[0] == 't');
    assert("udp"@[0] == 'u');
    assert("tcp"@.len() == 3);
    assert("udp"@.len() == 3);
    assert("http"@.len() == 4);
}

/// Selects the protocol by its name: `tcp`, `udp` or `http`. Any other name
/// selects none.
pub fn parse_protocol(name: &str) -> (protocol: Option<Protocol>)
    ensures
        protocol == protocol_named(name@),
{
    if text_eq(name, "tcp") {
        Some(Protocol::Tcp)
    } else if text_eq(name, "udp") {
        Some(Protocol::Udp)
    } else if text_eq(name, "http") {
        Some(Protocol::Http)
    } else {
        None
    }
}

/// The frame that one read from a stream connection holds: the bytes that the
/// read put at the start of the buffer. There is none, and the connection's
/// task ends, where the read failed or returned no bytes, which is how the
/// peer closes the connection.
pub fn stream_frame<'a>(buffer: &'a [u8], outcome: ReadOutcome) -> (frame: Option<&'a [u8]>)
    ensures
        match outcome {
            ReadOutcome::Read(n) if 0 < n <= buffer@.len() => frame is Some && frame->Some_0@
                == buffer@.subrange(0, n as int),
            _ => frame is None,
        },
{
    match outcome {
        ReadOutcome::Read(n) => {
            if 0 < n && n <= buffer.len() {
                Some(slice_subrange(buffer, 0, n))
            } else {
                None
            }
        },
        ReadOutcome::Failed => None,
    }
}

/// Takes one frame through decoding, enrichment with the given key, and
/// serialization, and makes the record for the broker.
pub fn prepare_record_with_key(frame: &[u8], key: &str, source: &str, topic: &str) -> (record:
    Result<BrokerRecord, FrameError>)
    ensures
        is_record_of(record, frame@, key@, source@, topic@),
{
    match decode_gelf_message(frame) {
        Err(error) => Err(FrameError::Decode(error)),
        Ok(message) => {
            let tagged = enrich_with_key(message, key, source);
            match build_record(topic, key, &tagged) {
                Ok(record) => Ok(record),
                Err(error) => Err(FrameError::Publish(error)),
            }
        },
    }
}

/// Takes one frame through decoding, enrichment with a freshly generated
/// correlation key, and serialization, and makes the record for the broker.
/// Whatever key was generated, the result is the one that the frame gives
/// under that key.
pub fn prepare_record(frame: &[u8], source: &str, topic: &str) -> (record: Result<
    BrokerRecord,
    FrameError,
>)
    ensures
        record matches Ok(r) ==> is_correlation_key(r.key@),
        exists|key: Seq<char>|
            is_correlation_key(key) && #[trigger] is_record_of(
                record,
                frame@,
                key,
                source@,
                topic@,
            ),
{
    let key = random_key();
    prepare_record_with_key(frame, key.as_str(), source, topic)
}

} // verus!
