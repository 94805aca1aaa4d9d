//! The message enricher: tags a decoded message with a correlation key and
//! with the address it came from.

use crate::json::{json_string, string_value};
use crate::message::GelfMessage;
use serde_json::Value;
use vstd::prelude::*;

verus! {

/// The name of the field that carries the correlation key.
pub const KEY_FIELD: &'static str = "gelf_kafka_listener_key";

/// The name of the field that carries the source address.
pub const SOURCE_FIELD: &'static str = "source_ip";

/// A digit or a letter from `a` to `f`.
pub open spec fn is_lower_hex(c: char) -> bool {
    ('0' as u32 <= c as u32 && c as u32 <= '9' as u32) || ('a' as u32 <= c as u32 && c as u32
        <= 'f' as u32)
}

/// The canonical text of a random 128-bit identifier: 32 lower-case
/// hexadecimal digits in groups of 8, 4, 4, 4 and 12, with a hyphen between
/// groups; the third group starts with the version digit `4`, the fourth with
/// one of `8`, `9`, `a`, `b`.
pub open spec fn is_correlation_key(key: Seq<char>) -> bool {
    &&& key.len() == 36
    &&& forall|i: int|
        0 <= i < 36 ==> if i == 8 || i == 13 || i == 18 || i == 23 {
            #[trigger] key[i] == '-'
        } else {
            is_lower_hex(key[i])
        }
    &&& key[14] == '4'
    &&& (key[19] == '8' || key[19] == '9' || key[19] == 'a' || key[19] == 'b')
}

/// The fields of a message after enrichment with the given key and source
/// address.
pub open spec fn enriched(fields: Map<Seq<char>, Value>, key: Seq<char>, source: Seq<char>) -> Map<
    Seq<char>,
    Value,
> {
    fields.insert(KEY_FIELD@, json_string(key)).insert(SOURCE_FIELD@, json_string(source))
}

/// Calls `uuid::Uuid::new_v4` and renders the identifier with `to_string`.
///
/// Trusted: every identifier that comes back has the canonical hyphenated
/// lower-case form of a version 4 identifier. Which one comes back is left
/// open: it is random. The call panics where the operating system yields no
/// random bytes.
#[verifier::external_body]
pub(crate) fn random_key() -> (key: String)
    ensures
        is_correlation_key(key@),
{
    uuid::Uuid::new_v4().to_string()
}

/// Adds the correlation key and the source address to a message. A field that
/// already has one of the two names is overwritten.
pub fn enrich_with_key(message: GelfMessage, key: &str, source: &str) -> (tagged: GelfMessage)
    ensures
        tagged@ == enriched(message@, key@, source@),
{
    let mut tagged = message;
    tagged.insert(KEY_FIELD.to_owned(), string_value(key));
    tagged.insert(SOURCE_FIELD.to_owned(), string_value(source));
    tagged
}

/// Adds a freshly generated correlation key and the source address to a
/// message, and hands back the key beside the message.
pub fn enrich(message: GelfMessage, source: &str) -> (tagged: (GelfMessage, String))
    ensures
        is_correlation_key(tagged.1@),
        tagged.0@ == enriched(message@, tagged.1@, source@),
{
    let key = random_key();
    let tagged = enrich_with_key(message, key.as_str(), source);
    (tagged, key)
}

/// The two field names that enrichment writes are different names.
pub proof fn lemma_enrichment_names_differ()
    ensures
        KEY_FIELD@ != SOURCE_FIELD@,
{
    reveal_strlit("gelf_kafka_listener_key");
    reveal_strlit("source_ip");
    assert(KEY_FIELD@.len() == 23);
    assert(SOURCE_FIELD@.len() == 9);
}

/// Enrichment sets exactly the two fields of the key and the source address:
/// both are there afterwards with the given texts, every other field is there
/// afterwards if and only if it was there before, and with the value it had.
pub proof fn lemma_enrichment_sets_two_fields(
    fields: Map<Seq<char>, Value>,
    key: Seq<char>,
    source: Seq<char>,
)
    ensures
        enriched(fields, key, source).contains_key(KEY_FIELD@),
        enriched(fields, key, source)[KEY_FIELD@] == json_string(key),
        enriched(fields, key, source).contains_key(SOURCE_FIELD@),
        enriched(fields, key, source)[SOURCE_FIELD@] == json_string(source),
        forall|name: Seq<char>|
            name != KEY_FIELD@ && name != SOURCE_FIELD@ ==> (#[trigger] enriched(
                fields,
                key,
                source,
            ).contains_key(name) <==> fields.contains_key(name)),
        forall|name: Seq<char>|
            name != KEY_FIELD@ && name != SOURCE_FIELD@ && fields.contains_key(name)
                ==> #[trigger] enriched(fields, key, source)[name] == fields[name],
{
    lemma_enrichment_names_differ();
}

/// A message that has neither of the two fields has exactly two more fields
/// after enrichment, and each field that it had is kept with its value.
pub proof fn lemma_enrichment_adds_two_fields(
    message: GelfMessage,
    key: Seq<char>,
    source: Seq<char>,
)
    requires
        !message@.contains_key(KEY_FIELD@),
        !message@.contains_key(SOURCE_FIELD@),
    ensures
        enriched(message@, key, source).dom().finite(),
        enriched(message@, key, source).dom().len() == message@.dom().len() + 2,
        forall|name: Seq<char>|
            message@.contains_key(name) ==> #[trigger] enriched(message@, key, source).contains_key(
                name,
            ) && enriched(message@, key, source)[name] == message@[name],
{
    lemma_enrichment_names_differ();
    message.lemma_finite();
    let with_key = message@.insert(KEY_FIELD@, json_string(key));
    assert(with_key.dom() =~= message@.dom().insert(KEY_FIELD@));
    assert(enriched(message@, key, source).dom() =~= with_key.dom().insert(SOURCE_FIELD@));
}

} // verus!
