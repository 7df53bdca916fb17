//! Decoding of the service's reply envelope `{"ok": .., "result": .., "description": ..}`.
//!
//! The reply bytes are read as UTF-8, parsed as JSON, and three members are read from the
//! top-level object. On success the `result` member is handed back in its compact JSON text,
//! for the caller to parse into the shape that it expects.
use vstd::prelude::*;
use vstd::utf8::valid_utf8;
use vstd::utf8::decode_utf8;
use crate::error::{Error, ErrorKind, ErrorView};
use crate::text::opt_view;
use crate::json::{
    json_member_bool, json_member_json, json_member_str, json_parses, member_bool, member_json,
    member_str, parse_json,
};

verus! {

/// Relies on `std::str::from_utf8`: it accepts exactly the valid UTF-8 byte strings, and the
/// text holds the characters that they encode.
#[verifier::external_body]
fn utf8_text(bytes: &[u8]) -> (r: Option<&str>)
    ensures
        r is Some <==> valid_utf8(bytes@),
        r matches Some(s) ==> s@ == decode_utf8(bytes@),
{
    std::str::from_utf8(bytes).ok()
}

/// The three members of a reply envelope that decoding reads.
#[derive(Debug)]
pub struct Envelope {
    /// `ok`, when it is a boolean.
    pub ok: Option<bool>,
    /// `result`, as compact JSON text.
    pub result: Option<String>,
    /// `description`, when it is a string.
    pub description: Option<String>,
}

/// The model of a decoding result.
pub open spec fn outcome_view(r: Result<String, Error>) -> Result<Seq<char>, ErrorView> {
    match r {
        Ok(s) => Ok(s@),
        Err(e) => Err(e@),
    }
}

/// What an envelope decodes to: a missing `ok` is a malformed envelope; `ok` true with a
/// `result` is success; anything else is a failure reported by the service, with its
/// description when there is one.
pub open spec fn envelope_outcome(
    ok: Option<bool>,
    result: Option<Seq<char>>,
    description: Option<Seq<char>>,
) -> Result<Seq<char>, ErrorView> {
    if ok is None {
        Err((ErrorKind::Json, None))
    } else if ok == Some(true) && result is Some {
        Ok(result->0)
    } else {
        Err((ErrorKind::Telegram, description))
    }
}

/// What a reply text decodes to.
pub open spec fn text_outcome(t: Seq<char>) -> Result<Seq<char>, ErrorView> {
    if !json_parses(t) {
        Err((ErrorKind::JsonParse, None))
    } else {
        envelope_outcome(
            json_member_bool(t, "ok"@),
            json_member_json(t, "result"@),
            json_member_str(t, "description"@),
        )
    }
}

/// What reply bytes decode to.
pub open spec fn reply_outcome(raw: Seq<u8>) -> Result<Seq<char>, ErrorView> {
    if !valid_utf8(raw) {
        Err((ErrorKind::UTF8Decode, None))
    } else {
        text_outcome(decode_utf8(raw))
    }
}

/// Decides the outcome of an envelope whose members have been read.
pub fn decode_envelope(e: Envelope) -> (r: Result<String, Error>)
    ensures
        outcome_view(r) == envelope_outcome(e.ok, opt_view(e.result), opt_view(e.description)),
{
    match e.ok {
        None => Err(Error::of_kind(ErrorKind::Json)),
        Some(ok) => {
            if ok && e.result.is_some() {
                match e.result {
                    Some(s) => Ok(s),
                    None => Err(Error::of_kind(ErrorKind::Json)),
                }
            } else {
                match e.description {
                    Some(d) => Err(Error::remote(d)),
                    None => Err(Error::of_kind(ErrorKind::Telegram)),
                }
            }
        },
    }
}

/// Reads the envelope members of a reply text and decodes them.
pub fn decode_text(text: &str) -> (r: Result<String, Error>)
    ensures
        outcome_view(r) == text_outcome(text@),
{
    match parse_json(text) {
        None => Err(Error::of_kind(ErrorKind::JsonParse)),
        Some(doc) => {
            let e = Envelope {
                ok: member_bool(&doc, "ok"),
                result: member_json(&doc, "result"),
                description: member_str(&doc, "description"),
            };
            decode_envelope(e)
        },
    }
}

/// Decodes the raw bytes of a reply: the `result` member's JSON text on success, else the
/// error that the reply amounts to.
pub fn decode(raw: &[u8]) -> (r: Result<String, Error>)
    ensures
        outcome_view(r) == reply_outcome(raw@),
{
    match utf8_text(raw) {
        None => Err(Error::of_kind(ErrorKind::UTF8Decode)),
        Some(text) => decode_text(text),
    }
}

/// Decoding keeps no state: two decodings of the same bytes have the same outcome.
pub proof fn lemma_decode_repeatable(
    raw: Seq<u8>,
    first: Result<String, Error>,
    second: Result<String, Error>,
)
    requires
        outcome_view(first) == reply_outcome(raw),
        outcome_view(second) == reply_outcome(raw),
    ensures
        outcome_view(first) == outcome_view(second),
{
}

} // verus!
