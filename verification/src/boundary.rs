//! A synchronous request/response adapter over a foreign boundary.
//!
//! The caller hands in a byte sequence it owns; the adapter copies it,
//! validates it as UTF-8, decodes it with the external codec, runs the
//! domain function, and encodes the tagged outcome — success message or
//! error message — back to text. The returned text is a function of the
//! input bytes alone, and is always well-formed under the codec.

use crate::text::{bytes_into_string, push_decimal, utf8_fault_text};
use crate::text::decimal_digits;
use serde_json::Value;
use vstd::prelude::*;
use vstd::slice::slice_to_vec;
use vstd::utf8::{decode_utf8, encode_utf8, valid_utf8};

verus! {

/// What the external codec's parser says of a text: nothing when it
/// accepts it, and the rendered fault report when it rejects it. The
/// report depends on the text alone.
pub uninterp spec fn parse_report(text: Seq<char>) -> Option<Seq<char>>;

/// Whether the external codec's parser accepts a text.
pub open spec fn json_parses(text: Seq<char>) -> bool {
    parse_report(text) is None
}

/// The `plugh` member of the value the codec decodes from an accepted
/// text: the member's text when it is present and of the string kind,
/// nothing otherwise. A function of the request text alone.
pub uninterp spec fn plugh_member(text: Seq<char>) -> Option<Seq<char>>;

/// The external codec's encoding of a success-tagged envelope carrying
/// the given message. The encoding depends on the message alone.
pub uninterp spec fn ok_envelope(msg: Seq<char>) -> Seq<char>;

/// The external codec's encoding of an error-tagged envelope carrying the
/// given message. The encoding depends on the message alone.
pub uninterp spec fn err_envelope(msg: Seq<char>) -> Seq<char>;

/// The fixed payload substituted when the outcome envelope itself fails
/// to encode.
pub open spec fn fallback_text() -> Seq<char> {
    "{\"Err\":\"JSON encode error\"}"@
}

/// The domain's answer for a string member of the given byte length.
pub open spec fn success_message(len: nat) -> Seq<char> {
    "plugh has length "@ + decimal_digits(len)
}

/// What the domain function answers for a request text: the parse fault
/// when the codec rejects the text, the length report when the decoded
/// request holds a string under `plugh`, and the domain error otherwise.
pub open spec fn domain_result(text: Seq<char>) -> Result<Seq<char>, Seq<char>> {
    match parse_report(text) {
        Some(fault) => Err("JSON Parse error: "@ + fault),
        None => match plugh_member(text) {
            Some(member) => Ok(success_message(encode_utf8(member).len() as usize as nat)),
            None => Err("plugh not present or not valid"@),
        },
    }
}

/// The adapter's whole output text for present input bytes `b`: the
/// encoding-fault error envelope when the bytes are not valid UTF-8, and
/// the encoded domain outcome otherwise.
pub open spec fn response_text(b: Seq<u8>) -> Seq<char> {
    if valid_utf8(b) {
        match domain_result(decode_utf8(b)) {
            Ok(m) => ok_envelope(m),
            Err(m) => err_envelope(m),
        }
    } else {
        err_envelope("Encoding error: "@ + utf8_fault_text(b))
    }
}

/// Relies on `serde_json::from_str::<Value>`, `Value::get` and
/// `Value::as_str`: whether a text is accepted, the fault the parser
/// reports otherwise, and the `plugh` member of the decoded value all
/// depend on the text alone.
#[verifier::external_body]
fn decode_request(s: &str) -> (r: Result<Option<String>, String>)
    ensures
        (r is Ok) == json_parses(s@),
        r matches Err(m) ==> Some(m@) == parse_report(s@),
        r matches Ok(m) ==> m.deep_view() == plugh_member(s@),
{
    match serde_json::from_str::<Value>(s) {
        Ok(v) => Ok(match v.get("plugh") {
            Some(x) => x.as_str().map(str::to_string),
            None => None,
        }),
        Err(e) => Err(format!("{}", e)),
    }
}

/// Relies on `serde_json::to_string` on the tagged outcome, both arms of
/// which carry plain text: it cannot fail there (only a failing foreign
/// `Serialize` impl or a map with non-string keys can fail it), the
/// encoding depends on the tag and the message alone, and the text it
/// produces is JSON that `serde_json::from_str` accepts.
#[verifier::external_body]
fn encode_envelope(res: &Result<String, String>) -> (r: Option<String>)
    ensures
        r is Some,
        r matches Some(s) ==> json_parses(s@),
        r matches Some(s) ==> s@ == (match res {
            Ok(m) => ok_envelope(m@),
            Err(m) => err_envelope(m@),
        }),
{
    serde_json::to_string(res).ok()
}

/// The fixed error payload substituted when the outcome envelope itself
/// fails to encode.
pub fn fallback_envelope() -> (r: String)
    ensures
        r@ == fallback_text(),
{
    String::from_str("{\"Err\":\"JSON encode error\"}")
}

/// What the domain answers once the request's `plugh` member has been
/// read: the length report when the member is a string, the domain error
/// otherwise. Verified for every possible member, independent of the
/// codec.
pub fn plugh_response(member: Option<&str>) -> (r: Result<String, String>)
    ensures
        member matches Some(v) ==> (r matches Ok(m) && m@ == success_message(
            encode_utf8(v@).len() as usize as nat,
        )),
        member is None ==> (r matches Err(m) && m@ == "plugh not present or not valid"@),
{
    match member {
        Some(v) => {
            let mut msg = String::from_str("plugh has length ");
            push_decimal(&mut msg, v.len());
            Ok(msg)
        },
        None => Err(String::from_str("plugh not present or not valid")),
    }
}

/// The example domain function: decodes the request text with the
/// external codec and answers about its `plugh` member, exactly as
/// `domain_result` says.
pub fn myfunc(request: &str) -> (r: Result<String, String>)
    ensures
        r matches Ok(m) ==> domain_result(request@) == Ok::<Seq<char>, Seq<char>>(m@),
        r matches Err(m) ==> domain_result(request@) == Err::<Seq<char>, Seq<char>>(m@),
{
    match decode_request(request) {
        Err(fault) => {
            let mut msg = String::from_str("JSON Parse error: ");
            msg.append(fault.as_str());
            Err(msg)
        },
        Ok(member) => {
            let member_ref = match &member {
                Some(t) => Some(t.as_str()),
                None => None,
            };
            plugh_response(member_ref)
        },
    }
}

/// One request, one response. A missing input yields a missing output and
/// nothing is allocated: that is the one case with nothing to release.
/// Any present input yields a present output — `response_text` of the
/// input bytes and nothing else, so equal inputs are answered equally —
/// and that output is accepted by the external codec. Only if the outcome
/// envelope itself failed to encode would the fixed fallback payload
/// stand in.
pub fn handle_request(input: Option<&[u8]>) -> (r: Option<String>)
    ensures
        (r is Some) == (input is Some),
        input matches Some(b) ==> (r matches Some(s) && s@ == response_text(b@) && json_parses(
            s@,
        )),
{
    match input {
        None => None,
        Some(bytes) => {
            let copied: Vec<u8> = slice_to_vec(bytes);
            let res: Result<String, String> = match bytes_into_string(copied) {
                Ok(text) => myfunc(text.as_str()),
                Err(fault) => {
                    let mut msg = String::from_str("Encoding error: ");
                    msg.append(fault.as_str());
                    Err(msg)
                },
            };
            let out = match encode_envelope(&res) {
                Some(s) => s,
                None => fallback_envelope(),
            };
            Some(out)
        },
    }
}

} // verus!
