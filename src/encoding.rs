//! The calls into base64, serde_json and std's UTF-8 check that the rest of
//! the library relies on, each with the contract it is trusted to meet.
use vstd::prelude::*;
use vstd::utf8::{decode_utf8, valid_utf8};

verus! {

/// The standard (padded) base64 text of a byte sequence.
pub uninterp spec fn base64_encoding(b: Seq<u8>) -> Seq<char>;

/// The bytes that a text decodes to under standard base64, if it is valid.
pub uninterp spec fn base64_decoding(s: Seq<char>) -> Option<Seq<u8>>;

/// The JSON string literal (quoted and escaped) for a text.
pub uninterp spec fn json_string_literal(s: Seq<char>) -> Seq<char>;

#[verifier::external_type_specification]
#[verifier::external_body]
pub struct ExDecodeError(base64::DecodeError);

#[verifier::external_type_specification]
#[verifier::external_body]
pub struct ExFromUtf8Error(std::string::FromUtf8Error);

/// Relies on base64's `STANDARD.encode`: its text is a function of the bytes,
/// and `STANDARD.decode` gives the bytes back.
#[verifier::external_body]
pub(crate) fn base64_encode(b: &[u8]) -> (r: String)
    ensures
        r@ == base64_encoding(b@),
        base64_decoding(r@) == Some(b@),
{
    base64::Engine::encode(&base64::engine::general_purpose::STANDARD, b)
}

/// Relies on base64's `STANDARD.decode`: `Ok` exactly when the text is valid
/// standard base64, with the bytes it encodes.
#[verifier::external_body]
pub(crate) fn base64_decode(s: &str) -> (r: Result<Vec<u8>, base64::DecodeError>)
    ensures
        match r {
            Ok(v) => base64_decoding(s@) == Some(v@),
            Err(_) => base64_decoding(s@) is None,
        },
{
    base64::Engine::decode(&base64::engine::general_purpose::STANDARD, s)
}

/// Relies on std's `String::from_utf8`: `Ok` exactly when the bytes are valid
/// UTF-8, with the text they encode.
#[verifier::external_body]
pub(crate) fn utf8_text(v: Vec<u8>) -> (r: Result<String, std::string::FromUtf8Error>)
    ensures
        match r {
            Ok(s) => valid_utf8(v@) && s@ == decode_utf8(v@),
            Err(_) => !valid_utf8(v@),
        },
{
    String::from_utf8(v)
}

/// Relies on serde_json's `Value::String` and its compact `Display`: the JSON
/// string literal for a text, a function of the text.
#[verifier::external_body]
pub(crate) fn json_quote(s: &str) -> (r: String)
    ensures
        r@ == json_string_literal(s@),
{
    serde_json::Value::String(s.to_string()).to_string()
}

} // verus!
