//! Decoding the registry's authorization token into a username and password.
use vstd::prelude::*;
use vstd::string::StrSliceExecFns;
use vstd::utf8::{decode_utf8, valid_utf8};

use crate::encoding::{base64_decode, base64_decoding, utf8_text};
use crate::error::ErrorKind;

verus! {

/// A username and password pair for the registry.
#[derive(Debug)]
pub struct Credential {
    pub username: String,
    pub password: String,
}

impl View for Credential {
    type V = (Seq<char>, Seq<char>);

    open spec fn view(&self) -> (Seq<char>, Seq<char>) {
        (self.username@, self.password@)
    }
}

/// No `:` occurs in the text.
pub open spec fn colon_free(s: Seq<char>) -> bool {
    forall|j: int| 0 <= j < s.len() ==> s[j] != ':'
}

/// `i` is the position of the first `:` in the text.
pub open spec fn is_first_colon(s: Seq<char>, i: int) -> bool {
    0 <= i < s.len() && s[i] == ':' && colon_free(s.take(i))
}

/// The credential a decoded token text stands for: the text before the first
/// `:` is the username, all of the text after it the password.
pub open spec fn credential_of_text(s: Seq<char>) -> Result<(Seq<char>, Seq<char>), ErrorKind> {
    if colon_free(s) {
        Err(ErrorKind::MalformedTokenError)
    } else {
        let i = choose|i: int| is_first_colon(s, i);
        Ok((s.take(i), s.skip(i + 1)))
    }
}

/// The credential a registry token stands for: base64 of UTF-8 text, split
/// at its first `:`.
pub open spec fn credential_of_token(t: Seq<char>) -> Result<(Seq<char>, Seq<char>), ErrorKind> {
    match base64_decoding(t) {
        None => Err(ErrorKind::DecodeError),
        Some(b) => if valid_utf8(b) {
            credential_of_text(decode_utf8(b))
        } else {
            Err(ErrorKind::DecodeError)
        },
    }
}

pub open spec fn view_result(r: Result<Credential, ErrorKind>) -> Result<(Seq<char>, Seq<char>), ErrorKind> {
    match r {
        Ok(c) => Ok(c@),
        Err(e) => Err(e),
    }
}

/// Two first-colon positions of one text are the same position.
proof fn lemma_first_colon_unique(s: Seq<char>, i: int, k: int)
    requires
        is_first_colon(s, i),
        is_first_colon(s, k),
    ensures
        i == k,
{
    if i < k {
        assert(s.take(k)[i] == ':');
    } else if k < i {
        assert(s.take(i)[k] == ':');
    }
}

/// A text made of a colon-free username, `:`, and any password (which may
/// hold further `:`) splits back into exactly that username and password.
pub proof fn law_text_splits_at_first_colon(u: Seq<char>, p: Seq<char>)
    requires
        colon_free(u),
    ensures
        credential_of_text(u + seq![':'] + p) == Ok::<(Seq<char>, Seq<char>), ErrorKind>((u, p)),
{
    let s = u + seq![':'] + p;
    let i = u.len() as int;
    assert(s.take(i) =~= u);
    assert(s.skip(i + 1) =~= p);
    assert(is_first_colon(s, i));
    let k = choose|k: int| is_first_colon(s, k);
    lemma_first_colon_unique(s, i, k);
}

/// A token whose base64 decodes to the UTF-8 text `username:password`, with
/// no `:` in the username, decodes to that username and password; only the
/// first `:` splits.
pub proof fn law_token_splits_at_first_colon(t: Seq<char>, u: Seq<char>, p: Seq<char>)
    requires
        base64_decoding(t) is Some,
        valid_utf8(base64_decoding(t)->0),
        decode_utf8(base64_decoding(t)->0) == u + seq![':'] + p,
        colon_free(u),
    ensures
        credential_of_token(t) == Ok::<(Seq<char>, Seq<char>), ErrorKind>((u, p)),
{
    law_text_splits_at_first_colon(u, p);
}

/// A token that is not valid base64 is refused with `DecodeError`.
pub proof fn law_invalid_base64_is_decode_error(t: Seq<char>)
    requires
        base64_decoding(t) is None,
    ensures
        credential_of_token(t) == Err::<(Seq<char>, Seq<char>), ErrorKind>(ErrorKind::DecodeError),
{
}

/// A token whose decoded text holds no `:` is refused with
/// `MalformedTokenError`.
pub proof fn law_colon_free_text_is_malformed(t: Seq<char>)
    requires
        base64_decoding(t) is Some,
        valid_utf8(base64_decoding(t)->0),
        colon_free(decode_utf8(base64_decoding(t)->0)),
    ensures
        credential_of_token(t) == Err::<(Seq<char>, Seq<char>), ErrorKind>(ErrorKind::MalformedTokenError),
{
}

/// Splits a decoded token text at its first `:` into a credential.
pub fn split_credential(text: &str) -> (r: Result<Credential, ErrorKind>)
    ensures
        view_result(r) == credential_of_text(text@),
{
    let n = text.unicode_len();
    let mut i: usize = 0;
    while i < n && text.get_char(i) != ':'
        invariant
            n == text@.len(),
            i <= n,
            colon_free(text@.take(i as int)),
        decreases n - i,
    {
        assert(text@.take(i as int + 1) =~= text@.take(i as int).push(text@[i as int]));
        i = i + 1;
    }
    if i == n {
        assert(text@.take(i as int) =~= text@);
        return Err(ErrorKind::MalformedTokenError);
    }
    proof {
        let s = text@;
        assert(is_first_colon(s, i as int));
        assert(!colon_free(s));
        let k = choose|k: int| is_first_colon(s, k);
        lemma_first_colon_unique(s, i as int, k);
    }
    let username = text.substring_char(0, i).to_owned();
    let password = text.substring_char(i + 1, n).to_owned();
    assert(text@.subrange(0, i as int) =~= text@.take(i as int));
    assert(text@.subrange(i + 1, n as int) =~= text@.skip(i + 1));
    Ok(Credential { username, password })
}

/// Decodes a registry authorization token: base64 of UTF-8 text holding
/// `username:password`.
///
/// Invalid base64 or invalid UTF-8 gives `DecodeError`; a text without `:`
/// gives `MalformedTokenError`.
pub fn decode_token(token: &str) -> (r: Result<Credential, ErrorKind>)
    ensures
        view_result(r) == credential_of_token(token@),
{
    let bytes = match base64_decode(token) {
        Ok(b) => b,
        Err(_) => return Err(ErrorKind::DecodeError),
    };
    let text = match utf8_text(bytes) {
        Ok(s) => s,
        Err(_) => return Err(ErrorKind::DecodeError),
    };
    split_credential(text.as_str())
}

} // verus!
