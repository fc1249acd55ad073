//! Trusted wrappers around the base64 crate. The two transport encodings the
//! gateway uses are named as uninterpreted functions of the input bytes; each
//! decoder is specified as the inverse of its encoder, and succeeds exactly
//! on canonical encodings, which the crate's engines enforce (no padding and
//! no stray trailing bits for the URL-safe engine, canonical `=` padding for
//! the standard engine).
use vstd::prelude::*;

use base64::Engine;

verus! {

/// The URL-safe, unpadded base64 encoding of a byte sequence.
pub uninterp spec fn b64url_nopad_of(b: Seq<u8>) -> Seq<char>;

/// The standard, padded base64 encoding of a byte sequence.
pub uninterp spec fn b64_standard_of(b: Seq<u8>) -> Seq<char>;

/// Relies on base64's `URL_SAFE_NO_PAD` engine: the encoding is a function
/// of the bytes alone, the encoding of no bytes is empty, and no `=` occurs
/// in the result (the URL-safe alphabet has none and no padding is added).
#[verifier::external_body]
pub(crate) fn b64url_encode(b: &[u8]) -> (r: String)
    ensures
        r@ == b64url_nopad_of(b@),
        b@.len() == 0 ==> r@.len() == 0,
        forall|i: int| 0 <= i < r@.len() ==> r@[i] != '=',
{
    base64::engine::general_purpose::URL_SAFE_NO_PAD.encode(b)
}

/// Relies on base64's `URL_SAFE_NO_PAD` engine: decoding inverts encoding,
/// and fails on every string that is not a canonical unpadded URL-safe
/// encoding (the engine rejects padding and non-zero trailing bits).
#[verifier::external_body]
pub(crate) fn b64url_decode(s: &str) -> (r: Option<Vec<u8>>)
    ensures
        r is Some ==> s@ == b64url_nopad_of(r->0@),
        forall|b: Seq<u8>| s@ == b64url_nopad_of(b) ==> r is Some && r->0@ == b,
{
    base64::engine::general_purpose::URL_SAFE_NO_PAD.decode(s).ok()
}

/// Relies on base64's `STANDARD` engine: the encoding is a function of the
/// bytes alone, and the encoding of no bytes is empty.
#[verifier::external_body]
pub(crate) fn b64_standard_encode(b: &[u8]) -> (r: String)
    ensures
        r@ == b64_standard_of(b@),
        b@.len() == 0 ==> r@.len() == 0,
{
    base64::engine::general_purpose::STANDARD.encode(b)
}

/// Relies on base64's `STANDARD` engine: decoding inverts encoding, and
/// fails on every string that is not a canonical padded standard encoding
/// (the engine requires canonical padding and zero trailing bits).
#[verifier::external_body]
pub(crate) fn b64_standard_decode(s: &str) -> (r: Option<Vec<u8>>)
    ensures
        r is Some ==> s@ == b64_standard_of(r->0@),
        forall|b: Seq<u8>| s@ == b64_standard_of(b) ==> r is Some && r->0@ == b,
{
    base64::engine::general_purpose::STANDARD.decode(s).ok()
}

} // verus!
