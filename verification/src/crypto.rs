//! Bridges to the digest, encoding and identifier crates that the signing
//! scheme leans on. Each function here is trusted: its contract names what
//! the outside call returns, and the verified code builds on that alone.

use vstd::prelude::*;

verus! {

/// The HMAC-SHA1 digest of a message under a key.
pub uninterp spec fn hmac_sha1_of(key: Seq<u8>, msg: Seq<u8>) -> Seq<u8>;

/// The HMAC-SHA256 digest of a message under a key.
pub uninterp spec fn hmac_sha256_of(key: Seq<u8>, msg: Seq<u8>) -> Seq<u8>;

/// The standard-alphabet, padded base64 rendering of a byte sequence.
pub uninterp spec fn base64_of(b: Seq<u8>) -> Seq<u8>;

/// Relies on `hmac::Hmac<sha1::Sha1>` (`KeyInit::new_from_slice`,
/// `Mac::update`, `Mac::finalize`): the HMAC-SHA1 digest of `msg` keyed with
/// `key`. It depends on the two arguments alone and is 20 bytes long; a key
/// of any length is accepted, so the construction cannot fail.
#[verifier::external_body]
pub(crate) fn hmac_sha1(key: &[u8], msg: &[u8]) -> (r: Vec<u8>)
    ensures
        r@ == hmac_sha1_of(key@, msg@),
        r@.len() == 20,
{
    let mut mac = <hmac::Hmac<sha1::Sha1> as hmac::KeyInit>::new_from_slice(key)
        .expect("HMAC accepts keys of any length");
    hmac::Mac::update(&mut mac, msg);
    hmac::Mac::finalize(mac).into_bytes().to_vec()
}

/// Relies on `hmac::Hmac<sha2::Sha256>` (`KeyInit::new_from_slice`,
/// `Mac::update`, `Mac::finalize`): the HMAC-SHA256 digest of `msg` keyed
/// with `key`. It depends on the two arguments alone and is 32 bytes long; a
/// key of any length is accepted, so the construction cannot fail.
#[verifier::external_body]
pub(crate) fn hmac_sha256(key: &[u8], msg: &[u8]) -> (r: Vec<u8>)
    ensures
        r@ == hmac_sha256_of(key@, msg@),
        r@.len() == 32,
{
    let mut mac = <hmac::Hmac<sha2::Sha256> as hmac::KeyInit>::new_from_slice(key)
        .expect("HMAC accepts keys of any length");
    hmac::Mac::update(&mut mac, msg);
    hmac::Mac::finalize(mac).into_bytes().to_vec()
}

/// Relies on `base64::engine::general_purpose::STANDARD`
/// (`Engine::encode`): the standard-alphabet, padded base64 rendering of
/// `b`, as its ASCII bytes. It depends on `b` alone, and pads to four output
/// bytes for every started group of three input bytes.
#[verifier::external_body]
pub(crate) fn base64_encode(b: &[u8]) -> (r: Vec<u8>)
    ensures
        r@ == base64_of(b@),
        r@.len() == 4 * ((b@.len() + 2) / 3),
{
    base64::Engine::encode(&base64::engine::general_purpose::STANDARD, b).into_bytes()
}

/// Relies on `chrono::Utc::now` and `DateTime::to_rfc3339`: the current UTC
/// time rendered as an RFC 3339 timestamp. The result depends on the clock,
/// so nothing is claimed of it.
#[verifier::external_body]
pub(crate) fn now_rfc3339() -> String {
    chrono::Utc::now().to_rfc3339()
}

/// Relies on `uuid::Uuid::new_v4` and its hyphenated rendering: a freshly
/// drawn random UUID, unique per request for all practical purposes. The
/// result depends on the random source, so nothing is claimed of it.
#[verifier::external_body]
pub(crate) fn fresh_nonce() -> String {
    uuid::Uuid::new_v4().to_string()
}

} // verus!
