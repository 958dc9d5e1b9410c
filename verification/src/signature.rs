//! A signing abstraction kept for callers who plug in their own scheme, with
//! one ready implementation over HMAC-SHA256.

use vstd::prelude::*;
use vstd::string::*;
use vstd::utf8::encode_utf8;

use crate::crypto::{base64_of, hmac_sha256_of};
use crate::encoding::push_all;
use crate::error::ModerationError;

verus! {

/// The plain string a [`Signer`] digest is computed over: the method, the
/// path, the timestamp, the nonce and the body, the first three separated
/// by line breaks.
pub open spec fn signing_plain_spec(
    method: Seq<u8>,
    path: Seq<u8>,
    body: Seq<u8>,
    timestamp: Seq<u8>,
    nonce: Seq<u8>,
) -> Seq<u8> {
    method + "\n".spec_bytes() + path + "\n".spec_bytes() + timestamp + nonce + body
}

/// A signing scheme: from the request elements to the signature string that
/// a header or URL carries.
pub trait Signer: Send + Sync {
    /// Sign the given request elements.
    fn sign(&self, method: &str, path: &str, body: &str, timestamp: &str, nonce: &str) -> Result<
        Vec<u8>,
        ModerationError,
    >;
}

/// A signer that digests the plain string with HMAC-SHA256 under the bare
/// secret and renders the digest in base64.
pub struct HmacSha256Signer {
    secret: String,
}

impl HmacSha256Signer {
    /// The secret the signer was built with.
    pub closed spec fn secret_spec(&self) -> Seq<char> {
        self.secret@
    }

    /// Build a signer from a secret.
    pub fn new(secret: &str) -> (s: Self)
        ensures
            s.secret_spec() == secret@,
    {
        HmacSha256Signer { secret: secret.to_owned() }
    }

    /// The signature: the base64 rendering of the HMAC-SHA256 digest of the
    /// plain string under the secret.
    pub fn signature_bytes(&self, method: &str, path: &str, body: &str, timestamp: &str, nonce: &str)
        -> (r: Vec<u8>)
        ensures
            r@ == base64_of(
                hmac_sha256_of(
                    encode_utf8(self.secret_spec()),
                    signing_plain_spec(
                        method.spec_bytes(),
                        path.spec_bytes(),
                        body.spec_bytes(),
                        timestamp.spec_bytes(),
                        nonce.spec_bytes(),
                    ),
                ),
            ),
            r@.len() == 44,
    {
        let mut plain: Vec<u8> = Vec::new();
        push_all(&mut plain, method.as_bytes());
        push_all(&mut plain, "\n".as_bytes());
        push_all(&mut plain, path.as_bytes());
        push_all(&mut plain, "\n".as_bytes());
        push_all(&mut plain, timestamp.as_bytes());
        push_all(&mut plain, nonce.as_bytes());
        push_all(&mut plain, body.as_bytes());
        let digest = crate::crypto::hmac_sha256(self.secret.as_str().as_bytes(), plain.as_slice());
        crate::crypto::base64_encode(digest.as_slice())
    }
}

impl Signer for HmacSha256Signer {
    /// Signing never fails here — HMAC accepts a key of any length — and the
    /// signature is the base64 rendering of the HMAC-SHA256 digest of the
    /// plain string under the secret, 44 bytes long.
    fn sign(&self, method: &str, path: &str, body: &str, timestamp: &str, nonce: &str) -> (r:
        Result<Vec<u8>, ModerationError>)
        ensures
            r is Ok,
            r matches Ok(v) ==> v@ == base64_of(
                hmac_sha256_of(
                    encode_utf8(self.secret_spec()),
                    signing_plain_spec(
                        method.spec_bytes(),
                        path.spec_bytes(),
                        body.spec_bytes(),
                        timestamp.spec_bytes(),
                        nonce.spec_bytes(),
                    ),
                ),
            ) && v@.len() == 44,
    {
        Ok(self.signature_bytes(method, path, body, timestamp, nonce))
    }
}

} // verus!
