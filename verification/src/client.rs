//! The moderation client: canonical query construction, request signing,
//! envelope and URL building, and classification of the HTTP answer.
//!
//! The signing scheme is byte-exact: every contract here states the result
//! as a byte sequence, so a caller knows the query it sends to the wire.

use vstd::prelude::*;
use vstd::string::*;
use vstd::utf8::encode_utf8;

use crate::crypto::{base64_of, hmac_sha1_of};
use crate::encoding::{json_escape, json_escaped, percent_encode, percent_encoded, push_all};
use crate::error::ModerationError;

verus! {

/// The canonical query string: the request parameters in their fixed order —
/// not sorted, the order is part of the scheme — each value percent-encoded.
pub open spec fn canonical_query_spec(
    access_key_id: Seq<u8>,
    action: Seq<u8>,
    scene: Seq<u8>,
    parameters: Seq<u8>,
    nonce: Seq<u8>,
    timestamp: Seq<u8>,
    version: Seq<u8>,
) -> Seq<u8> {
    "AccessKeyId=".spec_bytes() + percent_encoded(access_key_id) + "&Action=".spec_bytes()
        + percent_encoded(action) + "&Format=JSON&Service=".spec_bytes() + percent_encoded(scene)
        + "&ServiceParameters=".spec_bytes() + percent_encoded(parameters)
        + "&SignatureMethod=Hmac-SHA1&SignatureNonce=".spec_bytes() + percent_encoded(nonce)
        + "&SignatureVersion=".spec_bytes() + percent_encoded("1.0".spec_bytes())
        + "&Timestamp=".spec_bytes() + percent_encoded(timestamp) + "&Version=".spec_bytes()
        + percent_encoded(version)
}

/// The string the digest is computed over: the method, a percent-encoded
/// literal `/` path — whatever the request path is — and the canonical query
/// string percent-encoded a second time, as the scheme demands.
pub open spec fn string_to_sign_spec(canonical: Seq<u8>) -> Seq<u8> {
    "POST&".spec_bytes() + percent_encoded("/".spec_bytes()) + "&".spec_bytes()
        + percent_encoded(canonical)
}

/// The signing key: the secret with `&` appended.
pub open spec fn signing_key_spec(secret: Seq<u8>) -> Seq<u8> {
    secret + "&".spec_bytes()
}

/// The signature value attached to the query: the HMAC-SHA1 digest of the
/// string-to-sign, base64-rendered, then percent-encoded.
pub open spec fn signature_value_spec(secret: Seq<u8>, canonical: Seq<u8>) -> Seq<u8> {
    percent_encoded(base64_of(hmac_sha1_of(signing_key_spec(secret), string_to_sign_spec(canonical))))
}

/// The full signed query: the canonical query string with a trailing
/// `Signature=` parameter.
pub open spec fn signed_query_spec(
    access_key_id: Seq<u8>,
    action: Seq<u8>,
    scene: Seq<u8>,
    parameters: Seq<u8>,
    nonce: Seq<u8>,
    timestamp: Seq<u8>,
    version: Seq<u8>,
    secret: Seq<u8>,
) -> Seq<u8> {
    canonical_query_spec(access_key_id, action, scene, parameters, nonce, timestamp, version)
        + "&Signature=".spec_bytes() + signature_value_spec(
        secret,
        canonical_query_spec(access_key_id, action, scene, parameters, nonce, timestamp, version),
    )
}

/// The minimal JSON envelope a text check sends: `{ "content": "..." }` with
/// the content serialized as a JSON string — quotes, backslashes and control
/// bytes escaped, so the content can never carry envelope structure of its own.
pub open spec fn text_envelope_spec(content: Seq<u8>) -> Seq<u8> {
    "{ \"content\": \"".spec_bytes() + json_escaped(content) + "\" }".spec_bytes()
}

/// The minimal JSON envelope an image check sends: `{ "imageUrl": "..." }`
/// with the URL serialized as a JSON string.
pub open spec fn image_envelope_spec(url: Seq<u8>) -> Seq<u8> {
    "{ \"imageUrl\": \"".spec_bytes() + json_escaped(url) + "\" }".spec_bytes()
}

/// The URL a request goes to: the endpoint, `?`, and the signed query.
pub open spec fn request_url_spec(endpoint: Seq<u8>, query: Seq<u8>) -> Seq<u8> {
    endpoint + "?".spec_bytes() + query
}

/// The decimal digits of a number, most significant first.
pub open spec fn decimal_digits(n: nat) -> Seq<u8>
    decreases n,
{
    if n < 10 {
        seq![(48 + n) as u8]
    } else {
        decimal_digits(n / 10).push((48 + n % 10) as u8)
    }
}

/// The message of the error a non-2xx reply turns into: the exact status
/// code and the body text.
pub open spec fn http_error_message_spec(status: u16, body: Seq<u8>) -> Seq<u8> {
    "status ".spec_bytes() + decimal_digits(status as nat) + " body ".spec_bytes() + body
}

/// Percent-encode the bytes of a string and append them.
fn push_encoded(dst: &mut Vec<u8>, value: &str)
    ensures
        final(dst)@ == old(dst)@ + percent_encoded(value.spec_bytes()),
{
    let e = percent_encode(value.as_bytes());
    push_all(dst, e.as_slice());
}

/// Build the canonical query string from the request parameters and a given
/// nonce and timestamp. The field order is fixed by the scheme.
pub fn canonical_query(
    access_key_id: &str,
    action: &str,
    scene: &str,
    parameters: &str,
    nonce: &str,
    timestamp: &str,
    version: &str,
) -> (r: Vec<u8>)
    ensures
        r@ == canonical_query_spec(
            access_key_id.spec_bytes(),
            action.spec_bytes(),
            scene.spec_bytes(),
            parameters.spec_bytes(),
            nonce.spec_bytes(),
            timestamp.spec_bytes(),
            version.spec_bytes(),
        ),
{
    let mut out: Vec<u8> = Vec::new();
    push_all(&mut out, "AccessKeyId=".as_bytes());
    push_encoded(&mut out, access_key_id);
    push_all(&mut out, "&Action=".as_bytes());
    push_encoded(&mut out, action);
    push_all(&mut out, "&Format=JSON&Service=".as_bytes());
    push_encoded(&mut out, scene);
    push_all(&mut out, "&ServiceParameters=".as_bytes());
    push_encoded(&mut out, parameters);
    push_all(&mut out, "&SignatureMethod=Hmac-SHA1&SignatureNonce=".as_bytes());
    push_encoded(&mut out, nonce);
    push_all(&mut out, "&SignatureVersion=".as_bytes());
    push_encoded(&mut out, "1.0");
    push_all(&mut out, "&Timestamp=".as_bytes());
    push_encoded(&mut out, timestamp);
    push_all(&mut out, "&Version=".as_bytes());
    push_encoded(&mut out, version);
    out
}

/// Build the string the digest is computed over from a canonical query
/// string: `POST`, the encoded `/` path, and the query encoded once more.
pub fn string_to_sign(canonical: &[u8]) -> (r: Vec<u8>)
    ensures
        r@ == string_to_sign_spec(canonical@),
{
    let mut out: Vec<u8> = Vec::new();
    push_all(&mut out, "POST&".as_bytes());
    push_encoded(&mut out, "/");
    push_all(&mut out, "&".as_bytes());
    let e = percent_encode(canonical);
    push_all(&mut out, e.as_slice());
    out
}

/// Sign a canonical query string with the secret: HMAC-SHA1 under the key
/// `secret + "&"`, base64-rendered, percent-encoded.
pub fn sign_canonical(secret: &str, canonical: &[u8]) -> (r: Vec<u8>)
    ensures
        r@ == signature_value_spec(secret.spec_bytes(), canonical@),
{
    let mut key: Vec<u8> = Vec::new();
    push_all(&mut key, secret.as_bytes());
    push_all(&mut key, "&".as_bytes());
    let plain = string_to_sign(canonical);
    let digest = crate::crypto::hmac_sha1(key.as_slice(), plain.as_slice());
    let rendered = crate::crypto::base64_encode(digest.as_slice());
    percent_encode(rendered.as_slice())
}

/// Build the full signed query for the given parameters, nonce and
/// timestamp: the canonical query string with `&Signature=<value>` appended.
/// For fixed inputs the result is one fixed byte sequence.
pub fn signed_query(
    access_key_id: &str,
    action: &str,
    scene: &str,
    parameters: &str,
    nonce: &str,
    timestamp: &str,
    version: &str,
    secret: &str,
) -> (r: Vec<u8>)
    ensures
        r@ == signed_query_spec(
            access_key_id.spec_bytes(),
            action.spec_bytes(),
            scene.spec_bytes(),
            parameters.spec_bytes(),
            nonce.spec_bytes(),
            timestamp.spec_bytes(),
            version.spec_bytes(),
            secret.spec_bytes(),
        ),
{
    let mut out = canonical_query(access_key_id, action, scene, parameters, nonce, timestamp, version);
    let signature = sign_canonical(secret, out.as_slice());
    push_all(&mut out, "&Signature=".as_bytes());
    push_all(&mut out, signature.as_slice());
    out
}

/// Wrap text to be checked in the JSON envelope the service expects, with
/// the content escaped as a JSON string.
pub fn text_envelope(content: &str) -> (r: Vec<u8>)
    ensures
        r@ == text_envelope_spec(content.spec_bytes()),
{
    let mut out: Vec<u8> = Vec::new();
    push_all(&mut out, "{ \"content\": \"".as_bytes());
    let escaped = json_escape(content.as_bytes());
    push_all(&mut out, escaped.as_slice());
    push_all(&mut out, "\" }".as_bytes());
    out
}

/// Wrap an image URL in the JSON envelope the service expects, with the URL
/// escaped as a JSON string.
pub fn image_envelope(url: &str) -> (r: Vec<u8>)
    ensures
        r@ == image_envelope_spec(url.spec_bytes()),
{
    let mut out: Vec<u8> = Vec::new();
    push_all(&mut out, "{ \"imageUrl\": \"".as_bytes());
    let escaped = json_escape(url.as_bytes());
    push_all(&mut out, escaped.as_slice());
    push_all(&mut out, "\" }".as_bytes());
    out
}

/// Build the URL a signed request goes to.
pub fn request_url(endpoint: &str, query: &[u8]) -> (r: Vec<u8>)
    ensures
        r@ == request_url_spec(endpoint.spec_bytes(), query@),
{
    let mut out: Vec<u8> = Vec::new();
    push_all(&mut out, endpoint.as_bytes());
    push_all(&mut out, "?".as_bytes());
    push_all(&mut out, query);
    out
}

/// The decimal rendering of a status code.
fn decimal_bytes(n: u16) -> (r: Vec<u8>)
    ensures
        r@ == decimal_digits(n as nat),
    decreases n,
{
    if n < 10 {
        let mut r: Vec<u8> = Vec::new();
        r.push(48 + (n as u8));
        proof {
            assert(r@ =~= decimal_digits(n as nat));
        }
        r
    } else {
        let mut r = decimal_bytes(n / 10);
        r.push(48 + ((n % 10) as u8));
        proof {
            assert(r@ =~= decimal_digits(n as nat));
        }
        r
    }
}

/// Classify an HTTP answer: a 2xx status succeeds, any other status is an
/// `Http` error whose message holds the exact status code and body text.
pub fn check_status(status: u16, body: &str) -> (r: Result<(), ModerationError>)
    ensures
        r is Ok <==> (200 <= status && status < 300),
        r matches Err(e) ==> (e matches ModerationError::Http(m) && m@ == http_error_message_spec(
            status,
            body.spec_bytes(),
        )),
{
    if 200 <= status && status < 300 {
        Ok(())
    } else {
        let mut m: Vec<u8> = Vec::new();
        push_all(&mut m, "status ".as_bytes());
        let digits = decimal_bytes(status);
        push_all(&mut m, digits.as_slice());
        push_all(&mut m, " body ".as_bytes());
        push_all(&mut m, body.as_bytes());
        Err(ModerationError::Http(m))
    }
}

/// The client: the endpoint and credentials, immutable once built. Every
/// call draws its own nonce and timestamp, so one client serves many calls.
pub struct ModerationClient {
    pub endpoint: String,
    pub access_key_id: String,
    pub access_key_secret: String,
    pub version: String,
}

impl ModerationClient {
    /// Build a client for an endpoint with a credential pair and API version.
    pub fn new(endpoint: &str, access_key_id: &str, access_key_secret: &str, version: &str) -> (c:
        Self)
        ensures
            c.endpoint@ == endpoint@,
            c.access_key_id@ == access_key_id@,
            c.access_key_secret@ == access_key_secret@,
            c.version@ == version@,
    {
        ModerationClient {
            endpoint: endpoint.to_owned(),
            access_key_id: access_key_id.to_owned(),
            access_key_secret: access_key_secret.to_owned(),
            version: version.to_owned(),
        }
    }

    /// Build the signed query for one call, under a nonce and timestamp drawn
    /// for this call alone. Whatever the clock and the random source gave,
    /// the result is the signed query for the client's credentials, the given
    /// parameters, and that one nonce and timestamp.
    pub fn build_query_params(&self, action: &str, scene: &str, parameters: &str) -> (r: Vec<u8>)
        ensures
            exists|nonce: Seq<u8>, timestamp: Seq<u8>|
                r@ == signed_query_spec(
                    encode_utf8(self.access_key_id@),
                    action.spec_bytes(),
                    scene.spec_bytes(),
                    parameters.spec_bytes(),
                    nonce,
                    timestamp,
                    encode_utf8(self.version@),
                    encode_utf8(self.access_key_secret@),
                ),
    {
        let timestamp = crate::crypto::now_rfc3339();
        let nonce = crate::crypto::fresh_nonce();
        let nonce_s = nonce.as_str();
        let timestamp_s = timestamp.as_str();
        let r = signed_query(
            self.access_key_id.as_str(),
            action,
            scene,
            parameters,
            nonce_s,
            timestamp_s,
            self.version.as_str(),
            self.access_key_secret.as_str(),
        );
        proof {
            assert(r@ == signed_query_spec(
                encode_utf8(self.access_key_id@),
                action.spec_bytes(),
                scene.spec_bytes(),
                parameters.spec_bytes(),
                nonce_s.spec_bytes(),
                timestamp_s.spec_bytes(),
                encode_utf8(self.version@),
                encode_utf8(self.access_key_secret@),
            ));
        }
        r
    }
}

} // verus!
