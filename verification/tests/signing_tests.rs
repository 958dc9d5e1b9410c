use aliyun_content_moderation::client::{
    canonical_query, image_envelope, request_url, sign_canonical, signed_query, string_to_sign,
    text_envelope, ModerationClient,
};
use aliyun_content_moderation::signature::{HmacSha256Signer, Signer};

const ID: &str = "ID";
const SECRET: &str = "shh";
const ACTION: &str = "TextModerationPlus";
const SCENE: &str = "test_scene";
const BODY: &str = "{\"content\":\"abc\"}";
const NONCE: &str = "fixed-nonce-0001";
const TIMESTAMP: &str = "2024-01-02T03:04:05+00:00";
const VERSION: &str = "2022-03-02";

fn golden_canonical() -> Vec<u8> {
    b"AccessKeyId=ID&Action=TextModerationPlus&Format=JSON&Service=test_scene\
&ServiceParameters=%7B%22content%22%3A%22abc%22%7D\
&SignatureMethod=Hmac-SHA1&SignatureNonce=fixed-nonce-0001&SignatureVersion=1.0\
&Timestamp=2024-01-02T03%3A04%3A05%2B00%3A00&Version=2022-03-02"
        .to_vec()
}

fn hmac_sha1_direct(key: &[u8], msg: &[u8]) -> Vec<u8> {
    let mut mac = <hmac::Hmac<sha1::Sha1> as hmac::KeyInit>::new_from_slice(key).unwrap();
    hmac::Mac::update(&mut mac, msg);
    hmac::Mac::finalize(mac).into_bytes().to_vec()
}

#[test]
fn canonical_query_matches_the_golden_vector() {
    let q = canonical_query(ID, ACTION, SCENE, BODY, NONCE, TIMESTAMP, VERSION);
    assert_eq!(q, golden_canonical());
}

#[test]
fn string_to_sign_matches_the_golden_vector() {
    let s = string_to_sign(&golden_canonical());
    let expected = b"POST&%2F&AccessKeyId%3DID%26Action%3DTextModerationPlus%26Format%3DJSON\
%26Service%3Dtest_scene%26ServiceParameters%3D%257B%2522content%2522%253A%2522abc%2522%257D\
%26SignatureMethod%3DHmac-SHA1%26SignatureNonce%3Dfixed-nonce-0001%26SignatureVersion%3D1.0\
%26Timestamp%3D2024-01-02T03%253A04%253A05%252B00%253A00%26Version%3D2022-03-02"
        .to_vec();
    assert_eq!(s, expected);
}

#[test]
fn signature_matches_the_golden_vector() {
    let sig = sign_canonical(SECRET, &golden_canonical());
    assert_eq!(sig, b"KEx9kvUoF%2Bn9rJVzmgueBdYR4rE%3D".to_vec());
}

#[test]
fn signed_query_matches_the_golden_vector() {
    let q = signed_query(ID, ACTION, SCENE, BODY, NONCE, TIMESTAMP, VERSION, SECRET);
    let mut expected = golden_canonical();
    expected.extend_from_slice(b"&Signature=KEx9kvUoF%2Bn9rJVzmgueBdYR4rE%3D");
    assert_eq!(q, expected);
}

#[test]
fn signature_agrees_with_a_direct_hmac_computation() {
    // Recompute the signature through the crates themselves, not the library.
    let sts = string_to_sign(&golden_canonical());
    let mut key = SECRET.as_bytes().to_vec();
    key.push(b'&');
    let digest = hmac_sha1_direct(&key, &sts);
    let rendered =
        base64::Engine::encode(&base64::engine::general_purpose::STANDARD, &digest).into_bytes();
    let expected = aliyun_content_moderation::percent_encode(&rendered);
    assert_eq!(sign_canonical(SECRET, &golden_canonical()), expected);
}

#[test]
fn signing_is_deterministic() {
    let a = signed_query(ID, ACTION, SCENE, BODY, NONCE, TIMESTAMP, VERSION, SECRET);
    let b = signed_query(ID, ACTION, SCENE, BODY, NONCE, TIMESTAMP, VERSION, SECRET);
    assert_eq!(a, b);
}

#[test]
fn changing_one_input_byte_changes_the_signature() {
    let base = sign_canonical(SECRET, &golden_canonical());

    // One byte of the secret.
    assert_ne!(sign_canonical("sha", &golden_canonical()), base);
    assert_eq!(
        sign_canonical("sha", &golden_canonical()),
        b"fgpy2KWGgen5y0KcNQR4MSdgKfI%3D".to_vec()
    );

    // One byte of the canonical string (the scene).
    let other = canonical_query(ID, ACTION, "test_scenf", BODY, NONCE, TIMESTAMP, VERSION);
    assert_ne!(sign_canonical(SECRET, &other), base);
    assert_eq!(
        sign_canonical(SECRET, &other),
        b"3LIA76kPscmJN2uMgLooCpW%2FqXs%3D".to_vec()
    );
}

#[test]
fn envelope_wraps_the_content() {
    assert_eq!(text_envelope("abc"), b"{ \"content\": \"abc\" }".to_vec());
    assert_eq!(text_envelope(""), b"{ \"content\": \"\" }".to_vec());
}

#[test]
fn envelope_escapes_quotes_backslashes_and_controls() {
    assert_eq!(
        text_envelope("a\"b"),
        b"{ \"content\": \"a\\\"b\" }".to_vec()
    );
    assert_eq!(
        text_envelope("a\\b"),
        b"{ \"content\": \"a\\\\b\" }".to_vec()
    );
    assert_eq!(
        text_envelope("a\nb"),
        b"{ \"content\": \"a\\u000Ab\" }".to_vec()
    );
    assert_eq!(
        text_envelope("\u{1}"),
        b"{ \"content\": \"\\u0001\" }".to_vec()
    );
}

#[test]
fn envelope_is_valid_json_that_recovers_the_content() {
    let samples = ["abc", "", "a\"b\\c", "line\nbreak\ttab", "电信诈骗", "\u{1}\u{1f}"];
    for s in samples {
        let envelope = String::from_utf8(text_envelope(s)).unwrap();
        let value: serde_json::Value = serde_json::from_str(&envelope).unwrap();
        assert_eq!(value["content"].as_str(), Some(s));
    }
}

#[test]
fn image_envelope_wraps_and_escapes_the_url() {
    assert_eq!(
        image_envelope("https://example.com/a.png"),
        b"{ \"imageUrl\": \"https://example.com/a.png\" }".to_vec()
    );
    let envelope = String::from_utf8(image_envelope("https://example.com/a\"b.png")).unwrap();
    let value: serde_json::Value = serde_json::from_str(&envelope).unwrap();
    assert_eq!(
        value["imageUrl"].as_str(),
        Some("https://example.com/a\"b.png")
    );
}

#[test]
fn url_is_endpoint_question_mark_query() {
    let url = request_url("https://example.com", b"a=b");
    assert_eq!(url, b"https://example.com?a=b".to_vec());
}

#[test]
fn client_keeps_its_credentials() {
    let c = ModerationClient::new("https://example.com", ID, SECRET, VERSION);
    assert_eq!(c.endpoint, "https://example.com");
    assert_eq!(c.access_key_id, ID);
    assert_eq!(c.access_key_secret, SECRET);
    assert_eq!(c.version, VERSION);
}

#[test]
fn built_query_carries_the_fixed_parameters_and_a_signature() {
    let c = ModerationClient::new("https://example.com", ID, SECRET, VERSION);
    let q = c.build_query_params(ACTION, SCENE, BODY);
    let s = String::from_utf8(q).unwrap();
    assert!(s.starts_with("AccessKeyId=ID&Action=TextModerationPlus&Format=JSON&Service=test_scene"));
    assert!(s.contains("&SignatureMethod=Hmac-SHA1&SignatureNonce="));
    assert!(s.contains("&Signature="));
}

#[test]
fn two_built_queries_differ_in_their_nonce() {
    let c = ModerationClient::new("https://example.com", ID, SECRET, VERSION);
    let a = c.build_query_params(ACTION, SCENE, BODY);
    let b = c.build_query_params(ACTION, SCENE, BODY);
    assert_ne!(a, b);
}

#[test]
fn hmac_sha256_signer_matches_a_golden_vector() {
    let signer = HmacSha256Signer::new(SECRET);
    let sig = signer
        .sign("POST", "/", "{ \"content\": \"abc\" }", TIMESTAMP, "nonce123")
        .unwrap();
    assert_eq!(sig, b"9JOEvJu1YwT6+WUAd0paWhc5Lt4M5zvYGzLZtnniyEM=".to_vec());
}

#[test]
fn signer_output_is_44_base64_bytes() {
    let signer = HmacSha256Signer::new(SECRET);
    let sig = signer.sign("POST", "/", "body", TIMESTAMP, "n").unwrap();
    assert_eq!(sig.len(), 44);
    assert!(sig
        .iter()
        .all(|b| b.is_ascii_alphanumeric() || *b == b'+' || *b == b'/' || *b == b'='));
}

#[test]
fn signer_concatenates_timestamp_nonce_and_body() {
    // The plain string joins timestamp, nonce and body with no separator, so
    // only their concatenation reaches the digest.
    let signer = HmacSha256Signer::new(SECRET);
    let a = signer.sign("POST", "/", "body", TIMESTAMP, "nonce").unwrap();
    let b = signer
        .sign("POST", "/", "noncebody", TIMESTAMP, "")
        .unwrap();
    let joined = format!("{TIMESTAMP}noncebody");
    let c = signer.sign("POST", "/", "", &joined, "").unwrap();
    assert_eq!(a, b);
    assert_eq!(a, c);
}

#[test]
fn hmac_sha256_signer_agrees_with_a_direct_computation() {
    let plain = b"POST\n/\n2024-01-02T03:04:05+00:00nonce123{ \"content\": \"abc\" }";
    let mut mac =
        <hmac::Hmac<sha2::Sha256> as hmac::KeyInit>::new_from_slice(SECRET.as_bytes()).unwrap();
    hmac::Mac::update(&mut mac, plain);
    let digest = hmac::Mac::finalize(mac).into_bytes().to_vec();
    let expected =
        base64::Engine::encode(&base64::engine::general_purpose::STANDARD, &digest).into_bytes();
    let signer = HmacSha256Signer::new(SECRET);
    let sig = signer
        .sign("POST", "/", "{ \"content\": \"abc\" }", TIMESTAMP, "nonce123")
        .unwrap();
    assert_eq!(sig, expected);
}
