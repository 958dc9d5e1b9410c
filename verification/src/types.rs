//! Plain value objects: caller-supplied configuration, request metadata, and
//! the response fields that carry no behaviour of their own.

use vstd::prelude::*;

verus! {

/// Configuration a caller supplies: the credential pair and the API version.
#[derive(Debug, Clone)]
pub struct AppConfig {
    pub access_key_id: String,
    pub access_key_secret: String,
    pub version: String,
}

/// Metadata common to requests.
#[derive(Debug, Clone)]
pub struct CommonRequestMeta<'a> {
    pub region: &'a str,
    pub biz_type: Option<&'a str>,
}

/// A sensitive-content finding in a moderation answer. Every field may be
/// absent: the service omits what it did not determine.
#[derive(Debug, Clone)]
pub struct SensitiveResult {
    pub label: Option<String>,
    pub sensitive_level: Option<String>,
    pub sensitive_data: Option<Vec<String>>,
    pub description: Option<String>,
}

/// The service's advice on a finding. Every field may be absent.
#[derive(Debug, Clone)]
pub struct Advice {
    pub answer: Option<String>,
    pub hit_label: Option<String>,
    pub hit_lib_name: Option<String>,
}

/// A hit against a caller-defined keyword library. Every field may be absent.
#[derive(Debug, Clone)]
pub struct CustomizedHit {
    pub lib_name: Option<String>,
    pub key_words: Option<String>,
}

} // verus!
