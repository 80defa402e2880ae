//! The outside computations that signing and timestamps rest on: SHA-256,
//! HMAC-SHA256, standard base64, JSON string quoting and UTC date formatting.
use vstd::prelude::*;
use base64::Engine;
use hmac::Mac;

verus! {

#[verifier::external_type_specification]
#[verifier::external_body]
pub struct ExBase64DecodeError(base64::DecodeError);

#[verifier::external_type_specification]
#[verifier::external_body]
pub struct ExInvalidLength(hmac::digest::InvalidLength);

#[verifier::external_type_specification]
#[verifier::external_body]
pub struct ExJsonError(serde_json::Error);

/// The SHA-256 digest of `data`.
pub uninterp spec fn sha256_of(data: Seq<u8>) -> Seq<u8>;

/// The standard (padded) base64 text of `data`.
pub uninterp spec fn base64_of(data: Seq<u8>) -> Seq<char>;

/// The bytes that standard (padded, canonical) base64 text decodes to,
/// or `None` when it is not such text.
pub uninterp spec fn base64_decoded(text: Seq<u8>) -> Option<Seq<u8>>;

/// The HMAC-SHA256 tag of `msg` under `key`.
pub uninterp spec fn hmac_sha256_of(key: Seq<u8>, msg: Seq<u8>) -> Seq<u8>;

/// `s` written as a JSON string literal.
pub uninterp spec fn json_string_text(s: Seq<char>) -> Seq<char>;

/// The UTC time `secs` seconds after the Unix epoch written
/// `%Y-%m-%dT%H:%M:%SZ`, when that time can be represented.
pub uninterp spec fn utc_timestamp_text(secs: i64) -> Option<Seq<char>>;

/// The UTC date `secs` seconds after the Unix epoch written `%Y%m%d`,
/// when that time can be represented.
pub uninterp spec fn utc_date_text(secs: i64) -> Option<Seq<char>>;

/// `sha2::Sha256::digest`: its result is named `sha256_of` of the input.
#[verifier::external_body]
pub(crate) fn sha256(data: &[u8]) -> (r: Vec<u8>)
    ensures
        r@ == sha256_of(data@),
{
    <sha2::Sha256 as sha2::Digest>::digest(data).to_vec()
}

/// `base64::engine::general_purpose::STANDARD.encode`: its result is named
/// `base64_of` of the input.
#[verifier::external_body]
pub(crate) fn base64_encode(data: &[u8]) -> (r: String)
    ensures
        r@ == base64_of(data@),
{
    base64::engine::general_purpose::STANDARD.encode(data)
}

/// `base64::engine::general_purpose::STANDARD.decode`: it succeeds exactly
/// when `base64_decoded` of the input is some bytes, and gives those bytes.
#[verifier::external_body]
pub(crate) fn base64_decode(text: &[u8]) -> (r: Result<Vec<u8>, base64::DecodeError>)
    ensures
        match base64_decoded(text@) {
            Some(b) => r matches Ok(v) && v@ == b,
            None => r is Err,
        },
{
    base64::engine::general_purpose::STANDARD.decode(text)
}

/// `Hmac::<Sha256>::new_from_slice(key)`, then `update(msg)` and
/// `finalize().into_bytes()`: HMAC takes a key of any length (a long key is
/// hashed, a short one padded), so the call succeeds, and its result is
/// named `hmac_sha256_of` of key and message.
#[verifier::external_body]
pub(crate) fn hmac_sha256(key: &[u8], msg: &[u8]) -> (r: Result<
    Vec<u8>,
    hmac::digest::InvalidLength,
>)
    ensures
        r is Ok,
        r matches Ok(v) ==> v@ == hmac_sha256_of(key@, msg@),
{
    let mut mac = match hmac::Hmac::<sha2::Sha256>::new_from_slice(key) {
        Ok(m) => m,
        Err(e) => return Err(e),
    };
    mac.update(msg);
    Ok(mac.finalize().into_bytes().to_vec())
}

/// `serde_json::to_string` of a string: a string serializes without
/// error (the text is written into memory), so the call succeeds, and its
/// result is named `json_string_text` of the input.
#[verifier::external_body]
pub(crate) fn json_quote(s: &str) -> (r: Result<String, serde_json::Error>)
    ensures
        r is Ok,
        r matches Ok(v) ==> v@ == json_string_text(s@),
{
    serde_json::to_string(s)
}

/// `chrono::DateTime::from_timestamp(secs, 0)`, formatted
/// `%Y-%m-%dT%H:%M:%SZ`: the result is named `utc_timestamp_text` of `secs`.
#[verifier::external_body]
pub(crate) fn format_utc_timestamp(secs: i64) -> (r: Option<String>)
    ensures
        match utc_timestamp_text(secs) {
            Some(t) => r matches Some(s) && s@ == t,
            None => r is None,
        },
{
    match chrono::DateTime::from_timestamp(secs, 0) {
        Some(t) => Some(t.format("%Y-%m-%dT%H:%M:%SZ").to_string()),
        None => None,
    }
}

/// `chrono::DateTime::from_timestamp(secs, 0)`, formatted `%Y%m%d`: the
/// result is named `utc_date_text` of `secs`.
#[verifier::external_body]
pub(crate) fn format_utc_date(secs: i64) -> (r: Option<String>)
    ensures
        match utc_date_text(secs) {
            Some(t) => r matches Some(s) && s@ == t,
            None => r is None,
        },
{
    match chrono::DateTime::from_timestamp(secs, 0) {
        Some(t) => Some(t.format("%Y%m%d").to_string()),
        None => None,
    }
}

} // verus!
