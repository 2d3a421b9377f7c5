//! Venue API authentication.
//!
//! Requests are signed with RSA-PSS over SHA-256 of
//! `"{timestamp_ms}{METHOD}{path}"`, where the path is stripped of its
//! query string and always carries the API prefix; the signature travels
//! base64-encoded. Building the message is exact string work verified
//! here; the signature itself is randomized and comes from the RSA crate.

use vstd::prelude::*;

use crate::text::find_sep;
use crate::text::spec_sep_ix;
use crate::text::spec_u64_string;
use crate::text::str_eq;
use crate::text::u64_string;

verus! {

/// The RSA private key type of the signing crate, opaque here.
#[verifier::external_type_specification]
#[verifier::external_body]
pub struct ExRsaPrivateKey(rsa::RsaPrivateKey);

/// Standard base64 text of a byte string, a function of the bytes alone.
pub uninterp spec fn base64_of(bytes: Seq<u8>) -> Seq<char>;

/// Relies on base64's `Engine::encode` with the standard alphabet: the
/// encoding depends on the bytes alone, and no bytes encode to no text.
#[verifier::external_body]
fn base64_encode(bytes: &[u8]) -> (r: String)
    ensures
        r@ == base64_of(bytes@),
        bytes@.len() == 0 ==> r@.len() == 0,
{
    base64::Engine::encode(&base64::engine::general_purpose::STANDARD, bytes)
}

/// The signing crate's error type, opaque here.
#[verifier::external_type_specification]
#[verifier::external_body]
pub struct ExSignatureError(rsa::signature::Error);

/// A request could not be signed: the signing crate refused, typically
/// because the key's modulus is too small for the digest and its salt.
#[derive(Debug)]
pub struct SigningError {
    pub cause: rsa::signature::Error,
}

/// Relies on rsa's `RandomizedSigner::try_sign_with_rng` for PSS over
/// SHA-256: the signature is salted with fresh randomness, so nothing is
/// promised of its bytes, and signing fails (rather than panicking) when
/// the key is too small for the digest and salt.
#[verifier::external_body]
fn rsa_pss_sign_sha256(key: &rsa::RsaPrivateKey, message: &str) -> Result<
    Vec<u8>,
    rsa::signature::Error,
> {
    let signing_key = rsa::pss::SigningKey::<rsa::sha2::Sha256>::new(key.clone());
    let signature = rsa::signature::RandomizedSigner::try_sign_with_rng(
        &signing_key,
        &mut rand::thread_rng(),
        message.as_bytes(),
    )?;
    Ok(rsa::signature::SignatureEncoding::to_bytes(&signature).to_vec())
}

/// Relies on std::time::SystemTime: milliseconds of wall-clock time since
/// the epoch, a fresh reading on every call.
#[verifier::external_body]
pub fn timestamp_ms() -> u64 {
    std::time::SystemTime::now().duration_since(std::time::UNIX_EPOCH).map(
        |d| d.as_millis() as u64,
    ).unwrap_or(0)
}

/// A path without its query string.
pub open spec fn spec_strip_query(path: Seq<char>) -> Seq<char> {
    let i = spec_sep_ix(path, '?');
    if i < 0 {
        path
    } else {
        path.take(i)
    }
}

/// A path carrying the API prefix: kept when already present, prepended
/// otherwise.
pub open spec fn spec_full_path(path: Seq<char>) -> Seq<char> {
    let base = spec_strip_query(path);
    if base.len() >= 13 && base.take(13) == "/trade-api/v2"@ {
        base
    } else {
        "/trade-api/v2"@ + base
    }
}

/// The text that gets signed for a REST request.
pub open spec fn spec_signing_payload(timestamp_ms: int, method: Seq<char>, path: Seq<char>) -> Seq<
    char,
> {
    spec_u64_string(timestamp_ms) + method + spec_full_path(path)
}

/// Build the signing payload `"{timestamp_ms}{METHOD}{full_path}"`: the
/// query string is stripped and the API prefix enforced.
pub fn signing_payload(ts_ms: u64, method: &str, path: &str) -> (r: String)
    ensures
        r@ == spec_signing_payload(ts_ms as int, method@, path@),
{
    let path_len = path.unicode_len();
    let stripped = match find_sep(path, 0, '?') {
        Some(i) => path.substring_char(0, i),
        None => path,
    };
    proof {
        assert(path@.skip(0) =~= path@);
        if spec_sep_ix(path@, '?') >= 0 {
            assert(stripped@ =~= spec_strip_query(path@));
        } else {
            assert(stripped@ =~= spec_strip_query(path@));
        }
    }
    let slen = stripped.unicode_len();
    let has_prefix = if slen >= 13 {
        let head = stripped.substring_char(0, 13);
        proof {
            assert(head@ =~= stripped@.take(13));
        }
        str_eq(head, "/trade-api/v2")
    } else {
        false
    };
    let mut msg = u64_string(ts_ms);
    msg.append(method);
    if has_prefix {
        msg.append(stripped);
    } else {
        msg.append("/trade-api/v2");
        msg.append(stripped);
    }
    msg
}

/// Venue API credentials: the key id travels in a header, the private key
/// signs each request.
pub struct KalshiAuth {
    pub api_key_id: String,
    pub private_key: rsa::RsaPrivateKey,
}

impl KalshiAuth {
    /// Credentials from their parts (reading them from the environment and
    /// parsing the PEM file is the surrounding system's work).
    pub fn new(api_key_id: String, private_key: rsa::RsaPrivateKey) -> (r: Self)
        ensures
            r.api_key_id == api_key_id,
    {
        KalshiAuth { api_key_id, private_key }
    }

    /// Sign a message; the signature text is base64 of a salted RSA-PSS
    /// signature, different on every call. Fails when the key cannot carry
    /// the digest and salt.
    pub fn sign(&self, message: &str) -> Result<String, SigningError> {
        match rsa_pss_sign_sha256(&self.private_key, message) {
            Ok(signature) => Ok(base64_encode(signature.as_slice())),
            Err(cause) => Err(SigningError { cause }),
        }
    }

    /// Sign a REST request at a given clock reading; returns the signature
    /// and the timestamp header text.
    pub fn sign_request_at(&self, method: &str, path: &str, ts_ms: u64) -> (r: Result<
        (String, String),
        SigningError,
    >)
        ensures
            (r matches Ok(v) ==> v.1@ == spec_u64_string(ts_ms as int)),
    {
        let message = signing_payload(ts_ms, method, path);
        match self.sign(message.as_str()) {
            Ok(signature) => Ok((signature, u64_string(ts_ms))),
            Err(e) => Err(e),
        }
    }

    /// Sign a REST request at the current wall-clock time.
    pub fn sign_request(&self, method: &str, path: &str) -> Result<(String, String), SigningError> {
        let ts = timestamp_ms();
        self.sign_request_at(method, path, ts)
    }

    /// WebSocket authentication headers at a given clock reading: the key
    /// id, the signature over `"{timestamp_ms}GET/trade-api/ws/v2"`, and the
    /// timestamp text.
    pub fn ws_auth_headers_at(&self, ts_ms: u64) -> (r: Result<
        (String, String, String),
        SigningError,
    >)
        ensures
            (r matches Ok(v) ==> v.0 == self.api_key_id && v.2@ == spec_u64_string(ts_ms as int)),
    {
        let mut message = u64_string(ts_ms);
        message.append("GET/trade-api/ws/v2");
        match self.sign(message.as_str()) {
            Ok(signature) => Ok((self.api_key_id.clone(), signature, u64_string(ts_ms))),
            Err(e) => Err(e),
        }
    }

    /// WebSocket authentication headers at the current wall-clock time.
    pub fn ws_auth_headers(&self) -> (r: Result<(String, String, String), SigningError>)
        ensures
            (r matches Ok(v) ==> v.0 == self.api_key_id),
    {
        let ts = timestamp_ms();
        self.ws_auth_headers_at(ts)
    }
}

} // verus!
