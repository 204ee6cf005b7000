pub mod providers;

use vstd::prelude::*;
use vstd::utf8::{decode_utf8, encode_utf8, encode_utf8_decode_utf8, encode_utf8_valid_utf8, valid_utf8};
use crate::text::utf8_string;
use crate::vault::crypto::{AES_GCM_MAX_PLAINTEXT, CryptoError};
use crate::vault::repository::{
    SealedCredential, credential_plaintext, nonces_well_formed, open_credential, seal_credential,
};

verus! {

/// The provider settings of the application.
#[derive(Debug, Clone)]
pub struct ProviderSettings {
    pub base_url: String,
    pub llm_model: String,
    pub llm_max_tokens: i64,
    pub embedding_model: String,
    pub embedding_dimensions: i64,
    pub embedding_endpoint: Option<String>,
}

/// A request to save the provider settings.
#[derive(Debug, Clone)]
pub struct SaveProviderRequest {
    pub base_url: String,
    pub api_key: Option<String>,
    pub llm_model: String,
    pub llm_max_tokens: Option<i64>,
    pub embedding_model: String,
    pub embedding_dimensions: Option<i64>,
    pub embedding_endpoint: Option<String>,
}

/// The token limit and embedding dimension a save request stores: 8192 and
/// 1024 unless it gives its own.
pub fn saved_limits(req: &SaveProviderRequest) -> (r: (i64, i64))
    ensures
        r.0 == match req.llm_max_tokens {
            Some(t) => t,
            None => 8192,
        },
        r.1 == match req.embedding_dimensions {
            Some(d) => d,
            None => 1024,
        },
{
    let tokens = match req.llm_max_tokens {
        Some(t) => t,
        None => 8192,
    };
    let dims = match req.embedding_dimensions {
        Some(d) => d,
        None => 1024,
    };
    (tokens, dims)
}

/// Whether an API key is given and not empty.
pub open spec fn key_given(api_key: Option<String>) -> bool {
    api_key matches Some(k) && k@.len() > 0
}

/// Whether all four parts of a sealed credential are empty.
pub open spec fn envelope_empty(c: SealedCredential) -> bool {
    c.encrypted_dek@.len() == 0 && c.dek_nonce@.len() == 0 && c.ciphertext@.len() == 0
        && c.ciphertext_nonce@.len() == 0
}

/// The stored form of an API key: sealed under the master key when a
/// non-empty key is given, four empty parts otherwise.
pub fn api_key_envelope(master_key: &[u8; 32], api_key: &Option<String>) -> (r: Result<
    SealedCredential,
    CryptoError,
>)
    ensures
        !key_given(*api_key) ==> (r matches Ok(c) && envelope_empty(c)),
        key_given(*api_key) ==> (r is Ok <==> encode_utf8(api_key->0@).len()
            <= AES_GCM_MAX_PLAINTEXT),
        key_given(*api_key) ==> (r matches Ok(c) ==> nonces_well_formed(c) && c.ciphertext@.len()
            > 0 && credential_plaintext(master_key@, c) == Some(encode_utf8(api_key->0@))),
        r matches Err(e) ==> e is EncryptionFailed,
{
    match api_key {
        Some(k) => {
            if k.as_str().is_empty() {
                return Ok(
                    SealedCredential {
                        encrypted_dek: Vec::new(),
                        dek_nonce: Vec::new(),
                        ciphertext: Vec::new(),
                        ciphertext_nonce: Vec::new(),
                    },
                );
            }
            seal_credential(master_key, k.as_str().as_bytes())
        },
        None => Ok(
            SealedCredential {
                encrypted_dek: Vec::new(),
                dek_nonce: Vec::new(),
                ciphertext: Vec::new(),
                ciphertext_nonce: Vec::new(),
            },
        ),
    }
}

/// Why a stored API key could not be read.
#[derive(Debug)]
pub enum ApiKeyError {
    Crypto(CryptoError),
    NotUtf8,
}

/// The stored API key: none when nothing was stored, else the sealed value
/// opened under the master key and read as UTF-8.
pub fn open_api_key(master_key: &[u8; 32], c: &SealedCredential) -> (r: Result<
    Option<String>,
    ApiKeyError,
>)
    ensures
        c.ciphertext@.len() == 0 ==> (r matches Ok(k) && k is None),
        c.ciphertext@.len() > 0 ==> match credential_plaintext(master_key@, *c) {
            None => r matches Err(e) && e matches ApiKeyError::Crypto(x) && x is DecryptionFailed,
            Some(p) => if valid_utf8(p) {
                r matches Ok(Some(s)) && s@ == decode_utf8(p)
            } else {
                r matches Err(e) && e is NotUtf8
            },
        },
{
    if c.ciphertext.len() == 0 {
        return Ok(None);
    }
    match open_credential(master_key, c) {
        Ok(p) => match utf8_string(p) {
            Some(s) => Ok(Some(s)),
            None => Err(ApiKeyError::NotUtf8),
        },
        Err(e) => Err(ApiKeyError::Crypto(e)),
    }
}

/// An API key read back from what was stored for it is the key itself.
pub proof fn lemma_api_key_round_trip(key: Seq<char>)
    ensures
        valid_utf8(encode_utf8(key)),
        decode_utf8(encode_utf8(key)) == key,
{
    encode_utf8_valid_utf8(key);
    encode_utf8_decode_utf8(key);
}

} // verus!
