use vstd::prelude::*;
use aes_gcm::{aead::Aead, Aes256Gcm, KeyInit, Nonce};
use rand::RngCore;
use sha2::Digest;
use subtle::ConstantTimeEq;
use zeroize::Zeroize;
use crate::text::{decimal, push_decimal, push_str};

verus! {

pub const NONCE_LEN: usize = 12;
pub const DEK_LEN: usize = 32;
pub const SALT_LEN: usize = 16;
pub const KEY_LEN: usize = 32;

/// Maximum allowed memory_cost for Argon2id (256 MiB): a corrupted database
/// cannot request gigabytes of RAM.
pub const MAX_MEMORY_COST: u32 = 262144;
/// Maximum allowed time_cost (iterations).
pub const MAX_TIME_COST: u32 = 16;
/// Maximum allowed parallelism.
pub const MAX_PARALLELISM: u32 = 16;

/// Longest plaintext that AES-256-GCM seals (2^36 bytes).
pub const AES_GCM_MAX_PLAINTEXT: u64 = 68719476736;

/// AES-256-GCM ciphertext of `plaintext` under `key` and `nonce`, tag appended.
pub uninterp spec fn aes256gcm_seal(key: Seq<u8>, nonce: Seq<u8>, plaintext: Seq<u8>) -> Seq<u8>;

/// AES-256-GCM decryption of `ciphertext` under `key` and `nonce`: `None` when
/// the authentication tag does not verify.
pub uninterp spec fn aes256gcm_open(key: Seq<u8>, nonce: Seq<u8>, ciphertext: Seq<u8>) -> Option<
    Seq<u8>,
>;

/// The 32-byte Argon2id (version 0x13) hash of `password` with `salt` and the
/// given memory, time and parallelism costs.
pub uninterp spec fn argon2id_hash(
    password: Seq<u8>,
    salt: Seq<u8>,
    memory_cost: u32,
    time_cost: u32,
    parallelism: u32,
) -> Seq<u8>;

/// The SHA-256 digest of `data`.
pub uninterp spec fn sha256_digest(data: Seq<u8>) -> Seq<u8>;

/// `len` bytes from the thread-local CSPRNG of `rand` (`rand::thread_rng` and
/// `RngCore::fill_bytes`). Only the length is promised: the bytes are random.
#[verifier::external_body]
fn random_bytes(len: usize) -> (r: Vec<u8>)
    ensures
        r@.len() == len,
{
    let mut buf = vec![0u8; len];
    rand::thread_rng().fill_bytes(&mut buf);
    buf
}

/// `sha2::Sha256::digest`: the SHA-256 digest of `data`, 32 bytes long.
#[verifier::external_body]
pub(crate) fn sha256(data: &[u8]) -> (r: Vec<u8>)
    ensures
        r@ == sha256_digest(data@),
        r@.len() == 32,
{
    sha2::Sha256::digest(data).to_vec()
}

/// `subtle`'s constant-time slice comparison (`ConstantTimeEq::ct_eq` turned
/// into a `bool`): true exactly when both slices have the same length and bytes.
#[verifier::external_body]
fn ct_eq(a: &[u8], b: &[u8]) -> (r: bool)
    ensures
        r == (a@ == b@),
{
    a.ct_eq(b).into()
}

/// Argon2id (version 0x13) key derivation into 32 bytes: `argon2::Params::new`
/// with output length 32, `Argon2::new`, then `Argon2::hash_password_into`.
/// The parameters are accepted when `memory_cost >= 8`, `memory_cost >= 8 *
/// parallelism`, `time_cost >= 1` and `1 <= parallelism <= 0xFFFFFF`; the
/// inputs when the password has at most 2^32 - 1 bytes and the salt between 8
/// and 2^32 - 1 bytes. The error text is that of `argon2::Error`, which is not
/// stated. `Params::new` multiplies the parallelism by 8 in 32 bits, so the
/// parallelism must be within argon2's own maximum, 2^24 - 1.
#[verifier::external_body]
fn argon2id_derive(password: &[u8], salt: &[u8], memory_cost: u32, time_cost: u32, parallelism: u32)
    -> (r: Result<[u8; 32], String>)
    requires
        parallelism <= 0xFFFFFF,
    ensures
        r is Ok <==> (memory_cost >= 8 && memory_cost >= 8 * parallelism && time_cost >= 1 && 1
            <= parallelism <= 0xFFFFFF && password@.len() <= 0xFFFF_FFFF && 8 <= salt@.len()
            <= 0xFFFF_FFFF),
        r matches Ok(k) ==> k@ == argon2id_hash(
            password@,
            salt@,
            memory_cost,
            time_cost,
            parallelism,
        ),
{
    let params = match argon2::Params::new(memory_cost, time_cost, parallelism, Some(32)) {
        Ok(p) => p,
        Err(e) => return Err(e.to_string()),
    };
    let hasher = argon2::Argon2::new(argon2::Algorithm::Argon2id, argon2::Version::V0x13, params);
    let mut key = [0u8; 32];
    match hasher.hash_password_into(password, salt, &mut key) {
        Ok(()) => Ok(key),
        Err(e) => Err(e.to_string()),
    }
}

/// AES-256-GCM encryption with an empty associated data (`Aes256Gcm::new_from_slice`,
/// then `Aead::encrypt`). Fails when the key is not 32 bytes or the plaintext is
/// longer than 2^36 bytes. The ciphertext is the plaintext's length plus a
/// 16-byte tag, and decrypting it with the same key and nonce gives the
/// plaintext back.
#[verifier::external_body]
fn aes256gcm_encrypt(key: &[u8], nonce: &[u8], plaintext: &[u8]) -> (r: Result<Vec<u8>, ()>)
    requires
        nonce@.len() == 12,
    ensures
        r is Ok <==> (key@.len() == 32 && plaintext@.len() <= AES_GCM_MAX_PLAINTEXT),
        r matches Ok(c) ==> c@ == aes256gcm_seal(key@, nonce@, plaintext@),
        r matches Ok(c) ==> c@.len() == plaintext@.len() + 16,
        r matches Ok(c) ==> aes256gcm_open(key@, nonce@, c@) == Some(plaintext@),
{
    let cipher = match Aes256Gcm::new_from_slice(key) {
        Ok(c) => c,
        Err(_) => return Err(()),
    };
    cipher.encrypt(Nonce::from_slice(nonce), plaintext).map_err(|_| ())
}

/// AES-256-GCM decryption with an empty associated data (`Aes256Gcm::new_from_slice`,
/// then `Aead::decrypt`). Fails when the key is not 32 bytes or the tag does
/// not verify.
#[verifier::external_body]
fn aes256gcm_decrypt(key: &[u8], nonce: &[u8], ciphertext: &[u8]) -> (r: Result<Vec<u8>, ()>)
    requires
        nonce@.len() == 12,
    ensures
        key@.len() != 32 ==> r is Err,
        key@.len() == 32 ==> match aes256gcm_open(key@, nonce@, ciphertext@) {
            Some(p) => r matches Ok(q) && q@ == p,
            None => r is Err,
        },
{
    let cipher = match Aes256Gcm::new_from_slice(key) {
        Ok(c) => c,
        Err(_) => return Err(()),
    };
    cipher.decrypt(Nonce::from_slice(nonce), ciphertext).map_err(|_| ())
}

/// `Zeroize::zeroize` on a byte array: every byte becomes 0.
#[verifier::external_body]
fn zeroize_array(a: &mut [u8; 32])
    ensures
        forall|i: int| 0 <= i < 32 ==> final(a)@[i] == 0,
{
    a.zeroize();
}

/// `Zeroize::zeroize` on a byte vector: the bytes are overwritten with 0 and
/// the vector is left empty.
#[verifier::external_body]
fn zeroize_vec(v: &mut Vec<u8>)
    ensures
        final(v)@.len() == 0,
{
    v.zeroize();
}

/// Why a vault cryptographic operation failed.
#[derive(Debug)]
pub enum CryptoError {
    EncryptionFailed,
    DecryptionFailed,
    KeyDerivationFailed(String),
    PassphraseVerificationFailed,
    InvalidKeyLength { expected: usize, actual: usize },
    KdfParamsOutOfRange,
}

/// The message of a vault cryptographic error.
pub open spec fn crypto_error_text(e: CryptoError) -> Seq<char> {
    match e {
        CryptoError::EncryptionFailed => "encryption failed"@,
        CryptoError::DecryptionFailed => "decryption failed — authentication tag mismatch"@,
        CryptoError::KeyDerivationFailed(m) => "key derivation failed: "@ + m@,
        CryptoError::PassphraseVerificationFailed => "invalid passphrase"@,
        CryptoError::InvalidKeyLength { .. } => "invalid key length"@,
        CryptoError::KdfParamsOutOfRange => "KDF parameters out of allowed range"@,
    }
}

impl CryptoError {
    /// The error's message.
    pub fn message(&self) -> (r: String)
        ensures
            r@ == crypto_error_text(*self),
    {
        match self {
            CryptoError::EncryptionFailed => crate::text::to_string("encryption failed"),
            CryptoError::DecryptionFailed => crate::text::to_string(
                "decryption failed — authentication tag mismatch",
            ),
            CryptoError::KeyDerivationFailed(m) => {
                let mut r = crate::text::to_string("key derivation failed: ");
                push_str(&mut r, m.as_str());
                r
            },
            CryptoError::PassphraseVerificationFailed => crate::text::to_string(
                "invalid passphrase",
            ),
            CryptoError::InvalidKeyLength { .. } => crate::text::to_string("invalid key length"),
            CryptoError::KdfParamsOutOfRange => crate::text::to_string(
                "KDF parameters out of allowed range",
            ),
        }
    }
}

/// Argon2id parameters for master key derivation.
#[derive(Debug, Clone, Copy)]
pub struct Argon2Params {
    /// In KiB (65536 = 64 MB).
    pub memory_cost: u32,
    /// Iterations.
    pub time_cost: u32,
    /// Threads.
    pub parallelism: u32,
}

/// Parameters within the safe bounds: each cost nonzero and at most its
/// maximum, and at least 8 KiB of memory per lane.
pub open spec fn params_in_range(p: Argon2Params) -> bool {
    &&& 0 < p.memory_cost <= MAX_MEMORY_COST
    &&& 0 < p.time_cost <= MAX_TIME_COST
    &&& 0 < p.parallelism <= MAX_PARALLELISM
    &&& p.memory_cost >= 8 * p.parallelism
}

/// The JSON text in which parameters are stored.
pub open spec fn params_json(p: Argon2Params) -> Seq<char> {
    "{\"memory_cost\":"@ + decimal(p.memory_cost as nat) + ",\"time_cost\":"@ + decimal(
        p.time_cost as nat,
    ) + ",\"parallelism\":"@ + decimal(p.parallelism as nat) + "}"@
}

impl Default for Argon2Params {
    fn default() -> (r: Self)
        ensures
            r.memory_cost == 65536 && r.time_cost == 3 && r.parallelism == 4,
    {
        Argon2Params { memory_cost: 65536, time_cost: 3, parallelism: 4 }
    }
}

impl Argon2Params {
    pub fn to_json(&self) -> (r: String)
        ensures
            r@ == params_json(*self),
    {
        let mut s = String::new();
        push_str(&mut s, "{\"memory_cost\":");
        push_decimal(&mut s, self.memory_cost as u64);
        push_str(&mut s, ",\"time_cost\":");
        push_decimal(&mut s, self.time_cost as u64);
        push_str(&mut s, ",\"parallelism\":");
        push_decimal(&mut s, self.parallelism as u64);
        push_str(&mut s, "}");
        s
    }

    /// Validate parameters are within safe bounds before allocating memory.
    pub fn validate(&self) -> (r: Result<(), CryptoError>)
        ensures
            r is Ok <==> params_in_range(*self),
            r matches Err(e) ==> e is KdfParamsOutOfRange,
    {
        if self.memory_cost == 0 || self.memory_cost > MAX_MEMORY_COST {
            return Err(CryptoError::KdfParamsOutOfRange);
        }
        if self.time_cost == 0 || self.time_cost > MAX_TIME_COST {
            return Err(CryptoError::KdfParamsOutOfRange);
        }
        if self.parallelism == 0 || self.parallelism > MAX_PARALLELISM {
            return Err(CryptoError::KdfParamsOutOfRange);
        }
        if self.memory_cost < 8 * self.parallelism {
            return Err(CryptoError::KdfParamsOutOfRange);
        }
        Ok(())
    }

    /// Test-only parameters: 1 MiB, 1 iteration, 1 thread. Fast but not for production.
    pub fn test_fast() -> (r: Self)
        ensures
            r.memory_cost == 1024 && r.time_cost == 1 && r.parallelism == 1,
    {
        Argon2Params { memory_cost: 1024, time_cost: 1, parallelism: 1 }
    }
}

/// A ciphertext with the nonce it was sealed under.
#[derive(Debug, Clone)]
pub struct EncryptedPayload {
    pub ciphertext: Vec<u8>,
    pub nonce: Vec<u8>,
}

/// A derived master key with what it was derived from. Whoever holds it
/// clears it with `wipe` once it is no longer needed.
#[derive(Debug)]
pub struct MasterKeyMaterial {
    pub key: [u8; 32],
    pub salt: Vec<u8>,
    pub params: Argon2Params,
    pub key_hash: Vec<u8>,
}

impl MasterKeyMaterial {
    /// Overwrites the key, salt and key hash with zeros.
    pub fn wipe(&mut self)
        ensures
            forall|i: int| 0 <= i < 32 ==> final(self).key@[i] == 0,
            final(self).salt@.len() == 0,
            final(self).key_hash@.len() == 0,
            final(self).params == old(self).params,
    {
        zeroize_array(&mut self.key);
        zeroize_vec(&mut self.salt);
        zeroize_vec(&mut self.key_hash);
    }
}

/// The vault's cryptographic primitives.
pub struct VaultCrypto;

/// The master key derived from `passphrase` and `salt` under in-range parameters.
pub open spec fn derived_key(passphrase: Seq<u8>, salt: Seq<u8>, p: Argon2Params) -> Seq<u8> {
    argon2id_hash(passphrase, salt, p.memory_cost, p.time_cost, p.parallelism)
}

/// Whether Argon2id accepts the password and salt lengths.
pub open spec fn kdf_inputs_accepted(passphrase: Seq<u8>, salt: Seq<u8>) -> bool {
    passphrase.len() <= 0xFFFF_FFFF && 8 <= salt.len() <= 0xFFFF_FFFF
}

impl VaultCrypto {
    /// Generate a random salt for Argon2id.
    pub fn generate_salt() -> (r: Vec<u8>)
        ensures
            r@.len() == SALT_LEN,
    {
        random_bytes(SALT_LEN)
    }

    /// Generate a random data encryption key.
    pub fn generate_dek() -> (r: Vec<u8>)
        ensures
            r@.len() == DEK_LEN,
    {
        random_bytes(DEK_LEN)
    }

    /// Generate a random nonce for AES-256-GCM.
    pub fn generate_nonce() -> (r: Vec<u8>)
        ensures
            r@.len() == NONCE_LEN,
    {
        random_bytes(NONCE_LEN)
    }

    /// Derive the master key from a passphrase using Argon2id; the parameters
    /// are validated before anything is allocated.
    pub fn derive_master_key(passphrase: &[u8], salt: &[u8], params: &Argon2Params) -> (r: Result<
        MasterKeyMaterial,
        CryptoError,
    >)
        ensures
            !params_in_range(*params) ==> (r matches Err(e) && e is KdfParamsOutOfRange),
            params_in_range(*params) ==> (r is Ok <==> kdf_inputs_accepted(passphrase@, salt@)),
            params_in_range(*params) && !kdf_inputs_accepted(passphrase@, salt@) ==> (r matches Err(e) && e is KeyDerivationFailed),
            r matches Ok(m) ==> {
                &&& m.key@ == derived_key(passphrase@, salt@, *params)
                &&& m.key_hash@ == sha256_digest(m.key@)
                &&& m.salt@ == salt@
                &&& m.params == *params
            },
    {
        params.validate()?;
        let key = match argon2id_derive(
            passphrase,
            salt,
            params.memory_cost,
            params.time_cost,
            params.parallelism,
        ) {
            Ok(k) => k,
            Err(msg) => return Err(CryptoError::KeyDerivationFailed(msg)),
        };
        let key_hash = Self::hash_key(&key);
        Ok(MasterKeyMaterial { key, salt: vstd::slice::slice_to_vec(salt), params: *params, key_hash })
    }

    /// Verify a passphrase against the stored key hash with a constant-time
    /// comparison; returns the derived master key on success. The derived
    /// material is wiped before returning.
    pub fn verify_passphrase(
        passphrase: &[u8],
        salt: &[u8],
        params: &Argon2Params,
        expected_hash: &[u8],
    ) -> (r: Result<[u8; 32], CryptoError>)
        ensures
            !params_in_range(*params) ==> (r matches Err(e) && e is KdfParamsOutOfRange),
            params_in_range(*params) && !kdf_inputs_accepted(passphrase@, salt@) ==> (r matches Err(e) && e is KeyDerivationFailed),
            params_in_range(*params) && kdf_inputs_accepted(passphrase@, salt@) ==> {
                let k = derived_key(passphrase@, salt@, *params);
                if sha256_digest(k) == expected_hash@ {
                    r matches Ok(key) && key@ == k
                } else {
                    r matches Err(e) && e is PassphraseVerificationFailed
                }
            },
    {
        let mut material = Self::derive_master_key(passphrase, salt, params)?;
        let matches = ct_eq(material.key_hash.as_slice(), expected_hash);
        let key = material.key;
        material.wipe();
        if matches {
            Ok(key)
        } else {
            Err(CryptoError::PassphraseVerificationFailed)
        }
    }

    /// SHA-256 of the key: a fast check that the right key was derived (the
    /// security comes from the AES-GCM tags on encrypted data).
    fn hash_key(key: &[u8; 32]) -> (r: Vec<u8>)
        ensures
            r@ == sha256_digest(key@),
            r@.len() == 32,
    {
        sha256(key.as_slice())
    }

    /// Encrypt a data encryption key under the master key, with a fresh nonce.
    pub fn encrypt_dek(master_key: &[u8; 32], dek: &[u8]) -> (r: Result<
        EncryptedPayload,
        CryptoError,
    >)
        ensures
            r is Ok <==> dek@.len() <= AES_GCM_MAX_PLAINTEXT,
            r matches Err(e) ==> e is EncryptionFailed,
            r matches Ok(p) ==> p.nonce@.len() == NONCE_LEN && p.ciphertext@ == aes256gcm_seal(
                master_key@,
                p.nonce@,
                dek@,
            ) && aes256gcm_open(master_key@, p.nonce@, p.ciphertext@) == Some(dek@),
    {
        Self::seal(master_key.as_slice(), dek)
    }

    /// Decrypt a data encryption key with the master key; fails on a wrong key,
    /// tampered data or a nonce that is not 12 bytes.
    pub fn decrypt_dek(master_key: &[u8; 32], encrypted_dek: &[u8], nonce: &[u8]) -> (r: Result<
        Vec<u8>,
        CryptoError,
    >)
        ensures
            nonce@.len() != NONCE_LEN ==> (r matches Err(e) && e is DecryptionFailed),
            nonce@.len() == NONCE_LEN ==> match aes256gcm_open(master_key@, nonce@, encrypted_dek@) {
                Some(p) => r matches Ok(q) && q@ == p,
                None => r matches Err(e) && e is DecryptionFailed,
            },
    {
        Self::open(master_key.as_slice(), encrypted_dek, nonce)
    }

    /// Encrypt a value with a data encryption key, with a fresh nonce.
    pub fn encrypt_value(dek: &[u8], plaintext: &[u8]) -> (r: Result<EncryptedPayload, CryptoError>)
        ensures
            r is Ok <==> dek@.len() == 32 && plaintext@.len() <= AES_GCM_MAX_PLAINTEXT,
            r matches Err(e) ==> e is EncryptionFailed,
            r matches Ok(p) ==> p.nonce@.len() == NONCE_LEN && p.ciphertext@ == aes256gcm_seal(
                dek@,
                p.nonce@,
                plaintext@,
            ) && aes256gcm_open(dek@, p.nonce@, p.ciphertext@) == Some(plaintext@),
            r matches Ok(p) ==> p.ciphertext@.len() == plaintext@.len() + 16,
    {
        Self::seal(dek, plaintext)
    }

    /// Decrypt a value with a data encryption key; fails on a wrong key,
    /// tampered data or a nonce that is not 12 bytes.
    pub fn decrypt_value(dek: &[u8], ciphertext: &[u8], nonce: &[u8]) -> (r: Result<
        Vec<u8>,
        CryptoError,
    >)
        ensures
            (dek@.len() != 32 || nonce@.len() != NONCE_LEN) ==> (r matches Err(e)
                && e is DecryptionFailed),
            dek@.len() == 32 && nonce@.len() == NONCE_LEN ==> match aes256gcm_open(
                dek@,
                nonce@,
                ciphertext@,
            ) {
                Some(p) => r matches Ok(q) && q@ == p,
                None => r matches Err(e) && e is DecryptionFailed,
            },
    {
        Self::open(dek, ciphertext, nonce)
    }

    fn seal(key: &[u8], plaintext: &[u8]) -> (r: Result<EncryptedPayload, CryptoError>)
        ensures
            r is Ok <==> key@.len() == 32 && plaintext@.len() <= AES_GCM_MAX_PLAINTEXT,
            r matches Err(e) ==> e is EncryptionFailed,
            r matches Ok(p) ==> p.nonce@.len() == NONCE_LEN && p.ciphertext@ == aes256gcm_seal(
                key@,
                p.nonce@,
                plaintext@,
            ) && aes256gcm_open(key@, p.nonce@, p.ciphertext@) == Some(plaintext@),
            r matches Ok(p) ==> p.ciphertext@.len() == plaintext@.len() + 16,
    {
        let nonce = Self::generate_nonce();
        match aes256gcm_encrypt(key, nonce.as_slice(), plaintext) {
            Ok(ciphertext) => Ok(EncryptedPayload { ciphertext, nonce }),
            Err(()) => Err(CryptoError::EncryptionFailed),
        }
    }

    fn open(key: &[u8], ciphertext: &[u8], nonce: &[u8]) -> (r: Result<Vec<u8>, CryptoError>)
        ensures
            (key@.len() != 32 || nonce@.len() != NONCE_LEN) ==> (r matches Err(e)
                && e is DecryptionFailed),
            key@.len() == 32 && nonce@.len() == NONCE_LEN ==> match aes256gcm_open(
                key@,
                nonce@,
                ciphertext@,
            ) {
                Some(p) => r matches Ok(q) && q@ == p,
                None => r matches Err(e) && e is DecryptionFailed,
            },
    {
        if nonce.len() != NONCE_LEN {
            return Err(CryptoError::DecryptionFailed);
        }
        match aes256gcm_decrypt(key, nonce, ciphertext) {
            Ok(p) => Ok(p),
            Err(()) => Err(CryptoError::DecryptionFailed),
        }
    }
}

} // verus!
