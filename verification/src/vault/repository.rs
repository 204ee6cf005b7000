use vstd::prelude::*;
use crate::text::{push_str, to_string};
use crate::vault::crypto::{
    crypto_error_text,
    AES_GCM_MAX_PLAINTEXT, Argon2Params, CryptoError, DEK_LEN, EncryptedPayload,
    MasterKeyMaterial, NONCE_LEN, SALT_LEN, VaultCrypto, aes256gcm_open, derived_key,
    kdf_inputs_accepted, params_in_range, sha256_digest,
};

verus! {

/// What is stored of a credential, without its value.
#[derive(Debug, Clone)]
pub struct CredentialMetadata {
    pub id: i64,
    pub name: String,
    pub scope: String,
    pub project_id: Option<i64>,
    pub key_version: i64,
    pub tags_json: String,
    pub created_at: String,
    pub updated_at: String,
}

/// A stored master key: its salt, KDF parameters and key hash.
#[derive(Debug, Clone)]
pub struct MasterKeyRecord {
    pub id: i64,
    pub algorithm: String,
    pub salt: Vec<u8>,
    pub params: Argon2Params,
    pub key_hash: Vec<u8>,
    pub created_at: String,
    pub retired_at: Option<String>,
}

/// A credential under envelope encryption: its data key wrapped by the
/// master key, and its value encrypted with the data key.
#[derive(Debug, Clone)]
pub struct SealedCredential {
    pub encrypted_dek: Vec<u8>,
    pub dek_nonce: Vec<u8>,
    pub ciphertext: Vec<u8>,
    pub ciphertext_nonce: Vec<u8>,
}

/// A wrapped data key of a stored credential.
#[derive(Debug, Clone)]
pub struct WrappedDek {
    pub credential_id: i64,
    pub encrypted_dek: Vec<u8>,
    pub dek_nonce: Vec<u8>,
}

/// Why a vault operation failed.
#[derive(Debug)]
pub enum VaultError {
    /// The vault already holds a master key.
    AlreadyInitialized,
    /// The passphrase does not match the stored key hash.
    InvalidPassphrase,
    /// The stored KDF parameters are out of range.
    CorruptedKdfParams,
    /// Key derivation failed for another reason.
    KeyDerivation(CryptoError),
    /// Encryption or decryption failed.
    Crypto(CryptoError),
}

/// The message of a vault error.
pub open spec fn vault_error_text(e: VaultError) -> Seq<char> {
    match e {
        VaultError::AlreadyInitialized => "vault already initialized — use unlock() instead"@,
        VaultError::InvalidPassphrase => "invalid passphrase"@,
        VaultError::CorruptedKdfParams => "corrupted KDF parameters in database"@,
        VaultError::KeyDerivation(c) => "key derivation failed: "@ + crypto_error_text(c),
        VaultError::Crypto(c) => crypto_error_text(c),
    }
}

impl VaultError {
    /// The error's message.
    pub fn message(&self) -> (r: String)
        ensures
            r@ == vault_error_text(*self),
    {
        match self {
            VaultError::AlreadyInitialized => to_string("vault already initialized — use unlock() instead"),
            VaultError::InvalidPassphrase => to_string("invalid passphrase"),
            VaultError::CorruptedKdfParams => to_string("corrupted KDF parameters in database"),
            VaultError::KeyDerivation(c) => {
                let mut r = to_string("key derivation failed: ");
                push_str(&mut r, c.message().as_str());
                r
            },
            VaultError::Crypto(c) => c.message(),
        }
    }
}

/// AES-GCM opening as the vault does it: a nonce that is not 12 bytes
/// opens nothing.
pub open spec fn unwrapped(key: Seq<u8>, nonce: Seq<u8>, data: Seq<u8>) -> Option<Seq<u8>> {
    if nonce.len() == NONCE_LEN {
        aes256gcm_open(key, nonce, data)
    } else {
        None
    }
}

/// The value a sealed credential opens to under a master key: the data key
/// is unwrapped, then the value decrypted with it.
pub open spec fn credential_plaintext(master_key: Seq<u8>, c: SealedCredential) -> Option<Seq<u8>> {
    match unwrapped(master_key, c.dek_nonce@, c.encrypted_dek@) {
        Some(dek) => if dek.len() == 32 {
            unwrapped(dek, c.ciphertext_nonce@, c.ciphertext@)
        } else {
            None
        },
        None => None,
    }
}

/// Whether a sealed credential has nonces of the right length.
pub open spec fn nonces_well_formed(c: SealedCredential) -> bool {
    c.dek_nonce@.len() == NONCE_LEN && c.ciphertext_nonce@.len() == NONCE_LEN
}

/// Seal a value under a master key with a fresh data key and fresh nonces.
pub fn seal_credential(master_key: &[u8; 32], plaintext: &[u8]) -> (r: Result<
    SealedCredential,
    CryptoError,
>)
    ensures
        r is Ok <==> plaintext@.len() <= AES_GCM_MAX_PLAINTEXT,
        r matches Err(e) ==> e is EncryptionFailed,
        r matches Ok(c) ==> nonces_well_formed(c) && credential_plaintext(master_key@, c) == Some(
            plaintext@,
        ),
        r matches Ok(c) ==> c.ciphertext@.len() == plaintext@.len() + 16,
{
    let dek = VaultCrypto::generate_dek();
    let enc_dek = VaultCrypto::encrypt_dek(master_key, dek.as_slice())?;
    let enc_value = VaultCrypto::encrypt_value(dek.as_slice(), plaintext)?;
    Ok(
        SealedCredential {
            encrypted_dek: enc_dek.ciphertext,
            dek_nonce: enc_dek.nonce,
            ciphertext: enc_value.ciphertext,
            ciphertext_nonce: enc_value.nonce,
        },
    )
}

/// Open a sealed credential with the master key: fails when the key is wrong
/// or anything was tampered with.
pub fn open_credential(master_key: &[u8; 32], c: &SealedCredential) -> (r: Result<
    Vec<u8>,
    CryptoError,
>)
    ensures
        match credential_plaintext(master_key@, *c) {
            Some(p) => r matches Ok(q) && q@ == p,
            None => r matches Err(e) && e is DecryptionFailed,
        },
{
    let dek = VaultCrypto::decrypt_dek(master_key, c.encrypted_dek.as_slice(), c.dek_nonce.as_slice())?;
    VaultCrypto::decrypt_value(dek.as_slice(), c.ciphertext.as_slice(), c.ciphertext_nonce.as_slice())
}

/// Wrap a credential's data key again, from the old master key to the new one.
pub fn rewrap_dek(old_key: &[u8; 32], new_key: &[u8; 32], w: &WrappedDek) -> (r: Result<
    EncryptedPayload,
    CryptoError,
>)
    ensures
        r is Ok <==> (unwrapped(old_key@, w.dek_nonce@, w.encrypted_dek@) matches Some(d) && d.len()
            <= AES_GCM_MAX_PLAINTEXT),
        r matches Ok(p) ==> p.nonce@.len() == NONCE_LEN && unwrapped(
            new_key@,
            p.nonce@,
            p.ciphertext@,
        ) == unwrapped(old_key@, w.dek_nonce@, w.encrypted_dek@),
{
    let dek = VaultCrypto::decrypt_dek(old_key, w.encrypted_dek.as_slice(), w.dek_nonce.as_slice())?;
    VaultCrypto::encrypt_dek(new_key, dek.as_slice())
}

/// A credential whose data key was wrapped again under a new master key
/// opens, under the new key, to what it opened to under the old one.
pub proof fn lemma_rewrap_preserves_value(
    old_key: Seq<u8>,
    new_key: Seq<u8>,
    c: SealedCredential,
    rewrapped: SealedCredential,
)
    requires
        unwrapped(new_key, rewrapped.dek_nonce@, rewrapped.encrypted_dek@) == unwrapped(
            old_key,
            c.dek_nonce@,
            c.encrypted_dek@,
        ),
        rewrapped.ciphertext@ == c.ciphertext@,
        rewrapped.ciphertext_nonce@ == c.ciphertext_nonce@,
    ensures
        credential_plaintext(new_key, rewrapped) == credential_plaintext(old_key, c),
{
}

/// The master key of a new vault: refused when the vault already holds a
/// key; otherwise derived from the passphrase with a fresh salt and the
/// default parameters.
pub fn init_master_key(existing_keys: i64, passphrase: &[u8]) -> (r: Result<
    MasterKeyMaterial,
    VaultError,
>)
    ensures
        existing_keys != 0 ==> (r matches Err(e) && e is AlreadyInitialized),
        existing_keys == 0 ==> (r is Ok <==> passphrase@.len() <= 0xFFFF_FFFF),
        r matches Err(e) ==> (e is AlreadyInitialized || (e matches VaultError::Crypto(c)
            && c is KeyDerivationFailed)),
        r matches Ok(m) ==> {
            &&& m.salt@.len() == SALT_LEN
            &&& m.params == Argon2Params { memory_cost: 65536, time_cost: 3, parallelism: 4 }
            &&& m.key@ == derived_key(passphrase@, m.salt@, m.params)
            &&& m.key_hash@ == sha256_digest(m.key@)
        },
{
    if existing_keys != 0 {
        return Err(VaultError::AlreadyInitialized);
    }
    let salt = VaultCrypto::generate_salt();
    let params = Argon2Params { memory_cost: 65536, time_cost: 3, parallelism: 4 };
    assert(params_in_range(params));
    match VaultCrypto::derive_master_key(passphrase, salt.as_slice(), &params) {
        Ok(m) => Ok(m),
        Err(e) => Err(VaultError::Crypto(e)),
    }
}

/// The unlocked master key for a stored record: the passphrase is checked
/// against the stored hash; a mismatch is an invalid passphrase and
/// out-of-range stored parameters are reported as corrupted.
pub fn unlock_master_key(record: &MasterKeyRecord, passphrase: &[u8]) -> (r: Result<
    MasterKeyMaterial,
    VaultError,
>)
    ensures
        !params_in_range(record.params) ==> (r matches Err(e) && e is CorruptedKdfParams),
        params_in_range(record.params) && !kdf_inputs_accepted(passphrase@, record.salt@) ==> (
        r matches Err(e) && e matches VaultError::KeyDerivation(c) && c is KeyDerivationFailed),
        params_in_range(record.params) && kdf_inputs_accepted(passphrase@, record.salt@) ==> {
            let k = derived_key(passphrase@, record.salt@, record.params);
            if sha256_digest(k) == record.key_hash@ {
                r matches Ok(m) && m.key@ == k && m.salt@ == record.salt@ && m.params
                    == record.params && m.key_hash@ == record.key_hash@
            } else {
                r matches Err(e) && e is InvalidPassphrase
            }
        },
{
    match VaultCrypto::verify_passphrase(
        passphrase,
        record.salt.as_slice(),
        &record.params,
        record.key_hash.as_slice(),
    ) {
        Ok(key) => Ok(
            MasterKeyMaterial {
                key,
                salt: record.salt.clone(),
                params: record.params,
                key_hash: record.key_hash.clone(),
            },
        ),
        Err(CryptoError::PassphraseVerificationFailed) => Err(VaultError::InvalidPassphrase),
        Err(CryptoError::KdfParamsOutOfRange) => Err(VaultError::CorruptedKdfParams),
        Err(e) => Err(VaultError::KeyDerivation(e)),
    }
}

/// A master key rotation: the new key version and material, and every data
/// key wrapped again under the new key, by credential.
pub struct Rotation {
    pub new_version: i64,
    pub material: MasterKeyMaterial,
    pub rewrapped: Vec<(i64, EncryptedPayload)>,
}

/// Whether every wrapped data key opens under the old key.
pub open spec fn all_unwrap(old_key: Seq<u8>, rows: Seq<WrappedDek>) -> bool {
    forall|i: int|
        0 <= i < rows.len() ==> (unwrapped(old_key, rows[i].dek_nonce@, (
        #[trigger] rows[i]).encrypted_dek@) matches Some(d) && d.len() <= AES_GCM_MAX_PLAINTEXT)
}

/// Rotate the master key: derive a new key from the new passphrase (fresh
/// salt, default parameters) under the next version, and wrap every data key
/// again under it. Nothing is produced unless every data key opens.
pub fn rotate_master_key(
    old_version: i64,
    old_key: &[u8; 32],
    new_passphrase: &[u8],
    rows: &Vec<WrappedDek>,
) -> (r: Result<Rotation, VaultError>)
    requires
        old_version < i64::MAX,
    ensures
        r is Ok <==> new_passphrase@.len() <= 0xFFFF_FFFF && all_unwrap(old_key@, rows@),
        r matches Ok(rot) ==> {
            &&& rot.new_version == old_version + 1
            &&& rot.material.salt@.len() == SALT_LEN
            &&& rot.material.params == Argon2Params {
                memory_cost: 65536,
                time_cost: 3,
                parallelism: 4,
            }
            &&& rot.material.key@ == derived_key(
                new_passphrase@,
                rot.material.salt@,
                rot.material.params,
            )
            &&& rot.rewrapped@.len() == rows@.len()
            &&& forall|i: int|
                0 <= i < rows@.len() ==> {
                    let (id, p) = #[trigger] rot.rewrapped@[i];
                    &&& id == rows@[i].credential_id
                    &&& p.nonce@.len() == NONCE_LEN
                    &&& unwrapped(rot.material.key@, p.nonce@, p.ciphertext@) == unwrapped(
                        old_key@,
                        rows@[i].dek_nonce@,
                        rows@[i].encrypted_dek@,
                    )
                }
        },
{
    let material = match init_master_key(0, new_passphrase) {
        Ok(m) => m,
        Err(e) => return Err(e),
    };
    let mut rewrapped: Vec<(i64, EncryptedPayload)> = Vec::new();
    let mut i: usize = 0;
    while i < rows.len()
        invariant
            i <= rows@.len(),
            rewrapped@.len() == i,
            forall|j: int|
                0 <= j < i ==> {
                    let (id, p) = #[trigger] rewrapped@[j];
                    &&& id == rows@[j].credential_id
                    &&& p.nonce@.len() == NONCE_LEN
                    &&& unwrapped(material.key@, p.nonce@, p.ciphertext@) == unwrapped(
                        old_key@,
                        rows@[j].dek_nonce@,
                        rows@[j].encrypted_dek@,
                    )
                },
            forall|j: int|
                0 <= j < i ==> (unwrapped(old_key@, rows@[j].dek_nonce@, (
                #[trigger] rows@[j]).encrypted_dek@) matches Some(d) && d.len()
                    <= AES_GCM_MAX_PLAINTEXT),
        decreases rows@.len() - i,
    {
        let w = &rows[i];
        match rewrap_dek(old_key, &material.key, w) {
            Ok(p) => {
                rewrapped.push((w.credential_id, p));
            },
            Err(e) => {
                return Err(VaultError::Crypto(e));
            },
        }
        i += 1;
    }
    Ok(Rotation { new_version: old_version + 1, material, rewrapped })
}

} // verus!
