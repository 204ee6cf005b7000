use brain_backend::settings::{api_key_envelope, open_api_key, ApiKeyError};
use brain_backend::vault::crypto::{Argon2Params, CryptoError, VaultCrypto};
use brain_backend::vault::repository::{
    init_master_key, open_credential, rewrap_dek, rotate_master_key, seal_credential, unlock_master_key,
    MasterKeyRecord, SealedCredential, VaultError, WrappedDek,
};

#[test]
fn argon2id_derivation_deterministic() {
    let passphrase = b"my secure passphrase";
    let salt = vec![0x42u8; 16];
    let params = Argon2Params::test_fast();
    let k1 = VaultCrypto::derive_master_key(passphrase, &salt, &params).unwrap();
    let k2 = VaultCrypto::derive_master_key(passphrase, &salt, &params).unwrap();
    assert_eq!(k1.key, k2.key);
    assert_eq!(k1.key_hash, k2.key_hash);
}

#[test]
fn argon2id_different_salt_different_key() {
    let passphrase = b"my secure passphrase";
    let params = Argon2Params::test_fast();
    let k1 = VaultCrypto::derive_master_key(passphrase, &[0x01u8; 16], &params).unwrap();
    let k2 = VaultCrypto::derive_master_key(passphrase, &[0x02u8; 16], &params).unwrap();
    assert_ne!(k1.key, k2.key);
}

#[test]
fn verify_passphrase_roundtrip() {
    let passphrase = b"test passphrase 123";
    let salt = VaultCrypto::generate_salt();
    let params = Argon2Params::test_fast();
    let material = VaultCrypto::derive_master_key(passphrase, &salt, &params).unwrap();
    let key = VaultCrypto::verify_passphrase(passphrase, &salt, &params, &material.key_hash).unwrap();
    assert_eq!(key, material.key);
}

#[test]
fn verify_wrong_passphrase_fails() {
    let salt = VaultCrypto::generate_salt();
    let params = Argon2Params::test_fast();
    let material = VaultCrypto::derive_master_key(b"correct", &salt, &params).unwrap();
    let result = VaultCrypto::verify_passphrase(b"wrong", &salt, &params, &material.key_hash);
    assert!(result.is_err());
    assert!(matches!(result, Err(CryptoError::PassphraseVerificationFailed)));
}

#[test]
fn envelope_encryption_roundtrip() {
    let dek = VaultCrypto::generate_dek();
    let plaintext = b"super secret api key: sk-abc123";
    let enc_value = VaultCrypto::encrypt_value(&dek, plaintext).unwrap();
    let dec_value = VaultCrypto::decrypt_value(&dek, &enc_value.ciphertext, &enc_value.nonce).unwrap();
    assert_eq!(dec_value, plaintext);
}

#[test]
fn key_rotation_roundtrip() {
    let old_key = [0x11u8; 32];
    let new_key = [0x22u8; 32];
    let dek = VaultCrypto::generate_dek();
    let plaintext = b"rotate me";
    let enc_dek = VaultCrypto::encrypt_dek(&old_key, &dek).unwrap();
    let dec_dek = VaultCrypto::decrypt_dek(&old_key, &enc_dek.ciphertext, &enc_dek.nonce).unwrap();
    let re_enc_dek = VaultCrypto::encrypt_dek(&new_key, &dec_dek).unwrap();
    let final_dek = VaultCrypto::decrypt_dek(&new_key, &re_enc_dek.ciphertext, &re_enc_dek.nonce).unwrap();
    assert_eq!(final_dek, dek);
    let enc_value = VaultCrypto::encrypt_value(&dek, plaintext).unwrap();
    let dec_value = VaultCrypto::decrypt_value(&final_dek, &enc_value.ciphertext, &enc_value.nonce).unwrap();
    assert_eq!(dec_value, plaintext);
}

#[test]
fn tampered_ciphertext_fails() {
    let key = [0x42u8; 32];
    let plaintext = b"authenticated data";
    let enc = VaultCrypto::encrypt_value(&key, plaintext).unwrap();
    let mut tampered = enc.ciphertext.clone();
    tampered[0] ^= 0xff;
    let result = VaultCrypto::decrypt_value(&key, &tampered, &enc.nonce);
    assert!(result.is_err());
}

#[test]
fn tampered_nonce_fails() {
    let key = [0x42u8; 32];
    let plaintext = b"authenticated data";
    let enc = VaultCrypto::encrypt_value(&key, plaintext).unwrap();
    let mut tampered = enc.nonce.clone();
    tampered[0] ^= 0xff;
    let result = VaultCrypto::decrypt_value(&key, &enc.ciphertext, &tampered);
    assert!(result.is_err());
}

#[test]
fn tampered_wrapped_dek_fails() {
    let master_key = [0x42u8; 32];
    let dek = VaultCrypto::generate_dek();
    let enc_dek = VaultCrypto::encrypt_dek(&master_key, &dek).unwrap();
    let mut tampered = enc_dek.ciphertext.clone();
    tampered[0] ^= 0xff;
    let result = VaultCrypto::decrypt_dek(&master_key, &tampered, &enc_dek.nonce);
    assert!(result.is_err());
}

#[test]
fn kdf_params_out_of_range_rejected() {
    let params = Argon2Params { memory_cost: 999_999_999, time_cost: 1, parallelism: 1 };
    let result = VaultCrypto::derive_master_key(b"pass", &[0u8; 16], &params);
    assert!(result.is_err());
    assert!(matches!(result, Err(CryptoError::KdfParamsOutOfRange)));
}

#[test]
fn every_encryption_uses_unique_nonce() {
    let key = VaultCrypto::generate_dek();
    let plaintext = b"same data every time";
    let mut nonces = std::collections::HashSet::new();
    for _ in 0..100 {
        let enc = VaultCrypto::encrypt_value(&key, plaintext).unwrap();
        assert!(nonces.insert(enc.nonce), "duplicate nonce detected!");
    }
}

#[test]
fn wrong_key_fails_decryption() {
    let key1 = [0x01u8; 32];
    let key2 = [0x02u8; 32];
    let plaintext = b"secret";
    let enc = VaultCrypto::encrypt_value(&key1, plaintext).unwrap();
    let result = VaultCrypto::decrypt_value(&key2, &enc.ciphertext, &enc.nonce);
    assert!(result.is_err());
}

#[test]
fn argon2_params_validation() {
    assert!(Argon2Params::default().validate().is_ok());
    assert!(Argon2Params::test_fast().validate().is_ok());
    assert!(Argon2Params { memory_cost: 0, time_cost: 3, parallelism: 4 }.validate().is_err());
    assert!(Argon2Params { memory_cost: 999_999, time_cost: 3, parallelism: 4 }.validate().is_err());
    assert!(Argon2Params { memory_cost: 65536, time_cost: 0, parallelism: 4 }.validate().is_err());
    assert!(Argon2Params { memory_cost: 65536, time_cost: 3, parallelism: 0 }.validate().is_err());
    assert!(Argon2Params { memory_cost: 8, time_cost: 3, parallelism: 2 }.validate().is_err());
}

#[test]
fn params_json_text() {
    assert_eq!(
        Argon2Params::default().to_json(),
        "{\"memory_cost\":65536,\"time_cost\":3,\"parallelism\":4}"
    );
}

#[test]
fn key_hash_is_sha256_of_key() {
    let m = VaultCrypto::derive_master_key(b"pw", &[7u8; 16], &Argon2Params::test_fast()).unwrap();
    assert_eq!(m.key_hash.len(), 32);
    let m2 = VaultCrypto::derive_master_key(b"pw2", &[7u8; 16], &Argon2Params::test_fast()).unwrap();
    assert_ne!(m.key_hash, m2.key_hash);
}

#[test]
fn short_salt_fails_derivation() {
    let r = VaultCrypto::derive_master_key(b"pw", &[1u8; 4], &Argon2Params::test_fast());
    assert!(matches!(r, Err(CryptoError::KeyDerivationFailed(_))));
}

#[test]
fn wipe_zeroes_key_material() {
    let mut m = VaultCrypto::derive_master_key(b"pw", &[3u8; 16], &Argon2Params::test_fast()).unwrap();
    m.wipe();
    assert_eq!(m.key, [0u8; 32]);
    assert!(m.salt.is_empty());
    assert!(m.key_hash.is_empty());
}

#[test]
fn crypto_error_messages() {
    assert_eq!(CryptoError::EncryptionFailed.message(), "encryption failed");
    assert_eq!(
        CryptoError::DecryptionFailed.message(),
        "decryption failed — authentication tag mismatch"
    );
    assert_eq!(CryptoError::KeyDerivationFailed("x".to_string()).message(), "key derivation failed: x");
    assert_eq!(CryptoError::KdfParamsOutOfRange.message(), "KDF parameters out of allowed range");
}

#[test]
fn sealed_credential_opens_to_its_value() {
    let master = [9u8; 32];
    let sealed = seal_credential(&master, b"sk-test-12345").unwrap();
    assert_eq!(sealed.ciphertext.len(), 13 + 16);
    assert_eq!(open_credential(&master, &sealed).unwrap(), b"sk-test-12345".to_vec());
    assert!(matches!(open_credential(&[8u8; 32], &sealed), Err(CryptoError::DecryptionFailed)));
}

#[test]
fn rewrapped_credential_opens_under_new_key() {
    let old_key = [1u8; 32];
    let new_key = [2u8; 32];
    let sealed = seal_credential(&old_key, b"value").unwrap();
    let w = WrappedDek {
        credential_id: 7,
        encrypted_dek: sealed.encrypted_dek.clone(),
        dek_nonce: sealed.dek_nonce.clone(),
    };
    let p = rewrap_dek(&old_key, &new_key, &w).unwrap();
    let moved = SealedCredential {
        encrypted_dek: p.ciphertext,
        dek_nonce: p.nonce,
        ciphertext: sealed.ciphertext.clone(),
        ciphertext_nonce: sealed.ciphertext_nonce.clone(),
    };
    assert_eq!(open_credential(&new_key, &moved).unwrap(), b"value".to_vec());
    assert!(open_credential(&old_key, &moved).is_err());
}

#[test]
fn init_refuses_initialized_vault() {
    assert!(matches!(init_master_key(1, b"pw"), Err(VaultError::AlreadyInitialized)));
    assert_eq!(
        VaultError::AlreadyInitialized.message(),
        "vault already initialized — use unlock() instead"
    );
}

#[test]
fn unlock_checks_passphrase() {
    let salt = vec![5u8; 16];
    let params = Argon2Params::test_fast();
    let m = VaultCrypto::derive_master_key(b"correct-passphrase", &salt, &params).unwrap();
    let record = MasterKeyRecord {
        id: 1,
        algorithm: "aes-256-gcm".to_string(),
        salt: salt.clone(),
        params,
        key_hash: m.key_hash.clone(),
        created_at: String::new(),
        retired_at: None,
    };
    let unlocked = unlock_master_key(&record, b"correct-passphrase").unwrap();
    assert_eq!(unlocked.key, m.key);
    assert!(matches!(unlock_master_key(&record, b"wrong-passphrase"), Err(VaultError::InvalidPassphrase)));
    let bad = MasterKeyRecord { params: Argon2Params { memory_cost: 0, time_cost: 1, parallelism: 1 }, ..record };
    assert!(matches!(unlock_master_key(&bad, b"correct-passphrase"), Err(VaultError::CorruptedKdfParams)));
    assert_eq!(VaultError::InvalidPassphrase.message(), "invalid passphrase");
}

#[test]
fn rotation_keeps_credentials_readable() {
    let old_key = [4u8; 32];
    let a = seal_credential(&old_key, b"first").unwrap();
    let b = seal_credential(&old_key, b"second").unwrap();
    let rows = vec![
        WrappedDek { credential_id: 1, encrypted_dek: a.encrypted_dek.clone(), dek_nonce: a.dek_nonce.clone() },
        WrappedDek { credential_id: 2, encrypted_dek: b.encrypted_dek.clone(), dek_nonce: b.dek_nonce.clone() },
    ];
    let rot = rotate_master_key(3, &old_key, b"new passphrase", &rows).unwrap();
    assert_eq!(rot.new_version, 4);
    assert_eq!(rot.rewrapped.len(), 2);
    for ((id, p), (orig, text)) in rot.rewrapped.iter().zip([(a, &b"first"[..]), (b, &b"second"[..])]) {
        let moved = SealedCredential {
            encrypted_dek: p.ciphertext.clone(),
            dek_nonce: p.nonce.clone(),
            ciphertext: orig.ciphertext.clone(),
            ciphertext_nonce: orig.ciphertext_nonce.clone(),
        };
        assert!(*id == 1 || *id == 2);
        assert_eq!(open_credential(&rot.material.key, &moved).unwrap(), text.to_vec());
    }
}

#[test]
fn rotation_fails_on_foreign_key() {
    let sealed = seal_credential(&[4u8; 32], b"x").unwrap();
    let rows = vec![WrappedDek { credential_id: 1, encrypted_dek: sealed.encrypted_dek, dek_nonce: sealed.dek_nonce }];
    assert!(matches!(
        rotate_master_key(1, &[5u8; 32], b"pw", &rows),
        Err(VaultError::Crypto(CryptoError::DecryptionFailed))
    ));
}

#[test]
fn api_key_round_trip() {
    let master = [6u8; 32];
    let env = api_key_envelope(&master, &Some("sk-абв".to_string())).unwrap();
    assert_eq!(open_api_key(&master, &env).unwrap(), Some("sk-абв".to_string()));
    let empty = api_key_envelope(&master, &Some(String::new())).unwrap();
    assert!(empty.ciphertext.is_empty() && empty.encrypted_dek.is_empty());
    assert_eq!(open_api_key(&master, &empty).unwrap(), None);
    let none = api_key_envelope(&master, &None).unwrap();
    assert_eq!(open_api_key(&master, &none).unwrap(), None);
}

#[test]
fn api_key_not_utf8_is_refused() {
    let master = [6u8; 32];
    let sealed = seal_credential(&master, &[0xff, 0xfe]).unwrap();
    assert!(matches!(open_api_key(&master, &sealed), Err(ApiKeyError::NotUtf8)));
}

#[test]
fn wrong_nonce_length_fails_decryption() {
    let key = [3u8; 32];
    let enc = VaultCrypto::encrypt_value(&key, b"secret").unwrap();
    let short = &enc.nonce[..11];
    assert!(matches!(VaultCrypto::decrypt_value(&key, &enc.ciphertext, short), Err(CryptoError::DecryptionFailed)));
    let wrapped = VaultCrypto::encrypt_dek(&key, &[9u8; 32]).unwrap();
    let long = [wrapped.nonce.clone(), vec![0]].concat();
    assert!(matches!(VaultCrypto::decrypt_dek(&key, &wrapped.ciphertext, &long), Err(CryptoError::DecryptionFailed)));
    let mut sealed = seal_credential(&key, b"token").unwrap();
    sealed.ciphertext_nonce.pop();
    assert!(matches!(open_credential(&key, &sealed), Err(CryptoError::DecryptionFailed)));
}
