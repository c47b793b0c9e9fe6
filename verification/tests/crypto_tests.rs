use locd::aead::{ChaCha20Poly1305, XChaCha20Poly1305};
use locd::ed25519::{Ed25519KeyPair, Ed25519PublicKey, Ed25519Signature};
use locd::encoding::{base64url_decode, base64url_encode, hex_decode, hex_encode};
use locd::error::Error;
use locd::kdf::{derive_encryption_key, derive_mac_key, hkdf_sha256};
use locd::password::{hash_password, hash_password_custom, verify_password};
use locd::x25519::{X25519KeyPair, X25519PublicKey, X25519SecretKey};

#[test]
fn test_ed25519_roundtrip() {
    let keypair = Ed25519KeyPair::generate();
    let message = b"test message";
    let signature = keypair.sign(message);
    assert!(keypair.public_key().verify(message, &signature).is_ok());
}

#[test]
fn test_x25519_key_agreement() {
    let alice = X25519KeyPair::generate();
    let bob = X25519KeyPair::generate();

    let alice_shared = alice.key_agreement(&bob.public_key());
    let bob_shared = bob.key_agreement(&alice.public_key());

    assert_eq!(alice_shared, bob_shared);
}

#[test]
fn test_aead_roundtrip() {
    let key = ChaCha20Poly1305::generate_key();
    let plaintext = b"secret message";
    let aad = b"additional data";

    let (ciphertext, nonce) = ChaCha20Poly1305::encrypt(&key, plaintext, aad).unwrap();
    let decrypted = ChaCha20Poly1305::decrypt(&key, &ciphertext, &nonce, aad).unwrap();

    assert_eq!(plaintext.as_slice(), decrypted.as_slice());
}

#[test]
fn test_base64url_encoding() {
    let data = b"test data";
    let encoded = base64url_encode(data);
    let decoded = base64url_decode(&encoded).unwrap();
    assert_eq!(data.as_slice(), decoded.as_slice());
}

#[test]
fn test_base64url_roundtrip() {
    let data = b"Hello, Loc'd Protocol!";
    let encoded = base64url_encode(data);
    let decoded = base64url_decode(&encoded).unwrap();
    assert_eq!(data.as_slice(), decoded.as_slice());
}

#[test]
fn test_base64url_no_padding() {
    let data = b"test";
    let encoded = base64url_encode(data);
    assert!(!encoded.contains('='));
}

#[test]
fn test_base64url_url_safe() {
    let data = vec![0xff, 0xfe, 0xfd];
    let encoded = base64url_encode(&data);
    assert!(!encoded.contains('+'));
    assert!(!encoded.contains('/'));
}

#[test]
fn test_hex_roundtrip() {
    let data = b"test data";
    let encoded = hex_encode(data);
    let decoded = hex_decode(&encoded).unwrap();
    assert_eq!(data.as_slice(), decoded.as_slice());
}

#[test]
fn test_hex_lowercase() {
    let data = vec![0xAB, 0xCD, 0xEF];
    let encoded = hex_encode(&data);
    assert_eq!(encoded, "abcdef");
}

#[test]
fn test_invalid_base64url() {
    let result = base64url_decode("invalid!@#$");
    assert!(result.is_err());
}

#[test]
fn test_invalid_hex() {
    let result = hex_decode("not hex!");
    assert!(result.is_err());
}

#[test]
fn test_known_base64url_vectors() {
    assert_eq!(base64url_encode(b""), "");
    assert_eq!(base64url_encode(b"f"), "Zg");
    assert_eq!(base64url_encode(b"fo"), "Zm8");
    assert_eq!(base64url_encode(b"foo"), "Zm9v");
    assert_eq!(base64url_encode(b"foob"), "Zm9vYg");
    assert_eq!(base64url_encode(b"fooba"), "Zm9vYmE");
    assert_eq!(base64url_encode(b"foobar"), "Zm9vYmFy");
}

#[test]
fn ed25519_test_keygen() {
    let kp = Ed25519KeyPair::generate();
    assert_eq!(kp.public_key().to_bytes().len(), 32);
    assert_eq!(kp.secret_bytes().len(), 32);
}

#[test]
fn ed25519_test_sign_verify() {
    let kp = Ed25519KeyPair::generate();
    let message = b"Hello, Loc'd!";

    let sig = kp.sign(message);
    assert_eq!(sig.to_bytes().len(), 64);

    assert!(kp.public_key().verify(message, &sig).is_ok());

    let wrong_message = b"Wrong message";
    assert!(kp.public_key().verify(wrong_message, &sig).is_err());
}

#[test]
fn ed25519_test_from_bytes() {
    let kp1 = Ed25519KeyPair::generate();
    let secret = kp1.secret_bytes();
    let public = kp1.public_key().to_bytes();

    let kp2 = Ed25519KeyPair::from_secret_bytes(&secret).unwrap();
    assert_eq!(kp2.public_key().to_bytes(), public);

    let pk = Ed25519PublicKey::from_bytes(&public).unwrap();
    assert_eq!(pk.to_bytes(), public);
}

#[test]
fn test_sign_verify_bytes() {
    let kp = Ed25519KeyPair::generate();
    let message = b"test message";

    let sig_bytes = kp.sign_bytes(message);
    assert_eq!(sig_bytes.len(), 64);

    assert!(kp.public_key().verify_bytes(message, &sig_bytes).is_ok());
}

#[test]
fn ed25519_test_invalid_key_sizes() {
    assert!(Ed25519KeyPair::from_secret_bytes(&[0u8; 16]).is_err());
    assert!(Ed25519PublicKey::from_bytes(&[0u8; 16]).is_err());
    assert!(Ed25519Signature::from_bytes(&[0u8; 32]).is_err());
}

#[test]
fn x25519_test_keygen() {
    let kp = X25519KeyPair::generate();
    assert_eq!(kp.public_key().to_bytes().len(), 32);
    assert_eq!(kp.secret_bytes().len(), 32);
}

#[test]
fn test_key_agreement() {
    let alice = X25519KeyPair::generate();
    let bob = X25519KeyPair::generate();

    let alice_shared = alice.key_agreement(&bob.public_key());
    let bob_shared = bob.key_agreement(&alice.public_key());

    assert_eq!(alice_shared, bob_shared);
    assert_eq!(alice_shared.len(), 32);
}

#[test]
fn x25519_test_from_bytes() {
    let kp1 = X25519KeyPair::generate();
    let secret = kp1.secret_bytes();
    let public = kp1.public_key().to_bytes();

    let kp2 = X25519KeyPair::from_secret_bytes(&secret).unwrap();
    assert_eq!(kp2.public_key().to_bytes(), public);

    let pk = X25519PublicKey::from_bytes(&public).unwrap();
    assert_eq!(pk.to_bytes(), public);
}

#[test]
fn x25519_test_invalid_key_sizes() {
    assert!(X25519KeyPair::from_secret_bytes(&[0u8; 16]).is_err());
    assert!(X25519PublicKey::from_bytes(&[0u8; 16]).is_err());
}

#[test]
fn test_secret_key() {
    let kp = X25519KeyPair::generate();
    let secret_bytes = kp.secret_bytes();

    let secret = X25519SecretKey::from_bytes(&secret_bytes).unwrap();
    assert_eq!(secret.to_bytes(), secret_bytes);

    let kp2 = secret.to_keypair();
    assert_eq!(kp2.public_key().to_bytes(), kp.public_key().to_bytes());
}

#[test]
fn test_chacha20poly1305_roundtrip() {
    let key = ChaCha20Poly1305::generate_key();
    assert_eq!(key.len(), 32);

    let plaintext = b"secret message";
    let aad = b"additional data";

    let (ciphertext, nonce) = ChaCha20Poly1305::encrypt(&key, plaintext, aad).unwrap();
    assert_eq!(nonce.len(), 12);
    assert!(ciphertext.len() > plaintext.len());

    let decrypted = ChaCha20Poly1305::decrypt(&key, &ciphertext, &nonce, aad).unwrap();
    assert_eq!(plaintext.as_slice(), decrypted.as_slice());
}

#[test]
fn test_chacha20poly1305_wrong_key() {
    let key1 = ChaCha20Poly1305::generate_key();
    let key2 = ChaCha20Poly1305::generate_key();

    let plaintext = b"secret";
    let aad = b"";

    let (ciphertext, nonce) = ChaCha20Poly1305::encrypt(&key1, plaintext, aad).unwrap();

    let result = ChaCha20Poly1305::decrypt(&key2, &ciphertext, &nonce, aad);
    assert!(result.is_err());
}

#[test]
fn test_xchacha20poly1305_roundtrip() {
    let key = XChaCha20Poly1305::generate_key();
    assert_eq!(key.len(), 32);

    let plaintext = b"recovery data";
    let aad = b"metadata";

    let (ciphertext, nonce) = XChaCha20Poly1305::encrypt(&key, plaintext, aad).unwrap();
    assert_eq!(nonce.len(), 24);

    let decrypted = XChaCha20Poly1305::decrypt(&key, &ciphertext, &nonce, aad).unwrap();
    assert_eq!(plaintext.as_slice(), decrypted.as_slice());
}

#[test]
fn aead_test_invalid_key_sizes() {
    let short_key = vec![0u8; 16];
    assert!(ChaCha20Poly1305::encrypt(&short_key, b"test", b"").is_err());
    assert!(XChaCha20Poly1305::encrypt(&short_key, b"test", b"").is_err());
}

#[test]
fn test_hkdf_sha256() {
    let ikm = b"input key material";
    let salt = b"salt";
    let info = b"context";

    let okm = hkdf_sha256(ikm, salt, info, 32).unwrap();
    assert_eq!(okm.len(), 32);

    let okm2 = hkdf_sha256(ikm, salt, info, 32).unwrap();
    assert_eq!(okm, okm2);

    let okm3 = hkdf_sha256(ikm, salt, b"different", 32).unwrap();
    assert_ne!(okm, okm3);
}

#[test]
fn test_derive_encryption_key() {
    let shared_secret = b"shared secret from key agreement";
    let context = b"session-12345";

    let key1 = derive_encryption_key(shared_secret, context).unwrap();
    assert_eq!(key1.len(), 32);

    let key2 = derive_encryption_key(shared_secret, context).unwrap();
    assert_eq!(key1, key2);

    let key3 = derive_encryption_key(shared_secret, b"different").unwrap();
    assert_ne!(key1, key3);
}

#[test]
fn test_derive_mac_key() {
    let shared_secret = b"shared secret";
    let context = b"session-id";

    let key = derive_mac_key(shared_secret, context).unwrap();
    assert_eq!(key.len(), 32);
}

#[test]
fn test_variable_output_length() {
    let ikm = b"test";
    let salt = b"";
    let info = b"";

    let okm16 = hkdf_sha256(ikm, salt, info, 16).unwrap();
    assert_eq!(okm16.len(), 16);

    let okm64 = hkdf_sha256(ikm, salt, info, 64).unwrap();
    assert_eq!(okm64.len(), 64);
}

#[test]
fn test_hash_verify() {
    let password = "correct horse battery staple";
    let hash = hash_password(password).unwrap();

    assert!(verify_password(password, &hash).is_ok());
    assert!(verify_password("wrong password", &hash).is_err());
}

#[test]
fn test_different_hashes() {
    let password = "test password";

    let hash1 = hash_password(password).unwrap();
    let hash2 = hash_password(password).unwrap();

    assert_ne!(hash1, hash2);

    assert!(verify_password(password, &hash1).is_ok());
    assert!(verify_password(password, &hash2).is_ok());
}

#[test]
fn test_custom_params() {
    let password = "test";

    let hash = hash_password_custom(password, 19456, 2, 1).unwrap();
    assert!(verify_password(password, &hash).is_ok());
}

#[test]
fn test_invalid_hash() {
    let result = verify_password("test", "invalid hash string");
    assert!(result.is_err());
}

#[test]
fn wrong_length_errors_name_the_lengths() {
    match Ed25519KeyPair::from_secret_bytes(&[0u8; 16]) {
        Err(Error::InvalidKey(m)) => assert_eq!(m, "Expected 32 bytes, got 16"),
        _ => panic!("expected an invalid key error"),
    }
    match Ed25519Signature::from_bytes(&[0u8; 32]) {
        Err(Error::Crypto(m)) => assert_eq!(m, "Expected 64 bytes for signature, got 32"),
        _ => panic!("expected a crypto error"),
    }
}

#[test]
fn hkdf_refuses_too_long_output() {
    match hkdf_sha256(b"ikm", b"salt", b"info", 255 * 32 + 1) {
        Err(Error::Crypto(m)) => {
            assert_eq!(m, "HKDF expansion failed: invalid number of blocks, too large output")
        }
        _ => panic!("expected a crypto error"),
    }
    assert_eq!(hkdf_sha256(b"ikm", b"salt", b"info", 255 * 32).unwrap().len(), 255 * 32);
}

#[test]
fn decoding_errors_have_fixed_messages() {
    match hex_decode("abc") {
        Err(Error::Decoding(m)) => assert_eq!(m, "Hex decode failed"),
        _ => panic!("expected a decoding error"),
    }
    match base64url_decode("a") {
        Err(Error::Decoding(m)) => assert_eq!(m, "Base64url decode failed"),
        _ => panic!("expected a decoding error"),
    }
    assert_eq!(hex_decode("ABcd").unwrap(), vec![0xab, 0xcd]);
}

#[test]
fn signatures_are_deterministic_for_a_seed() {
    let kp = Ed25519KeyPair::from_secret_bytes(&[42u8; 32]).unwrap();
    let a = kp.sign_bytes(b"message");
    let b = kp.sign_bytes(b"message");
    assert_eq!(a, b);
    assert_ne!(a, kp.sign_bytes(b"other message"));
}
