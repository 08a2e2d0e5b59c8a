use salvo_csrf::{AesGcmCipher, BcryptCipher, CcpCipher, CsrfCipher, HmacCipher};

const KEY_A: [u8; 32] = *b"01234567012345670123456701234567";
const KEY_B: [u8; 32] = *b"76543210765432107654321076543210";

#[test]
fn test_hmac_round_trip() {
    let cipher = HmacCipher::new(KEY_A);
    let (token, secret) = cipher.generate();
    assert_eq!(token.len(), 32);
    assert_eq!(secret.len(), 32);
    assert_ne!(token, secret);
    assert!(cipher.verify(&token, &secret));
}

#[test]
fn test_hmac_rejects_other_secret() {
    let cipher = HmacCipher::new(KEY_A);
    let (token, _secret) = cipher.generate();
    let (_token2, secret2) = cipher.generate();
    assert!(!cipher.verify(&token, &secret2));
}

#[test]
fn test_hmac_rejects_other_key() {
    let cipher_a = HmacCipher::new(KEY_A);
    let cipher_b = HmacCipher::new(KEY_B);
    let (token, secret) = cipher_a.generate();
    assert!(!cipher_b.verify(&token, &secret));
}

#[test]
fn test_bcrypt_round_trip() {
    let cipher = BcryptCipher::new();
    let (token, secret) = cipher.generate();
    assert_eq!(token.len(), 60);
    assert_eq!(token[0], b'$');
    assert_eq!(secret.len(), 32);
    assert!(cipher.verify(&token, &secret));
}

#[test]
fn test_bcrypt_rejects_other_secret() {
    let cipher = BcryptCipher::new();
    let (token, _secret) = cipher.generate();
    let (_token2, secret2) = cipher.generate();
    assert!(!cipher.verify(&token, &secret2));
}

#[test]
fn test_bcrypt_rejects_malformed_token() {
    let cipher = BcryptCipher::new();
    let (_token, secret) = cipher.generate();
    assert!(!cipher.verify(b"hello", &secret));
    assert!(!cipher.verify(&[0xff, 0xfe, 0xfd], &secret));
}

#[test]
fn test_aes_gcm_round_trip() {
    let cipher = AesGcmCipher::new(KEY_A);
    let (token, secret) = cipher.generate();
    assert_eq!(token.len(), 12 + 32 + 16);
    assert_eq!(secret.len(), 32);
    assert!(cipher.verify(&token, &secret));
}

#[test]
fn test_aes_gcm_rejects_tampered_token() {
    let cipher = AesGcmCipher::new(KEY_A);
    let (mut token, secret) = cipher.generate();
    token[20] ^= 0x01;
    assert!(!cipher.verify(&token, &secret));
}

#[test]
fn test_aes_gcm_rejects_other_key() {
    let cipher_a = AesGcmCipher::new(KEY_A);
    let cipher_b = AesGcmCipher::new(KEY_B);
    let (token, secret) = cipher_a.generate();
    assert!(!cipher_b.verify(&token, &secret));
}

#[test]
fn test_ccp_round_trip() {
    let cipher = CcpCipher::new(KEY_A);
    let (token, secret) = cipher.generate();
    assert_eq!(token.len(), 12 + 32 + 16);
    assert_eq!(secret.len(), 32);
    assert!(cipher.verify(&token, &secret));
}

#[test]
fn test_ccp_rejects_tampered_token() {
    let cipher = CcpCipher::new(KEY_A);
    let (mut token, secret) = cipher.generate();
    token[0] ^= 0x01;
    assert!(!cipher.verify(&token, &secret));
}

#[test]
fn test_ccp_rejects_short_token() {
    let cipher = CcpCipher::new(KEY_A);
    let (_token, secret) = cipher.generate();
    assert!(!cipher.verify(&[0u8; 27], &secret));
}

#[test]
fn test_random_bytes_length() {
    let cipher = HmacCipher::new(KEY_A);
    assert_eq!(cipher.random_bytes(0).len(), 0);
    assert_eq!(cipher.random_bytes(57).len(), 57);
    let a = cipher.random_bytes(32);
    let b = cipher.random_bytes(32);
    assert_ne!(a, b);
}
