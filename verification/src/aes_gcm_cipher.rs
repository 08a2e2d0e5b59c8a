//! Nonce-prepended AEAD cipher over AES-256-GCM: the token is the random
//! nonce followed by the ciphertext-plus-tag of the secret under a fixed
//! server key; verification decrypts and compares the recovered plaintext to
//! the secret.

use vstd::prelude::*;

use crate::cipher::{ct_eq, fill_random, AnyCipher, CsrfCipher};

verus! {

use vstd::slice::slice_subrange;

/// What AES-256-GCM decryption under `key` and `nonce` makes of the
/// ciphertext-plus-tag `sealed`: the recovered plaintext, or `None` when the
/// tag does not authenticate. A pure function of all three.
pub uninterp spec fn aes_gcm_opened(key: Seq<u8>, nonce: Seq<u8>, sealed: Seq<u8>) -> Option<
    Seq<u8>,
>;

/// Relies on aes-gcm's `encrypt` for `Aes256Gcm`: a short plaintext is always
/// sealed into `plain.len() + 16` bytes that `decrypt` opens back to the
/// plaintext under the same key and nonce.
#[verifier::external_body]
fn aes_gcm_encrypt(key: &[u8], nonce: &[u8], plain: &[u8]) -> (r: Vec<u8>)
    requires
        key@.len() == 32,
        nonce@.len() == 12,
        plain@.len() <= 4096,
    ensures
        r@.len() == plain@.len() + 16,
        aes_gcm_opened(key@, nonce@, r@) == Some(plain@),
{
    let cipher = <aes_gcm::Aes256Gcm as aes_gcm::KeyInit>::new_from_slice(key)
        .expect("the key is 32 bytes");
    let nonce_arr: [u8; 12] = nonce.try_into().expect("the nonce is 12 bytes");
    aes_gcm::aead::Aead::encrypt(&cipher, &nonce_arr.into(), plain)
        .expect("a short plaintext stays well under the size limit")
}

/// Relies on aes-gcm's `decrypt` for `Aes256Gcm`: a deterministic function of
/// key, nonce and ciphertext, `None` exactly when authentication fails.
#[verifier::external_body]
fn aes_gcm_decrypt(key: &[u8], nonce: &[u8], sealed: &[u8]) -> (r: Option<Vec<u8>>)
    requires
        key@.len() == 32,
        nonce@.len() == 12,
    ensures
        match r {
            Some(p) => aes_gcm_opened(key@, nonce@, sealed@) == Some(p@),
            None => aes_gcm_opened(key@, nonce@, sealed@) is None,
        },
{
    let cipher = <aes_gcm::Aes256Gcm as aes_gcm::KeyInit>::new_from_slice(key)
        .expect("the key is 32 bytes");
    let nonce_arr: [u8; 12] = nonce.try_into().expect("the nonce is 12 bytes");
    aes_gcm::aead::Aead::decrypt(&cipher, &nonce_arr.into(), sealed).ok()
}

/// Nonce-prepended AEAD cipher over AES-256-GCM.
pub struct AesGcmCipher {
    /// The fixed server key.
    pub aead_key: [u8; 32],
}

impl AesGcmCipher {
    /// A cipher under the given server key.
    pub fn new(aead_key: [u8; 32]) -> (c: AesGcmCipher)
        ensures
            c.aead_key == aead_key,
    {
        AesGcmCipher { aead_key }
    }

    /// Whether `token` is a nonce followed by a sealing of `secret` under
    /// this cipher's key.
    pub open spec fn verifies(self, token: Seq<u8>, secret: Seq<u8>) -> bool {
        token.len() >= 28 && aes_gcm_opened(
            self.aead_key@,
            token.subrange(0, 12),
            token.subrange(12, token.len() as int),
        ) == Some(secret)
    }
}

impl CsrfCipher for AesGcmCipher {
    open spec fn verify_spec(&self, token: Seq<u8>, secret: Seq<u8>) -> bool {
        self.verifies(token, secret)
    }

    fn verify(&self, token: &[u8], secret: &[u8]) -> (r: bool) {
        if token.len() < 28 {
            return false;
        }
        let nonce = slice_subrange(token, 0, 12);
        let sealed = slice_subrange(token, 12, token.len());
        match aes_gcm_decrypt(self.aead_key.as_slice(), nonce, sealed) {
            Some(p) => ct_eq(p.as_slice(), secret),
            None => false,
        }
    }

    fn generate(&self) -> (pair: (Vec<u8>, Vec<u8>)) {
        let secret = self.random_bytes(32);
        let nonce = fill_random(12);
        let sealed = aes_gcm_encrypt(
            self.aead_key.as_slice(),
            nonce.as_slice(),
            secret.as_slice(),
        );
        let ghost nonce_view = nonce@;
        let mut token = nonce;
        token.extend_from_slice(sealed.as_slice());
        proof {
            assert(token@.subrange(0, 12) =~= nonce_view);
            assert(token@.subrange(12, token@.len() as int) =~= sealed@);
        }
        (token, secret)
    }

    fn random_bytes(&self, len: usize) -> (r: Vec<u8>) {
        fill_random(len)
    }

    fn into_any(self) -> (c: AnyCipher) {
        AnyCipher::AesGcm(self)
    }
}

} // verus!
