//! Nonce-prepended AEAD cipher over ChaCha20-Poly1305, the stream-cipher
//! variant of the AEAD scheme: token layout and verification mirror the
//! AES-GCM cipher under a different primitive.

use vstd::prelude::*;

use crate::cipher::{ct_eq, fill_random, AnyCipher, CsrfCipher};

verus! {

use vstd::slice::slice_subrange;

/// What ChaCha20-Poly1305 decryption under `key` and `nonce` makes of the
/// ciphertext-plus-tag `sealed`: the recovered plaintext, or `None` when the
/// tag does not authenticate. A pure function of all three.
pub uninterp spec fn ccp_opened(key: Seq<u8>, nonce: Seq<u8>, sealed: Seq<u8>) -> Option<Seq<u8>>;

/// Relies on chacha20poly1305's `encrypt`: a short plaintext is always sealed
/// into `plain.len() + 16` bytes that `decrypt` opens back to the plaintext
/// under the same key and nonce.
#[verifier::external_body]
fn ccp_encrypt(key: &[u8], nonce: &[u8], plain: &[u8]) -> (r: Vec<u8>)
    requires
        key@.len() == 32,
        nonce@.len() == 12,
        plain@.len() <= 4096,
    ensures
        r@.len() == plain@.len() + 16,
        ccp_opened(key@, nonce@, r@) == Some(plain@),
{
    let cipher = <chacha20poly1305::ChaCha20Poly1305 as chacha20poly1305::KeyInit>::new_from_slice(
        key,
    ).expect("the key is 32 bytes");
    let nonce_arr: [u8; 12] = nonce.try_into().expect("the nonce is 12 bytes");
    chacha20poly1305::aead::Aead::encrypt(&cipher, &nonce_arr.into(), plain)
        .expect("a short plaintext stays well under the size limit")
}

/// Relies on chacha20poly1305's `decrypt`: a deterministic function of key,
/// nonce and ciphertext, `None` exactly when authentication fails.
#[verifier::external_body]
fn ccp_decrypt(key: &[u8], nonce: &[u8], sealed: &[u8]) -> (r: Option<Vec<u8>>)
    requires
        key@.len() == 32,
        nonce@.len() == 12,
    ensures
        match r {
            Some(p) => ccp_opened(key@, nonce@, sealed@) == Some(p@),
            None => ccp_opened(key@, nonce@, sealed@) is None,
        },
{
    let cipher = <chacha20poly1305::ChaCha20Poly1305 as chacha20poly1305::KeyInit>::new_from_slice(
        key,
    ).expect("the key is 32 bytes");
    let nonce_arr: [u8; 12] = nonce.try_into().expect("the nonce is 12 bytes");
    chacha20poly1305::aead::Aead::decrypt(&cipher, &nonce_arr.into(), sealed).ok()
}

/// Nonce-prepended AEAD cipher over ChaCha20-Poly1305.
pub struct CcpCipher {
    /// The fixed server key.
    pub aead_key: [u8; 32],
}

impl CcpCipher {
    /// A cipher under the given server key.
    pub fn new(aead_key: [u8; 32]) -> (c: CcpCipher)
        ensures
            c.aead_key == aead_key,
    {
        CcpCipher { aead_key }
    }

    /// Whether `token` is a nonce followed by a sealing of `secret` under
    /// this cipher's key.
    pub open spec fn verifies(self, token: Seq<u8>, secret: Seq<u8>) -> bool {
        token.len() >= 28 && ccp_opened(
            self.aead_key@,
            token.subrange(0, 12),
            token.subrange(12, token.len() as int),
        ) == Some(secret)
    }
}

impl CsrfCipher for CcpCipher {
    open spec fn verify_spec(&self, token: Seq<u8>, secret: Seq<u8>) -> bool {
        self.verifies(token, secret)
    }

    fn verify(&self, token: &[u8], secret: &[u8]) -> (r: bool) {
        if token.len() < 28 {
            return false;
        }
        let nonce = slice_subrange(token, 0, 12);
        let sealed = slice_subrange(token, 12, token.len());
        match ccp_decrypt(self.aead_key.as_slice(), nonce, sealed) {
            Some(p) => ct_eq(p.as_slice(), secret),
            None => false,
        }
    }

    fn generate(&self) -> (pair: (Vec<u8>, Vec<u8>)) {
        let secret = self.random_bytes(32);
        let nonce = fill_random(12);
        let sealed = ccp_encrypt(self.aead_key.as_slice(), nonce.as_slice(), secret.as_slice());
        let ghost nonce_view = nonce@;
        let mut token = nonce;
        token.extend_from_slice(sealed.as_slice());
        proof {
            assert(token@.subrange(0, 12) =~= nonce_view);
            assert(token@.subrange(12, token@.len() as int) =~= sealed@);
        }
        (token, secret)
    }

    fn random_bytes(&self, len: usize) -> (r: Vec<u8>) {
        fill_random(len)
    }

    fn into_any(self) -> (c: AnyCipher) {
        AnyCipher::Ccp(self)
    }
}

} // verus!
