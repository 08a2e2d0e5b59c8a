//! The cipher capability: generating a token/secret pair and verifying a
//! token against a secret, plus the shared random-byte source and a
//! constant-time byte comparison.

use vstd::prelude::*;

use crate::aes_gcm_cipher::AesGcmCipher;
use crate::bcrypt_cipher::BcryptCipher;
use crate::ccp_cipher::CcpCipher;
use crate::hmac_cipher::HmacCipher;

verus! {

/// Relies on rand's thread-local generator (`rand::rng`) filling the whole
/// buffer; nothing is promised of the values drawn.
#[verifier::external_body]
pub fn fill_random(len: usize) -> (r: Vec<u8>)
    ensures
        r@.len() == len,
{
    let mut buf = vec![0u8; len];
    rand::Rng::fill_bytes(&mut rand::rng(), &mut buf);
    buf
}

/// Byte equality computed without an early exit, so that the running time
/// does not reveal the position of the first mismatch.
pub fn ct_eq(a: &[u8], b: &[u8]) -> (r: bool)
    ensures
        r == (a@ == b@),
{
    if a.len() != b.len() {
        return false;
    }
    let n = a.len();
    let mut diff: u8 = 0;
    let mut i: usize = 0;
    while i < n
        invariant
            i <= n,
            n == a@.len(),
            n == b@.len(),
            (diff == 0) <==> (forall|j: int| 0 <= j < i ==> a@[j] == b@[j]),
        decreases n - i,
    {
        let ai = a[i];
        let bi = b[i];
        let x = ai ^ bi;
        proof {
            assert(((ai ^ bi) == 0) <==> (ai == bi)) by (bit_vector);
            assert(((diff | x) == 0) <==> (diff == 0 && x == 0)) by (bit_vector);
        }
        diff = diff | x;
        i = i + 1;
    }
    if diff == 0 {
        proof {
            assert(a@ =~= b@);
        }
        true
    } else {
        false
    }
}

/// Generate secret and token and valid token.
///
/// A cipher binds tokens to secrets by a scheme of its own; other components
/// rely only on this contract and never on the scheme itself.
pub trait CsrfCipher: Sized {
    /// Whether `token` was produced from `secret` by this cipher's scheme.
    spec fn verify_spec(&self, token: Seq<u8>, secret: Seq<u8>) -> bool;

    /// Verify token is valid.
    fn verify(&self, token: &[u8], secret: &[u8]) -> (r: bool)
        ensures
            r == self.verify_spec(token@, secret@),
    ;

    /// Generate new token and secret.
    ///
    /// The pair is freshly drawn, and the token always verifies against its
    /// own secret under this same cipher.
    fn generate(&self) -> (pair: (Vec<u8>, Vec<u8>))
        ensures
            self.verify_spec(pair.0@, pair.1@),
    ;

    /// Generate a random bytes.
    fn random_bytes(&self, len: usize) -> (r: Vec<u8>)
        ensures
            r@.len() == len,
    ;

    /// This cipher as a member of the uniform fallback list, verifying
    /// exactly the same tokens.
    fn into_any(self) -> (c: AnyCipher)
        ensures
            forall|t: Seq<u8>, s: Seq<u8>| #[trigger] any_verifies(c, t, s) == self.verify_spec(
                t,
                s,
            ),
    ;
}

/// Whether `token` was produced from `secret` by the scheme of `c`.
pub open spec fn any_verifies(c: AnyCipher, token: Seq<u8>, secret: Seq<u8>) -> bool {
    match c {
        AnyCipher::Hmac(inner) => inner.verifies(token, secret),
        AnyCipher::Bcrypt(inner) => inner.verifies(token, secret),
        AnyCipher::AesGcm(inner) => inner.verifies(token, secret),
        AnyCipher::Ccp(inner) => inner.verifies(token, secret),
    }
}

/// Any of the configured cipher schemes, for the heterogeneous fallback list.
pub enum AnyCipher {
    /// Keyed-hash scheme.
    Hmac(HmacCipher),
    /// Password-hash scheme.
    Bcrypt(BcryptCipher),
    /// Nonce-prepended AEAD scheme over AES-GCM.
    AesGcm(AesGcmCipher),
    /// Nonce-prepended AEAD scheme over ChaCha20-Poly1305.
    Ccp(CcpCipher),
}

impl CsrfCipher for AnyCipher {
    open spec fn verify_spec(&self, token: Seq<u8>, secret: Seq<u8>) -> bool {
        any_verifies(*self, token, secret)
    }

    fn verify(&self, token: &[u8], secret: &[u8]) -> (r: bool) {
        match self {
            AnyCipher::Hmac(c) => c.verify(token, secret),
            AnyCipher::Bcrypt(c) => c.verify(token, secret),
            AnyCipher::AesGcm(c) => c.verify(token, secret),
            AnyCipher::Ccp(c) => c.verify(token, secret),
        }
    }

    fn generate(&self) -> (pair: (Vec<u8>, Vec<u8>)) {
        match self {
            AnyCipher::Hmac(c) => c.generate(),
            AnyCipher::Bcrypt(c) => c.generate(),
            AnyCipher::AesGcm(c) => c.generate(),
            AnyCipher::Ccp(c) => c.generate(),
        }
    }

    fn random_bytes(&self, len: usize) -> (r: Vec<u8>) {
        fill_random(len)
    }

    fn into_any(self) -> (c: AnyCipher) {
        self
    }
}

} // verus!
