//! Keyed-hash cipher: the token is the HMAC-SHA256 of the secret under a
//! fixed server key, and verification recomputes the tag and compares it in
//! constant time.

use vstd::prelude::*;

use crate::cipher::{ct_eq, fill_random, AnyCipher, CsrfCipher};

verus! {

/// The HMAC-SHA256 tag of `data` under `key`: 32 bytes, a pure function of
/// both.
pub uninterp spec fn hmac_sha256_of(key: Seq<u8>, data: Seq<u8>) -> Seq<u8>;

/// Relies on hmac's `Hmac<Sha256>`: a deterministic 32-byte tag of `data`
/// under `key`; any key length is accepted.
#[verifier::external_body]
fn hmac_sha256(key: &[u8], data: &[u8]) -> (r: Vec<u8>)
    ensures
        r@ == hmac_sha256_of(key@, data@),
        r@.len() == 32,
{
    let mut mac = <hmac::Hmac<sha2::Sha256> as hmac::KeyInit>::new_from_slice(key)
        .expect("any key length is accepted");
    hmac::Mac::update(&mut mac, data);
    hmac::Mac::finalize(mac).into_bytes().to_vec()
}

/// Keyed-hash cipher over HMAC-SHA256.
pub struct HmacCipher {
    /// The fixed server key.
    pub hmac_key: [u8; 32],
}

impl HmacCipher {
    /// A cipher under the given server key.
    pub fn new(hmac_key: [u8; 32]) -> (c: HmacCipher)
        ensures
            c.hmac_key == hmac_key,
    {
        HmacCipher { hmac_key }
    }

    /// Whether `token` is the tag of `secret` under this cipher's key.
    pub open spec fn verifies(self, token: Seq<u8>, secret: Seq<u8>) -> bool {
        token == hmac_sha256_of(self.hmac_key@, secret)
    }
}

impl CsrfCipher for HmacCipher {
    open spec fn verify_spec(&self, token: Seq<u8>, secret: Seq<u8>) -> bool {
        self.verifies(token, secret)
    }

    fn verify(&self, token: &[u8], secret: &[u8]) -> (r: bool) {
        let expected = hmac_sha256(self.hmac_key.as_slice(), secret);
        ct_eq(token, expected.as_slice())
    }

    fn generate(&self) -> (pair: (Vec<u8>, Vec<u8>)) {
        let secret = self.random_bytes(32);
        let token = hmac_sha256(self.hmac_key.as_slice(), secret.as_slice());
        (token, secret)
    }

    fn random_bytes(&self, len: usize) -> (r: Vec<u8>) {
        fill_random(len)
    }

    fn into_any(self) -> (c: AnyCipher) {
        AnyCipher::Hmac(self)
    }
}

} // verus!
