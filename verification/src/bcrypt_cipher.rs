//! Password-hash-style cipher: the token is the bcrypt hash text of the
//! secret, self-salted, and verification recomputes the hash from the secret
//! and compares it to the embedded one.

use vstd::prelude::*;

use crate::cipher::{fill_random, AnyCipher, CsrfCipher};

verus! {

use vstd::string::StringSliceAdditionalSpecFns;
use vstd::utf8::valid_utf8;

/// Whether bcrypt verification of `password` against a candidate hash text
/// (given as its bytes) succeeds: a pure function of both.
pub uninterp spec fn bcrypt_check(password: Seq<u8>, hash: Seq<u8>) -> bool;

/// Relies on std's `str::from_utf8`: succeeds exactly on valid UTF-8, viewing
/// the same bytes.
#[verifier::external_body]
fn try_utf8(bytes: &[u8]) -> (r: Option<&str>)
    ensures
        match r {
            Some(s) => s.spec_bytes() == bytes@ && valid_utf8(bytes@),
            None => !valid_utf8(bytes@),
        },
{
    core::str::from_utf8(bytes).ok()
}

/// Relies on bcrypt's `hash_with_salt_bytes`: with a cost between 4 and 31
/// and a 16-byte salt it returns the 60-byte ASCII hash text, and bcrypt's
/// `verify` accepts the hashed password against that text.
#[verifier::external_body]
fn bcrypt_hash(password: &[u8], cost: u32, salt: &[u8]) -> (r: Vec<u8>)
    requires
        4 <= cost <= 31,
        salt@.len() == 16,
    ensures
        r@.len() == 60,
        valid_utf8(r@),
        bcrypt_check(password@, r@),
{
    let salt_arr: [u8; 16] = salt.try_into().expect("the salt is 16 bytes");
    let hashed = bcrypt::hash_with_salt_bytes(password, cost, salt_arr)
        .expect("the cost is in bcrypt's accepted range");
    hashed.to_vec()
}

/// Relies on bcrypt's `verify`: a deterministic check of `password` against a
/// candidate hash text, false on a malformed one.
#[verifier::external_body]
fn bcrypt_verify(password: &[u8], hash: &str) -> (r: bool)
    ensures
        r == bcrypt_check(password@, hash.spec_bytes()),
{
    bcrypt::verify(password, hash).unwrap_or(false)
}

/// Password-hash-style cipher over bcrypt.
pub struct BcryptCipher {
    cost: u32,
}

impl BcryptCipher {
    /// The cost must stay in bcrypt's accepted range.
    #[verifier::type_invariant]
    spec fn wf(self) -> bool {
        4 <= self.cost <= 31
    }

    /// A cipher with a moderate cost suited to per-request hashing.
    pub fn new() -> (c: BcryptCipher) {
        BcryptCipher { cost: 8 }
    }

    /// The same cipher with the given cost.
    pub fn with_cost(self, cost: u32) -> (c: BcryptCipher)
        requires
            4 <= cost <= 31,
    {
        BcryptCipher { cost }
    }

    /// Whether `token` is a bcrypt hash text that `secret` hashes to.
    pub open spec fn verifies(self, token: Seq<u8>, secret: Seq<u8>) -> bool {
        valid_utf8(token) && bcrypt_check(secret, token)
    }
}

impl CsrfCipher for BcryptCipher {
    open spec fn verify_spec(&self, token: Seq<u8>, secret: Seq<u8>) -> bool {
        self.verifies(token, secret)
    }

    fn verify(&self, token: &[u8], secret: &[u8]) -> (r: bool) {
        match try_utf8(token) {
            Some(s) => bcrypt_verify(secret, s),
            None => false,
        }
    }

    fn generate(&self) -> (pair: (Vec<u8>, Vec<u8>)) {
        proof {
            use_type_invariant(self);
        }
        let secret = self.random_bytes(32);
        let salt = fill_random(16);
        let token = bcrypt_hash(secret.as_slice(), self.cost, salt.as_slice());
        (token, secret)
    }

    fn random_bytes(&self, len: usize) -> (r: Vec<u8>) {
        fill_random(len)
    }

    fn into_any(self) -> (c: AnyCipher) {
        AnyCipher::Bcrypt(self)
    }
}

} // verus!
