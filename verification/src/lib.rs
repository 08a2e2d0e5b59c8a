//! Double-submit CSRF protection middleware.
//!
//! On safe requests the guard issues a fresh token/secret pair; on unsafe
//! requests it verifies a client-supplied token against the stored secret
//! before the rest of the handler chain may run. Secrets live in a cookie
//! ([`CookieStore`]) or in a server-side session ([`SessionStore`]); tokens
//! are bound to secrets by a pluggable cipher, with an ordered fallback list
//! for key and algorithm rotation.

use vstd::prelude::*;

mod aes_gcm_cipher;
mod bcrypt_cipher;
mod ccp_cipher;
mod cipher;
mod cookie_store;
mod finder;
mod hmac_cipher;
mod http;
mod session_store;
mod transport;

pub use aes_gcm_cipher::AesGcmCipher;
pub use bcrypt_cipher::BcryptCipher;
pub use ccp_cipher::CcpCipher;
pub use cipher::{AnyCipher, CsrfCipher};
pub use cookie_store::CookieStore;
pub use finder::{AnyFinder, CsrfTokenFinder, FormFinder, HeaderFinder, JsonFinder, QueryFinder};
pub use hmac_cipher::HmacCipher;
pub use http::{Depot, FlowCtrl, JsonValue, Method, Request, Response};
pub use session_store::SessionStore;

verus! {

use crate::cipher::any_verifies;
use crate::finder::any_find;
use crate::transport::{b64_decoded, b64_of, url_safe_decode, url_safe_encode};

/// Depot key under which the freshly issued token is exposed to handlers.
pub const CSRF_TOKEN_KEY: &'static str = "salvo.csrf.token";

/// True on requests that bypass verification: everything but POST, PATCH,
/// DELETE and PUT.
pub open spec fn spec_skipped(req: Request) -> bool {
    !(req.method is Post || req.method is Patch || req.method is Delete || req.method is Put)
}

fn default_skipper(req: &Request, _depot: &Depot) -> (r: bool)
    ensures
        r == spec_skipped(*req),
{
    match req.method {
        Method::Post | Method::Patch | Method::Delete | Method::Put => false,
        _ => true,
    }
}

/// Why a store could not persist a secret.
#[derive(Clone, Copy, PartialEq, Eq, Structural, Debug)]
pub enum StoreError {
    /// No session is attached to the request.
    SessionUnavailable,
}

/// Store secret.
///
/// A store loads the secret previously persisted for the request's identity
/// context and persists a newly generated one, scoped to that context.
pub trait CsrfStore: Sized {
    /// The secret this store sees for the request's context, if any.
    spec fn loaded_spec(&self, req: Request, depot: Depot) -> Option<Seq<u8>>;

    /// How a save leaves depot and response, and whether it succeeded.
    spec fn saved_spec(
        &self,
        old_depot: Depot,
        old_res: Response,
        secret: Seq<u8>,
        new_depot: Depot,
        new_res: Response,
        ok: bool,
    ) -> bool;

    /// Get the secret from the store.
    fn load_secret(&self, req: &Request, depot: &Depot) -> (r: Option<Vec<u8>>)
        ensures
            match r {
                Some(s) => self.loaded_spec(*req, *depot) == Some(s@),
                None => self.loaded_spec(*req, *depot) is None,
            },
    ;

    /// Save the secret from the store.
    fn save_secret(
        &self,
        req: &Request,
        depot: &mut Depot,
        res: &mut Response,
        secret: &[u8],
    ) -> (r: Result<(), StoreError>)
        ensures
            self.saved_spec(*old(depot), *old(res), secret@, *final(depot), *final(res), r is Ok),
    ;
}

/// Read access to the token the middleware left for downstream handlers.
pub trait CsrfDepotExt {
    /// The token exposed for the next submission, if one was issued.
    spec fn csrf_token_spec(&self) -> Option<Seq<char>>;

    /// Get csrf token reference from depot.
    fn csrf_token(&self) -> (r: Option<&String>)
        ensures
            match r {
                Some(t) => self.csrf_token_spec() == Some(t@),
                None => self.csrf_token_spec() is None,
            },
    ;
}

impl CsrfDepotExt for Depot {
    open spec fn csrf_token_spec(&self) -> Option<Seq<char>> {
        self.value_of(CSRF_TOKEN_KEY@)
    }

    fn csrf_token(&self) -> (r: Option<&String>) {
        let key: String = CSRF_TOKEN_KEY.to_owned();
        self.get(&key)
    }
}

/// Where a request stands in the verification protocol.
#[derive(Clone, Copy, PartialEq, Eq, Structural, Debug)]
pub enum CsrfState {
    /// The skip predicate bypassed verification.
    Skipped,
    /// No finder produced a token.
    NoToken,
    /// The found token was not valid transport encoding.
    DecodeFailed,
    /// No secret was stored for the request's context.
    NoSecret,
    /// Every configured cipher rejected the token.
    VerifyFailed,
    /// A configured cipher accepted the token.
    Verified,
}

/// The token the ordered finder list sees in `req`: the first finder with a
/// result wins.
pub open spec fn chain_find(finders: Seq<AnyFinder>, req: Request) -> Option<Seq<char>>
    decreases finders.len(),
{
    if finders.len() == 0 {
        None
    } else {
        match any_find(finders.first(), req) {
            Some(t) => Some(t),
            None => chain_find(finders.drop_first(), req),
        }
    }
}

/// Cross-Site Request Forgery (CSRF) protection middleware.
pub struct Csrf<C, S> {
    /// The cipher that issues fresh pairs and verifies first.
    pub cipher: C,
    /// The secret store.
    pub store: S,
    /// The ordered finder list.
    pub finders: Vec<AnyFinder>,
    /// Ciphers retained for verification only, tried in order after the
    /// primary one.
    pub fallback_ciphers: Vec<AnyCipher>,
}

impl<C: CsrfCipher, S: CsrfStore> Csrf<C, S> {
    /// Create a new instance.
    pub fn new<F: CsrfTokenFinder>(cipher: C, store: S, finder: F) -> (guard: Csrf<C, S>)
        ensures
            guard.cipher == cipher,
            guard.store == store,
            guard.finders@.len() == 1,
            forall|req: Request| #[trigger] any_find(guard.finders@[0], req) == finder.find_spec(
                req,
            ),
            guard.fallback_ciphers@.len() == 0,
    {
        let mut finders: Vec<AnyFinder> = Vec::new();
        finders.push(finder.into_finder());
        Csrf { cipher, store, finders, fallback_ciphers: Vec::new() }
    }

    /// Add finder to find csrf token.
    pub fn add_finder<F: CsrfTokenFinder>(self, finder: F) -> (guard: Csrf<C, S>)
        ensures
            guard.cipher == self.cipher,
            guard.store == self.store,
            guard.fallback_ciphers == self.fallback_ciphers,
            guard.finders@.len() == self.finders@.len() + 1,
            guard.finders@.drop_last() == self.finders@,
            forall|req: Request| #[trigger] any_find(guard.finders@.last(), req)
                == finder.find_spec(req),
    {
        let ghost orig = self;
        let mut updated = self;
        updated.finders.push(finder.into_finder());
        proof {
            assert(updated.finders@.drop_last() =~= orig.finders@);
        }
        updated
    }

    /// Add a cipher to the ordered fallback list, used for verification
    /// only, so tokens issued before a key or algorithm rotation stay valid.
    pub fn add_fallabck_cipher<D: CsrfCipher>(self, cipher: D) -> (guard: Csrf<C, S>)
        ensures
            guard.cipher == self.cipher,
            guard.store == self.store,
            guard.finders == self.finders,
            guard.fallback_ciphers@.len() == self.fallback_ciphers@.len() + 1,
            guard.fallback_ciphers@.drop_last() == self.fallback_ciphers@,
            forall|t: Seq<u8>, s: Seq<u8>| #[trigger] any_verifies(
                guard.fallback_ciphers@.last(),
                t,
                s,
            ) == cipher.verify_spec(t, s),
    {
        let ghost orig = self;
        let mut updated = self;
        updated.fallback_ciphers.push(cipher.into_any());
        proof {
            assert(updated.fallback_ciphers@.drop_last() =~= orig.fallback_ciphers@);
        }
        updated
    }

    /// Whether some configured cipher accepts `token` against `secret`: the
    /// primary cipher first, then the fallbacks in list order.
    pub open spec fn verify_any_spec(&self, token: Seq<u8>, secret: Seq<u8>) -> bool {
        self.cipher.verify_spec(token, secret) || exists|i: int|
            0 <= i < self.fallback_ciphers@.len() && any_verifies(
                #[trigger] self.fallback_ciphers@[i],
                token,
                secret,
            )
    }

    /// The state `req` reaches under this configuration.
    pub open spec fn state_spec(&self, req: Request, depot: Depot) -> CsrfState {
        if spec_skipped(req) {
            CsrfState::Skipped
        } else {
            match chain_find(self.finders@, req) {
                None => CsrfState::NoToken,
                Some(text) => match b64_decoded(text) {
                    None => CsrfState::DecodeFailed,
                    Some(token) => match self.store.loaded_spec(req, depot) {
                        None => CsrfState::NoSecret,
                        Some(secret) => if self.verify_any_spec(token, secret) {
                            CsrfState::Verified
                        } else {
                            CsrfState::VerifyFailed
                        },
                    },
                },
            }
        }
    }

    /// Whether `req` may continue to the rest of the chain.
    pub open spec fn accepts_spec(&self, req: Request, depot: Depot) -> bool {
        self.state_spec(req, depot) is Skipped || self.state_spec(req, depot) is Verified
    }

    fn find_token(&self, req: &Request) -> (r: Option<String>)
        ensures
            match r {
                Some(t) => chain_find(self.finders@, *req) == Some(t@),
                None => chain_find(self.finders@, *req) is None,
            },
    {
        let n = self.finders.len();
        let mut i: usize = 0;
        proof {
            assert(self.finders@.skip(0) =~= self.finders@);
        }
        while i < n
            invariant
                i <= n,
                n == self.finders@.len(),
                chain_find(self.finders@, *req) == chain_find(self.finders@.skip(i as int), *req),
            decreases n - i,
        {
            proof {
                assert(self.finders@.skip(i as int).first() == self.finders@[i as int]);
                assert(self.finders@.skip(i as int).drop_first() =~= self.finders@.skip(
                    i as int + 1,
                ));
            }
            match self.finders[i].find_token(req) {
                Some(token) => {
                    return Some(token);
                },
                None => {},
            }
            i = i + 1;
        }
        proof {
            assert(self.finders@.skip(n as int) =~= Seq::<AnyFinder>::empty());
        }
        None
    }

    fn verify_token(&self, token: &Vec<u8>, secret: &Vec<u8>) -> (r: bool)
        ensures
            r == self.verify_any_spec(token@, secret@),
    {
        if self.cipher.verify(token.as_slice(), secret.as_slice()) {
            return true;
        }
        let n = self.fallback_ciphers.len();
        let mut i: usize = 0;
        while i < n
            invariant
                i <= n,
                n == self.fallback_ciphers@.len(),
                !self.cipher.verify_spec(token@, secret@),
                forall|j: int| 0 <= j < i ==> !any_verifies(
                    #[trigger] self.fallback_ciphers@[j],
                    token@,
                    secret@,
                ),
            decreases n - i,
        {
            if self.fallback_ciphers[i].verify(token.as_slice(), secret.as_slice()) {
                proof {
                    assert(any_verifies(self.fallback_ciphers@[i as int], token@, secret@));
                }
                return true;
            }
            i = i + 1;
        }
        false
    }

    /// Decide, without side effects, where `req` stands in the protocol.
    pub fn check_state(&self, req: &Request, depot: &Depot) -> (st: CsrfState)
        ensures
            st == self.state_spec(*req, *depot),
    {
        if default_skipper(req, depot) {
            return CsrfState::Skipped;
        }
        match self.find_token(req) {
            None => CsrfState::NoToken,
            Some(text) => match url_safe_decode(text.as_str()) {
                None => CsrfState::DecodeFailed,
                Some(token) => match self.store.load_secret(req, depot) {
                    None => CsrfState::NoSecret,
                    Some(secret) => if self.verify_token(&token, &secret) {
                        CsrfState::Verified
                    } else {
                        CsrfState::VerifyFailed
                    },
                },
            },
        }
    }

    /// The middleware entry point. A request that is neither skipped nor
    /// verified is rejected: status 403, depot and cookies untouched, chain
    /// cut off. A request that continues gets a brand-new pair from the
    /// primary cipher: the secret is handed to the store, and the token is
    /// exposed in the depot, transport-encoded, decoding back to a token the
    /// primary cipher accepts against the stored secret.
    pub fn handle(&self, req: &Request, depot: &mut Depot, res: &mut Response, ctrl: &mut FlowCtrl)
        requires
            !old(ctrl).ceased,
        ensures
            final(ctrl).ceased == !self.accepts_spec(*req, *old(depot)),
            !self.accepts_spec(*req, *old(depot)) ==> final(res).status_code == Some(403u16)
                && final(res).cookies == old(res).cookies
                && *final(depot) == *old(depot),
            self.accepts_spec(*req, *old(depot)) ==> exists|t: Seq<u8>, s: Seq<u8>, d: Depot, ok: bool|
                {
                    &&& #[trigger] self.cipher.verify_spec(t, s)
                    &&& b64_decoded(b64_of(t)) == Some(t)
                    &&& #[trigger] self.store.saved_spec(*old(depot), *old(res), s, d, *final(res), ok)
                    &&& final(depot).session == d.session
                    &&& final(depot).value_of(CSRF_TOKEN_KEY@) == Some(b64_of(t))
                    &&& forall|n: Seq<char>| n != CSRF_TOKEN_KEY@ ==> final(depot).value_of(n)
                        == d.value_of(n)
                },
    {
        let st = self.check_state(req, depot);
        match st {
            CsrfState::Skipped | CsrfState::Verified => {},
            _ => {
                res.set_status_code(403);
                ctrl.skip_rest();
                return;
            },
        }
        let pair = self.cipher.generate();
        let token = pair.0;
        let secret = pair.1;
        let saved = self.store.save_secret(req, depot, res, secret.as_slice());
        let ghost mid_depot = *depot;
        let ghost save_ok = saved is Ok;
        let token_text = url_safe_encode(token.as_slice());
        depot.insert(CSRF_TOKEN_KEY, token_text);
        proof {
            assert(self.store.saved_spec(
                *old(depot),
                *old(res),
                secret@,
                mid_depot,
                *res,
                save_ok,
            ));
        }
    }
}

/// Helper function to create a `CookieStore`.
pub fn cookie_store() -> (s: CookieStore)
    ensures
        s.cookie_name@ == "salvo.csrf.secret"@,
{
    CookieStore::new()
}

/// Helper function to create a `SessionStore`.
pub fn session_store() -> (s: SessionStore)
    ensures
        s.session_key@ == "salvo.csrf.secret"@,
{
    SessionStore::new()
}

/// Helper function to create a `Csrf` use `BcryptCipher`.
pub fn bcrypt_csrf<S: CsrfStore, F: CsrfTokenFinder>(store: S, finder: F) -> (guard: Csrf<
    BcryptCipher,
    S,
>)
    ensures
        guard.store == store,
        guard.finders@.len() == 1,
        forall|req: Request| #[trigger] any_find(guard.finders@[0], req) == finder.find_spec(req),
        guard.fallback_ciphers@.len() == 0,
{
    Csrf::new(BcryptCipher::new(), store, finder)
}

/// Helper function to create a `Csrf` use `BcryptCipher` and `CookieStore`.
pub fn bcrypt_cookie_csrf<F: CsrfTokenFinder>(finder: F) -> (guard: Csrf<
    BcryptCipher,
    CookieStore,
>)
    ensures
        guard.store.cookie_name@ == "salvo.csrf.secret"@,
        guard.finders@.len() == 1,
        forall|req: Request| #[trigger] any_find(guard.finders@[0], req) == finder.find_spec(req),
        guard.fallback_ciphers@.len() == 0,
{
    Csrf::new(BcryptCipher::new(), CookieStore::new(), finder)
}

/// Helper function to create a `Csrf` use `BcryptCipher` and `SessionStore`.
pub fn bcrypt_session_csrf<F: CsrfTokenFinder>(finder: F) -> (guard: Csrf<
    BcryptCipher,
    SessionStore,
>)
    ensures
        guard.store.session_key@ == "salvo.csrf.secret"@,
        guard.finders@.len() == 1,
        forall|req: Request| #[trigger] any_find(guard.finders@[0], req) == finder.find_spec(req),
        guard.fallback_ciphers@.len() == 0,
{
    Csrf::new(BcryptCipher::new(), SessionStore::new(), finder)
}

/// Helper function to create a `Csrf` use `HmacCipher`.
pub fn hmac_csrf<S: CsrfStore, F: CsrfTokenFinder>(hmac_key: [u8; 32], store: S, finder: F) -> (guard: Csrf<
    HmacCipher,
    S,
>)
    ensures
        guard.cipher.hmac_key == hmac_key,
        guard.store == store,
        guard.finders@.len() == 1,
        forall|req: Request| #[trigger] any_find(guard.finders@[0], req) == finder.find_spec(req),
        guard.fallback_ciphers@.len() == 0,
{
    Csrf::new(HmacCipher::new(hmac_key), store, finder)
}

/// Helper function to create a `Csrf` use `HmacCipher` and `CookieStore`.
pub fn hmac_cookie_csrf<F: CsrfTokenFinder>(hmac_key: [u8; 32], finder: F) -> (guard: Csrf<
    HmacCipher,
    CookieStore,
>)
    ensures
        guard.cipher.hmac_key == hmac_key,
        guard.store.cookie_name@ == "salvo.csrf.secret"@,
        guard.finders@.len() == 1,
        forall|req: Request| #[trigger] any_find(guard.finders@[0], req) == finder.find_spec(req),
        guard.fallback_ciphers@.len() == 0,
{
    Csrf::new(HmacCipher::new(hmac_key), CookieStore::new(), finder)
}

/// Helper function to create a `Csrf` use `HmacCipher` and `SessionStore`.
pub fn hmac_session_csrf<F: CsrfTokenFinder>(hmac_key: [u8; 32], finder: F) -> (guard: Csrf<
    HmacCipher,
    SessionStore,
>)
    ensures
        guard.cipher.hmac_key == hmac_key,
        guard.store.session_key@ == "salvo.csrf.secret"@,
        guard.finders@.len() == 1,
        forall|req: Request| #[trigger] any_find(guard.finders@[0], req) == finder.find_spec(req),
        guard.fallback_ciphers@.len() == 0,
{
    Csrf::new(HmacCipher::new(hmac_key), SessionStore::new(), finder)
}

/// Helper function to create a `Csrf` use `AesGcmCipher`.
pub fn aes_gcm_csrf<S: CsrfStore, F: CsrfTokenFinder>(aead_key: [u8; 32], store: S, finder: F) -> (guard: Csrf<
    AesGcmCipher,
    S,
>)
    ensures
        guard.cipher.aead_key == aead_key,
        guard.store == store,
        guard.finders@.len() == 1,
        forall|req: Request| #[trigger] any_find(guard.finders@[0], req) == finder.find_spec(req),
        guard.fallback_ciphers@.len() == 0,
{
    Csrf::new(AesGcmCipher::new(aead_key), store, finder)
}

/// Helper function to create a `Csrf` use `AesGcmCipher` and `CookieStore`.
pub fn aes_gcm_cookie_csrf<F: CsrfTokenFinder>(aead_key: [u8; 32], finder: F) -> (guard: Csrf<
    AesGcmCipher,
    CookieStore,
>)
    ensures
        guard.cipher.aead_key == aead_key,
        guard.store.cookie_name@ == "salvo.csrf.secret"@,
        guard.finders@.len() == 1,
        forall|req: Request| #[trigger] any_find(guard.finders@[0], req) == finder.find_spec(req),
        guard.fallback_ciphers@.len() == 0,
{
    Csrf::new(AesGcmCipher::new(aead_key), CookieStore::new(), finder)
}

/// Helper function to create a `Csrf` use `AesGcmCipher` and `SessionStore`.
pub fn aes_gcm_session_csrf<F: CsrfTokenFinder>(aead_key: [u8; 32], finder: F) -> (guard: Csrf<
    AesGcmCipher,
    SessionStore,
>)
    ensures
        guard.cipher.aead_key == aead_key,
        guard.store.session_key@ == "salvo.csrf.secret"@,
        guard.finders@.len() == 1,
        forall|req: Request| #[trigger] any_find(guard.finders@[0], req) == finder.find_spec(req),
        guard.fallback_ciphers@.len() == 0,
{
    Csrf::new(AesGcmCipher::new(aead_key), SessionStore::new(), finder)
}

/// Helper function to create a `Csrf` use `CcpCipher`.
pub fn ccp_csrf<S: CsrfStore, F: CsrfTokenFinder>(aead_key: [u8; 32], store: S, finder: F) -> (guard: Csrf<
    CcpCipher,
    S,
>)
    ensures
        guard.cipher.aead_key == aead_key,
        guard.store == store,
        guard.finders@.len() == 1,
        forall|req: Request| #[trigger] any_find(guard.finders@[0], req) == finder.find_spec(req),
        guard.fallback_ciphers@.len() == 0,
{
    Csrf::new(CcpCipher::new(aead_key), store, finder)
}

/// Helper function to create a `Csrf` use `CcpCipher` and `CookieStore`.
pub fn ccp_cookie_csrf<F: CsrfTokenFinder>(aead_key: [u8; 32], finder: F) -> (guard: Csrf<
    CcpCipher,
    CookieStore,
>)
    ensures
        guard.cipher.aead_key == aead_key,
        guard.store.cookie_name@ == "salvo.csrf.secret"@,
        guard.finders@.len() == 1,
        forall|req: Request| #[trigger] any_find(guard.finders@[0], req) == finder.find_spec(req),
        guard.fallback_ciphers@.len() == 0,
{
    Csrf::new(CcpCipher::new(aead_key), CookieStore::new(), finder)
}

/// Helper function to create a `Csrf` use `CcpCipher` and `SessionStore`.
pub fn ccp_session_csrf<F: CsrfTokenFinder>(aead_key: [u8; 32], finder: F) -> (guard: Csrf<
    CcpCipher,
    SessionStore,
>)
    ensures
        guard.cipher.aead_key == aead_key,
        guard.store.session_key@ == "salvo.csrf.secret"@,
        guard.finders@.len() == 1,
        forall|req: Request| #[trigger] any_find(guard.finders@[0], req) == finder.find_spec(req),
        guard.fallback_ciphers@.len() == 0,
{
    Csrf::new(CcpCipher::new(aead_key), SessionStore::new(), finder)
}

/// Skip law: a request that the skip predicate passes by is accepted
/// without any verification, whatever tokens or secrets it carries.
pub proof fn lemma_skipped_accepted<C: CsrfCipher, S: CsrfStore>(
    guard: Csrf<C, S>,
    req: Request,
    depot: Depot,
)
    requires
        spec_skipped(req),
    ensures
        guard.accepts_spec(req, depot),
{
}

/// Rejection law: a request that must verify is accepted only when a token
/// was found, it decoded, a secret was stored for the context, and some
/// configured cipher accepted the pair; a missing, undecodable or mismatched
/// token never continues.
pub proof fn lemma_unsafe_accepted_only_verified<C: CsrfCipher, S: CsrfStore>(
    guard: Csrf<C, S>,
    req: Request,
    depot: Depot,
)
    requires
        !spec_skipped(req),
        guard.accepts_spec(req, depot),
    ensures
        guard.state_spec(req, depot) is Verified,
        chain_find(guard.finders@, req) is Some,
        b64_decoded(chain_find(guard.finders@, req)->0) is Some,
        guard.store.loaded_spec(req, depot) is Some,
        guard.verify_any_spec(
            b64_decoded(chain_find(guard.finders@, req)->0)->0,
            guard.store.loaded_spec(req, depot)->0,
        ),
{
}

/// Fallback law, accepting direction: a token that the `i`th configured
/// fallback cipher verifies against the secret is accepted by the guard's
/// cipher chain, whatever the primary cipher says of it.
pub proof fn lemma_fallback_accepted<C: CsrfCipher, S: CsrfStore>(
    guard: Csrf<C, S>,
    i: int,
    token: Seq<u8>,
    secret: Seq<u8>,
)
    requires
        0 <= i < guard.fallback_ciphers@.len(),
        any_verifies(guard.fallback_ciphers@[i], token, secret),
    ensures
        guard.verify_any_spec(token, secret),
{
}

/// Fallback law, rejecting direction: when the primary cipher rejects the
/// token and no configured fallback cipher verifies it, the guard's cipher
/// chain rejects it.
pub proof fn lemma_fallback_rejected<C: CsrfCipher, S: CsrfStore>(
    guard: Csrf<C, S>,
    token: Seq<u8>,
    secret: Seq<u8>,
)
    requires
        !guard.cipher.verify_spec(token, secret),
        forall|i: int| 0 <= i < guard.fallback_ciphers@.len() ==> !any_verifies(
            #[trigger] guard.fallback_ciphers@[i],
            token,
            secret,
        ),
    ensures
        !guard.verify_any_spec(token, secret),
{
}

} // verus!

