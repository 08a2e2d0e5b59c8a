//! Session-backed secret store: the secret is written into the server-side
//! session object attached to the depot by session middleware, and read back
//! from the same session; saving fails when no session is attached.

use vstd::prelude::*;

use crate::http::{assoc_get, assoc_lookup, assoc_put, Depot, Request, Response};
use crate::transport::{b64_decoded, b64_of, url_safe_decode, url_safe_encode};
use crate::{CsrfStore, StoreError};

verus! {

/// Session-backed secret store.
pub struct SessionStore {
    /// The key under which the secret lives in the session.
    pub session_key: String,
}

impl SessionStore {
    /// A store over the customary session key.
    pub fn new() -> (s: SessionStore)
        ensures
            s.session_key@ == "salvo.csrf.secret"@,
    {
        SessionStore { session_key: "salvo.csrf.secret".to_owned() }
    }
}

impl CsrfStore for SessionStore {
    open spec fn loaded_spec(&self, req: Request, depot: Depot) -> Option<Seq<u8>> {
        match depot.session {
            Some(entries) => match assoc_lookup(entries@, self.session_key@) {
                Some(text) => b64_decoded(text),
                None => None,
            },
            None => None,
        }
    }

    open spec fn saved_spec(
        &self,
        old_depot: Depot,
        old_res: Response,
        secret: Seq<u8>,
        new_depot: Depot,
        new_res: Response,
        ok: bool,
    ) -> bool {
        match old_depot.session {
            None => !ok && new_depot == old_depot && new_res == old_res,
            Some(old_entries) => {
                &&& ok
                &&& new_res == old_res
                &&& new_depot.entries == old_depot.entries
                &&& new_depot.session is Some
                &&& assoc_lookup(new_depot.session->0@, self.session_key@) == Some(b64_of(secret))
                &&& b64_decoded(b64_of(secret)) == Some(secret)
                &&& forall|n: Seq<char>|
                    n != self.session_key@ ==> assoc_lookup(new_depot.session->0@, n)
                        == assoc_lookup(old_entries@, n)
            },
        }
    }

    fn load_secret(&self, _req: &Request, depot: &Depot) -> (r: Option<Vec<u8>>) {
        match &depot.session {
            Some(entries) => match assoc_get(entries, &self.session_key) {
                Some(text) => url_safe_decode(text.as_str()),
                None => None,
            },
            None => None,
        }
    }

    fn save_secret(
        &self,
        _req: &Request,
        depot: &mut Depot,
        _res: &mut Response,
        secret: &[u8],
    ) -> (r: Result<(), StoreError>) {
        let encoded = url_safe_encode(secret);
        match &mut depot.session {
            Some(entries) => {
                assoc_put(entries, self.session_key.as_str(), encoded);
                Ok(())
            },
            None => Err(StoreError::SessionUnavailable),
        }
    }
}

} // verus!
