//! Cookie-backed secret store: the secret travels base64-encoded in one
//! response cookie of fixed name and is read back from the same request
//! cookie; no server-side state.

use vstd::prelude::*;

use crate::http::{assoc_get, assoc_lookup, Depot, Request, Response};
use crate::transport::{b64_decoded, b64_of, url_safe_decode, url_safe_encode};
use crate::{CsrfStore, StoreError};

verus! {

/// Cookie-backed secret store.
pub struct CookieStore {
    /// The cookie name.
    pub cookie_name: String,
}

impl CookieStore {
    /// A store over the customary cookie name.
    pub fn new() -> (s: CookieStore)
        ensures
            s.cookie_name@ == "salvo.csrf.secret"@,
    {
        CookieStore { cookie_name: "salvo.csrf.secret".to_owned() }
    }
}

impl CsrfStore for CookieStore {
    open spec fn loaded_spec(&self, req: Request, depot: Depot) -> Option<Seq<u8>> {
        match assoc_lookup(req.cookies@, self.cookie_name@) {
            Some(text) => b64_decoded(text),
            None => None,
        }
    }

    open spec fn saved_spec(
        &self,
        old_depot: Depot,
        old_res: Response,
        secret: Seq<u8>,
        new_depot: Depot,
        new_res: Response,
        ok: bool,
    ) -> bool {
        &&& ok
        &&& new_depot == old_depot
        &&& new_res.status_code == old_res.status_code
        &&& assoc_lookup(new_res.cookies@, self.cookie_name@) == Some(b64_of(secret))
        &&& b64_decoded(b64_of(secret)) == Some(secret)
        &&& forall|n: Seq<char>|
            n != self.cookie_name@ ==> assoc_lookup(new_res.cookies@, n) == assoc_lookup(
                old_res.cookies@,
                n,
            )
    }

    fn load_secret(&self, req: &Request, _depot: &Depot) -> (r: Option<Vec<u8>>) {
        match assoc_get(&req.cookies, &self.cookie_name) {
            Some(text) => url_safe_decode(text.as_str()),
            None => None,
        }
    }

    fn save_secret(
        &self,
        _req: &Request,
        _depot: &mut Depot,
        res: &mut Response,
        secret: &[u8],
    ) -> (r: Result<(), StoreError>) {
        let encoded = url_safe_encode(secret);
        res.set_cookie(self.cookie_name.as_str(), encoded);
        Ok(())
    }
}

} // verus!
