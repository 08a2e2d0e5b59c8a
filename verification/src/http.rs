//! The request-side model the middleware works on: method, headers, query
//! parameters, form fields, a structured body, cookies, a per-request value
//! store (depot) with an optional server-side session, a response under
//! construction, and the flow control flag that decides whether downstream
//! handlers run.

use vstd::prelude::*;

verus! {

/// An HTTP request method.
#[derive(Clone, Copy, PartialEq, Eq, Structural, Debug)]
pub enum Method {
    Get,
    Head,
    Options,
    Trace,
    Connect,
    Post,
    Put,
    Patch,
    Delete,
}

/// A structured request body, as far as token lookup needs to see it:
/// string leaves and nested objects; everything else is opaque.
pub enum JsonValue {
    /// A string leaf.
    Str(String),
    /// An object: named fields in document order.
    Object(Vec<(String, JsonValue)>),
    /// Any other value (number, boolean, array, null).
    Other,
}

/// First value bound to `name` in an association list, or `None`.
pub open spec fn assoc_lookup(entries: Seq<(String, String)>, name: Seq<char>) -> Option<Seq<char>>
    decreases entries.len(),
{
    if entries.len() == 0 {
        None
    } else if entries.first().0@ == name {
        Some(entries.first().1@)
    } else {
        assoc_lookup(entries.drop_first(), name)
    }
}

/// Linear scan for the first entry named `name`.
pub fn assoc_get<'a>(entries: &'a Vec<(String, String)>, name: &String) -> (r: Option<&'a String>)
    ensures
        match r {
            Some(v) => assoc_lookup(entries@, name@) == Some(v@),
            None => assoc_lookup(entries@, name@) is None,
        },
{
    let n = entries.len();
    let mut i: usize = 0;
    proof {
        assert(entries@.skip(0) =~= entries@);
    }
    while i < n
        invariant
            i <= n,
            n == entries@.len(),
            assoc_lookup(entries@, name@) == assoc_lookup(entries@.skip(i as int), name@),
        decreases n - i,
    {
        if entries[i].0 == *name {
            proof {
                assert(entries@.skip(i as int).first() == entries@[i as int]);
            }
            return Some(&entries[i].1);
        }
        proof {
            assert(entries@.skip(i as int).first() == entries@[i as int]);
            assert(entries@.skip(i as int).drop_first() =~= entries@.skip(i as int + 1));
        }
        i = i + 1;
    }
    proof {
        assert(entries@.skip(n as int) =~= Seq::<(String, String)>::empty());
    }
    None
}

/// Bind `name` to `value`, shadowing any earlier binding.
pub fn assoc_put(entries: &mut Vec<(String, String)>, name: &str, value: String)
    ensures
        assoc_lookup(final(entries)@, name@) == Some(value@),
        forall|n: Seq<char>| n != name@ ==> assoc_lookup(final(entries)@, n) == assoc_lookup(
            old(entries)@,
            n,
        ),
        final(entries)@.len() == old(entries)@.len() + 1,
{
    let pair = (name.to_owned(), value);
    entries.insert(0, pair);
    proof {
        assert(entries@.drop_first() =~= old(entries)@);
    }
}

/// An inbound request, reduced to the parts the middleware reads.
pub struct Request {
    /// The request method.
    pub method: Method,
    /// Header names and values; names are expected in lower case.
    pub headers: Vec<(String, String)>,
    /// Query parameters in order of appearance.
    pub queries: Vec<(String, String)>,
    /// Form fields in order of appearance.
    pub form_fields: Vec<(String, String)>,
    /// The structured body, if the request carried one.
    pub body_json: Option<JsonValue>,
    /// Cookies sent by the client.
    pub cookies: Vec<(String, String)>,
}

/// The response under construction.
pub struct Response {
    /// The status code, once one has been set.
    pub status_code: Option<u16>,
    /// Cookies to be sent back to the client.
    pub cookies: Vec<(String, String)>,
}

impl Response {
    /// A response with no status and no cookies.
    pub fn new() -> (r: Response)
        ensures
            r.status_code is None,
            r.cookies@.len() == 0,
    {
        Response { status_code: None, cookies: Vec::new() }
    }

    /// Set the status code, leaving the cookies alone.
    pub fn set_status_code(&mut self, code: u16)
        ensures
            final(self).status_code == Some(code),
            final(self).cookies == old(self).cookies,
    {
        self.status_code = Some(code);
    }

    /// Set a cookie, replacing any earlier one of the same name.
    pub fn set_cookie(&mut self, name: &str, value: String)
        ensures
            assoc_lookup(final(self).cookies@, name@) == Some(value@),
            forall|n: Seq<char>| n != name@ ==> assoc_lookup(final(self).cookies@, n)
                == assoc_lookup(old(self).cookies@, n),
            final(self).status_code == old(self).status_code,
    {
        assoc_put(&mut self.cookies, name, value);
    }

    /// The value of the cookie named `name`, if one has been set.
    pub fn cookie<'a>(&'a self, name: &String) -> (r: Option<&'a String>)
        ensures
            match r {
                Some(v) => assoc_lookup(self.cookies@, name@) == Some(v@),
                None => assoc_lookup(self.cookies@, name@) is None,
            },
    {
        assoc_get(&self.cookies, name)
    }
}

/// The per-request value store handed from middleware to handlers, with an
/// optional server-side session attached by session middleware.
pub struct Depot {
    /// Request-scoped values, keyed by string.
    pub entries: Vec<(String, String)>,
    /// The session data, when session middleware has attached one.
    pub session: Option<Vec<(String, String)>>,
}

impl Depot {
    /// An empty depot without a session.
    pub fn new() -> (d: Depot)
        ensures
            d.entries@.len() == 0,
            d.session is None,
    {
        Depot { entries: Vec::new(), session: None }
    }

    /// An empty depot with an empty session attached.
    pub fn with_session() -> (d: Depot)
        ensures
            d.entries@.len() == 0,
            d.session is Some,
            d.session->0@ == Seq::<(String, String)>::empty(),
    {
        let d = Depot { entries: Vec::new(), session: Some(Vec::new()) };
        proof {
            assert(d.session->0@ =~= Seq::<(String, String)>::empty());
        }
        d
    }

    /// The value bound to `key`, if any.
    pub open spec fn value_of(self, key: Seq<char>) -> Option<Seq<char>> {
        assoc_lookup(self.entries@, key)
    }

    /// Bind `key` to `value`, shadowing any earlier binding.
    pub fn insert(&mut self, key: &str, value: String)
        ensures
            final(self).value_of(key@) == Some(value@),
            forall|n: Seq<char>| n != key@ ==> final(self).value_of(n) == old(self).value_of(n),
            final(self).session == old(self).session,
    {
        assoc_put(&mut self.entries, key, value);
    }

    /// The value bound to `key`, if any.
    pub fn get<'a>(&'a self, key: &String) -> (r: Option<&'a String>)
        ensures
            match r {
                Some(v) => self.value_of(key@) == Some(v@),
                None => self.value_of(key@) is None,
            },
    {
        assoc_get(&self.entries, key)
    }
}

/// Decides whether the rest of the handler chain still runs.
pub struct FlowCtrl {
    /// True once the middleware has cut the chain off.
    pub ceased: bool,
}

impl FlowCtrl {
    /// A fresh control with the chain still live.
    pub fn new() -> (c: FlowCtrl)
        ensures
            !c.ceased,
    {
        FlowCtrl { ceased: false }
    }

    /// Cut the rest of the handler chain off.
    pub fn skip_rest(&mut self)
        ensures
            final(self).ceased,
    {
        self.ceased = true;
    }

    /// Whether the chain has been cut off.
    pub fn is_ceased(&self) -> (r: bool)
        ensures
            r == self.ceased,
    {
        self.ceased
    }
}

} // verus!
