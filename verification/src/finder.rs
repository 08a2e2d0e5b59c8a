//! Token lookup in an inbound request: by header, query parameter, form
//! field, or a dotted path into a structured body. Finders have no side
//! effects on the request.

use vstd::prelude::*;

use crate::http::{assoc_get, assoc_lookup, JsonValue, Request};

verus! {

/// Locates a candidate token string in a request.
pub trait CsrfTokenFinder: Sized {
    /// The token this finder sees in `req`, if any.
    spec fn find_spec(&self, req: Request) -> Option<Seq<char>>;

    /// Find token from request.
    fn find_token(&self, req: &Request) -> (r: Option<String>)
        ensures
            match r {
                Some(t) => self.find_spec(*req) == Some(t@),
                None => self.find_spec(*req) is None,
            },
    ;

    /// This finder as a member of the uniform finder list, finding exactly
    /// the same tokens.
    fn into_finder(self) -> (f: AnyFinder)
        ensures
            forall|req: Request| #[trigger] any_find(f, req) == self.find_spec(req),
    ;
}

/// Finds the token in a named header.
pub struct HeaderFinder {
    /// The header name, in lower case.
    pub header_name: String,
}

impl HeaderFinder {
    /// A finder for the given header.
    pub fn new(header_name: &str) -> (f: HeaderFinder)
        ensures
            f.header_name@ == header_name@,
    {
        HeaderFinder { header_name: header_name.to_owned() }
    }

    /// The value of the named header, if present.
    pub open spec fn found_in(self, req: Request) -> Option<Seq<char>> {
        assoc_lookup(req.headers@, self.header_name@)
    }
}

impl CsrfTokenFinder for HeaderFinder {
    open spec fn find_spec(&self, req: Request) -> Option<Seq<char>> {
        self.found_in(req)
    }

    fn find_token(&self, req: &Request) -> (r: Option<String>) {
        match assoc_get(&req.headers, &self.header_name) {
            Some(v) => Some(v.clone()),
            None => None,
        }
    }

    fn into_finder(self) -> (f: AnyFinder) {
        AnyFinder::Header(self)
    }
}

/// Finds the token in a named query parameter.
pub struct QueryFinder {
    /// The query parameter name.
    pub query_name: String,
}

impl QueryFinder {
    /// A finder for the customary parameter name.
    pub fn new() -> (f: QueryFinder)
        ensures
            f.query_name@ == "csrf-token"@,
    {
        QueryFinder { query_name: "csrf-token".to_owned() }
    }

    /// The same finder under another parameter name.
    pub fn with_query_name(self, query_name: &str) -> (f: QueryFinder)
        ensures
            f.query_name@ == query_name@,
    {
        QueryFinder { query_name: query_name.to_owned() }
    }

    /// The value of the named query parameter, if present.
    pub open spec fn found_in(self, req: Request) -> Option<Seq<char>> {
        assoc_lookup(req.queries@, self.query_name@)
    }
}

impl CsrfTokenFinder for QueryFinder {
    open spec fn find_spec(&self, req: Request) -> Option<Seq<char>> {
        self.found_in(req)
    }

    fn find_token(&self, req: &Request) -> (r: Option<String>) {
        match assoc_get(&req.queries, &self.query_name) {
            Some(v) => Some(v.clone()),
            None => None,
        }
    }

    fn into_finder(self) -> (f: AnyFinder) {
        AnyFinder::Query(self)
    }
}

/// Finds the token in a named form field.
pub struct FormFinder {
    /// The form field name.
    pub field_name: String,
}

impl FormFinder {
    /// A finder for the given form field.
    pub fn new(field_name: &str) -> (f: FormFinder)
        ensures
            f.field_name@ == field_name@,
    {
        FormFinder { field_name: field_name.to_owned() }
    }

    /// The value of the named form field, if present.
    pub open spec fn found_in(self, req: Request) -> Option<Seq<char>> {
        assoc_lookup(req.form_fields@, self.field_name@)
    }
}

impl CsrfTokenFinder for FormFinder {
    open spec fn find_spec(&self, req: Request) -> Option<Seq<char>> {
        self.found_in(req)
    }

    fn find_token(&self, req: &Request) -> (r: Option<String>) {
        match assoc_get(&req.form_fields, &self.field_name) {
            Some(v) => Some(v.clone()),
            None => None,
        }
    }

    fn into_finder(self) -> (f: AnyFinder) {
        AnyFinder::Form(self)
    }
}

/// First field named `name` in an object's field list, or `None`.
pub open spec fn json_field_lookup(fields: Seq<(String, JsonValue)>, name: Seq<char>) -> Option<
    JsonValue,
>
    decreases fields.len(),
{
    if fields.len() == 0 {
        None
    } else if fields.first().0@ == name {
        Some(fields.first().1)
    } else {
        json_field_lookup(fields.drop_first(), name)
    }
}

/// The string leaf reached from `v` along `path`, descending objects by
/// field name, or `None` where the path leaves the document.
pub open spec fn json_path_lookup(v: JsonValue, path: Seq<String>) -> Option<Seq<char>>
    decreases path.len(),
{
    if path.len() == 0 {
        match v {
            JsonValue::Str(s) => Some(s@),
            _ => None,
        }
    } else {
        match v {
            JsonValue::Object(fields) => match json_field_lookup(fields@, path.first()@) {
                Some(child) => json_path_lookup(child, path.drop_first()),
                None => None,
            },
            _ => None,
        }
    }
}

/// Linear scan for the first object field named `name`.
fn json_field_get<'a>(fields: &'a Vec<(String, JsonValue)>, name: &String) -> (r: Option<
    &'a JsonValue,
>)
    ensures
        match r {
            Some(v) => json_field_lookup(fields@, name@) == Some(*v),
            None => json_field_lookup(fields@, name@) is None,
        },
{
    let n = fields.len();
    let mut i: usize = 0;
    proof {
        assert(fields@.skip(0) =~= fields@);
    }
    while i < n
        invariant
            i <= n,
            n == fields@.len(),
            json_field_lookup(fields@, name@) == json_field_lookup(fields@.skip(i as int), name@),
        decreases n - i,
    {
        if fields[i].0 == *name {
            proof {
                assert(fields@.skip(i as int).first() == fields@[i as int]);
            }
            return Some(&fields[i].1);
        }
        proof {
            assert(fields@.skip(i as int).first() == fields@[i as int]);
            assert(fields@.skip(i as int).drop_first() =~= fields@.skip(i as int + 1));
        }
        i = i + 1;
    }
    proof {
        assert(fields@.skip(n as int) =~= Seq::<(String, JsonValue)>::empty());
    }
    None
}

/// Walk `path` down from `v` to a string leaf.
fn json_path_get(v: &JsonValue, path: &Vec<String>) -> (r: Option<String>)
    ensures
        match r {
            Some(t) => json_path_lookup(*v, path@) == Some(t@),
            None => json_path_lookup(*v, path@) is None,
        },
{
    let mut cur: &JsonValue = v;
    let n = path.len();
    let mut i: usize = 0;
    proof {
        assert(path@.skip(0) =~= path@);
    }
    while i < n
        invariant
            i <= n,
            n == path@.len(),
            json_path_lookup(*v, path@) == json_path_lookup(*cur, path@.skip(i as int)),
        decreases n - i,
    {
        proof {
            assert(path@.skip(i as int).first() == path@[i as int]);
            assert(path@.skip(i as int).drop_first() =~= path@.skip(i as int + 1));
        }
        match cur {
            JsonValue::Object(fields) => {
                match json_field_get(fields, &path[i]) {
                    Some(child) => {
                        cur = child;
                    },
                    None => {
                        return None;
                    },
                }
            },
            _ => {
                return None;
            },
        }
        i = i + 1;
    }
    proof {
        assert(path@.skip(n as int) =~= Seq::<String>::empty());
    }
    match cur {
        JsonValue::Str(s) => Some(s.clone()),
        _ => None,
    }
}

/// Finds the token at a dotted path into the structured body.
pub struct JsonFinder {
    /// The path, one segment per element.
    pub path: Vec<String>,
}

impl JsonFinder {
    /// A finder for the given path into the body.
    pub fn new(path: Vec<String>) -> (f: JsonFinder)
        ensures
            f.path == path,
    {
        JsonFinder { path }
    }

    /// The string leaf at the path, if the request has a structured body
    /// containing one.
    pub open spec fn found_in(self, req: Request) -> Option<Seq<char>> {
        match req.body_json {
            Some(v) => json_path_lookup(v, self.path@),
            None => None,
        }
    }
}

impl CsrfTokenFinder for JsonFinder {
    open spec fn find_spec(&self, req: Request) -> Option<Seq<char>> {
        self.found_in(req)
    }

    fn find_token(&self, req: &Request) -> (r: Option<String>) {
        match &req.body_json {
            Some(v) => json_path_get(v, &self.path),
            None => None,
        }
    }

    fn into_finder(self) -> (f: AnyFinder) {
        AnyFinder::Json(self)
    }
}

/// Any of the finder kinds, for the uniform ordered finder list.
pub enum AnyFinder {
    /// Header lookup.
    Header(HeaderFinder),
    /// Query parameter lookup.
    Query(QueryFinder),
    /// Form field lookup.
    Form(FormFinder),
    /// Structured-body lookup.
    Json(JsonFinder),
}

/// The token the finder `f` sees in `req`, if any.
pub open spec fn any_find(f: AnyFinder, req: Request) -> Option<Seq<char>> {
    match f {
        AnyFinder::Header(inner) => inner.found_in(req),
        AnyFinder::Query(inner) => inner.found_in(req),
        AnyFinder::Form(inner) => inner.found_in(req),
        AnyFinder::Json(inner) => inner.found_in(req),
    }
}

impl CsrfTokenFinder for AnyFinder {
    open spec fn find_spec(&self, req: Request) -> Option<Seq<char>> {
        any_find(*self, req)
    }

    fn find_token(&self, req: &Request) -> (r: Option<String>) {
        match self {
            AnyFinder::Header(inner) => inner.find_token(req),
            AnyFinder::Query(inner) => inner.find_token(req),
            AnyFinder::Form(inner) => inner.find_token(req),
            AnyFinder::Json(inner) => inner.find_token(req),
        }
    }

    fn into_finder(self) -> (f: AnyFinder) {
        self
    }
}

} // verus!
