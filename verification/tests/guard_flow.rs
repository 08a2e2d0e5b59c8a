use salvo_csrf::{
    BcryptCipher, CookieStore, Csrf, CsrfDepotExt, Depot, FlowCtrl, FormFinder, HeaderFinder,
    HmacCipher, Method, QueryFinder, Request, Response,
};

fn empty_request(method: Method) -> Request {
    Request {
        method,
        headers: vec![],
        queries: vec![],
        form_fields: vec![],
        body_json: None,
        cookies: vec![],
    }
}

fn pairs(list: &[(&str, &str)]) -> Vec<(String, String)> {
    list.iter().map(|(k, v)| (k.to_string(), v.to_string())).collect()
}

struct Outcome {
    depot: Depot,
    res: Response,
    ceased: bool,
}

fn run<C: salvo_csrf::CsrfCipher, S: salvo_csrf::CsrfStore>(
    csrf: &Csrf<C, S>,
    req: &Request,
    depot: Depot,
) -> Outcome {
    let mut depot = depot;
    let mut res = Response::new();
    let mut ctrl = FlowCtrl::new();
    csrf.handle(req, &mut depot, &mut res, &mut ctrl);
    Outcome { depot, res, ceased: ctrl.is_ceased() }
}

fn secret_cookie(res: &Response) -> String {
    res.cookie(&"salvo.csrf.secret".to_string())
        .expect("the response carries the secret cookie")
        .clone()
}

#[test]
fn test_exposes_csrf_request_extensions() {
    let csrf = Csrf::new(
        BcryptCipher::new(),
        CookieStore::new(),
        HeaderFinder::new("x-csrf-token"),
    );
    let out = run(&csrf, &empty_request(Method::Get), Depot::new());
    assert!(!out.ceased && out.res.status_code.is_none());
    assert!(out.depot.csrf_token().is_some());
}

#[test]
fn test_adds_csrf_cookie_sets_request_token() {
    let csrf = Csrf::new(
        BcryptCipher::new(),
        CookieStore::new(),
        HeaderFinder::new("x-csrf-token"),
    );
    let out = run(&csrf, &empty_request(Method::Get), Depot::new());
    assert!(!out.ceased && out.res.status_code.is_none());
    assert_ne!(out.depot.csrf_token().expect("a token is exposed").as_str(), "");
    assert_ne!(out.res.cookie(&"salvo.csrf.secret".to_string()), None);
}

#[test]
fn test_validates_token_in_header() {
    let csrf = Csrf::new(
        BcryptCipher::new(),
        CookieStore::new(),
        HeaderFinder::new("x-csrf-token"),
    );
    let first = run(&csrf, &empty_request(Method::Get), Depot::new());
    assert!(!first.ceased && first.res.status_code.is_none());

    let csrf_token = first.depot.csrf_token().expect("a token is exposed").clone();
    let cookie = secret_cookie(&first.res);

    let bare = run(&csrf, &empty_request(Method::Post), Depot::new());
    assert_eq!(bare.res.status_code, Some(403));
    assert!(bare.ceased);

    let mut req = empty_request(Method::Post);
    req.headers = pairs(&[("x-csrf-token", &csrf_token)]);
    req.cookies = pairs(&[("salvo.csrf.secret", &cookie)]);
    let second = run(&csrf, &req, Depot::new());
    assert!(!second.ceased);
    assert!(second.res.status_code.is_none());
}

#[test]
fn test_validates_token_in_custom_header() {
    let csrf = Csrf::new(
        BcryptCipher::new(),
        CookieStore::new(),
        HeaderFinder::new("x-mycsrf-header"),
    );
    let first = run(&csrf, &empty_request(Method::Get), Depot::new());
    assert!(!first.ceased && first.res.status_code.is_none());

    let csrf_token = first.depot.csrf_token().expect("a token is exposed").clone();
    let cookie = secret_cookie(&first.res);

    let bare = run(&csrf, &empty_request(Method::Post), Depot::new());
    assert_eq!(bare.res.status_code, Some(403));

    let mut req = empty_request(Method::Post);
    req.headers = pairs(&[("x-mycsrf-header", &csrf_token)]);
    req.cookies = pairs(&[("salvo.csrf.secret", &cookie)]);
    let second = run(&csrf, &req, Depot::new());
    assert!(!second.ceased);
    assert!(second.res.status_code.is_none());
}

#[test]
fn test_validates_token_in_query() {
    let csrf = Csrf::new(BcryptCipher::new(), CookieStore::new(), QueryFinder::new());
    let first = run(&csrf, &empty_request(Method::Get), Depot::new());
    assert!(!first.ceased && first.res.status_code.is_none());

    let csrf_token = first.depot.csrf_token().expect("a token is exposed").clone();
    let cookie = secret_cookie(&first.res);

    let bare = run(&csrf, &empty_request(Method::Post), Depot::new());
    assert_eq!(bare.res.status_code, Some(403));

    let mut req = empty_request(Method::Post);
    req.queries = pairs(&[("a", "1"), ("csrf-token", &csrf_token), ("b", "2")]);
    req.cookies = pairs(&[("salvo.csrf.secret", &cookie)]);
    let second = run(&csrf, &req, Depot::new());
    assert!(!second.ceased);
    assert!(second.res.status_code.is_none());
}

#[test]
fn test_validates_token_in_alternate_query() {
    let csrf = Csrf::new(
        HmacCipher::new(*b"01234567012345670123456701234567"),
        CookieStore::new(),
        QueryFinder::new().with_query_name("my-csrf-token"),
    );
    let first = run(&csrf, &empty_request(Method::Get), Depot::new());
    assert!(!first.ceased && first.res.status_code.is_none());

    let csrf_token = first.depot.csrf_token().expect("a token is exposed").clone();
    let cookie = secret_cookie(&first.res);

    let bare = run(&csrf, &empty_request(Method::Post), Depot::new());
    assert_eq!(bare.res.status_code, Some(403));

    let mut req = empty_request(Method::Post);
    req.queries = pairs(&[("a", "1"), ("my-csrf-token", &csrf_token), ("b", "2")]);
    req.cookies = pairs(&[("salvo.csrf.secret", &cookie)]);
    let second = run(&csrf, &req, Depot::new());
    assert!(!second.ceased);
    assert!(second.res.status_code.is_none());
}

#[test]
fn test_validates_token_in_form() {
    let csrf = Csrf::new(
        HmacCipher::new(*b"01234567012345670123456701234567"),
        CookieStore::new(),
        FormFinder::new("csrf-token"),
    );
    let first = run(&csrf, &empty_request(Method::Get), Depot::new());
    assert!(!first.ceased && first.res.status_code.is_none());

    let csrf_token = first.depot.csrf_token().expect("a token is exposed").clone();
    let cookie = secret_cookie(&first.res);

    let bare = run(&csrf, &empty_request(Method::Post), Depot::new());
    assert_eq!(bare.res.status_code, Some(403));

    let mut req = empty_request(Method::Post);
    req.form_fields = pairs(&[("a", "1"), ("csrf-token", &csrf_token), ("b", "2")]);
    req.cookies = pairs(&[("salvo.csrf.secret", &cookie)]);
    let second = run(&csrf, &req, Depot::new());
    assert!(!second.ceased);
    assert!(second.res.status_code.is_none());
}

#[test]
fn test_validates_token_in_alternate_form() {
    let csrf = Csrf::new(
        BcryptCipher::new(),
        CookieStore::new(),
        FormFinder::new("my-csrf-token"),
    );
    let first = run(&csrf, &empty_request(Method::Get), Depot::new());
    assert!(!first.ceased && first.res.status_code.is_none());

    let csrf_token = first.depot.csrf_token().expect("a token is exposed").clone();
    let cookie = secret_cookie(&first.res);

    let bare = run(&csrf, &empty_request(Method::Post), Depot::new());
    assert_eq!(bare.res.status_code, Some(403));

    let mut req = empty_request(Method::Post);
    req.form_fields = pairs(&[("a", "1"), ("my-csrf-token", &csrf_token), ("b", "2")]);
    req.cookies = pairs(&[("salvo.csrf.secret", &cookie)]);
    let second = run(&csrf, &req, Depot::new());
    assert!(!second.ceased);
    assert!(second.res.status_code.is_none());
}

#[test]
fn test_rejects_short_token() {
    let csrf = Csrf::new(
        BcryptCipher::new(),
        CookieStore::new(),
        HeaderFinder::new("x-csrf-token"),
    );
    let first = run(&csrf, &empty_request(Method::Get), Depot::new());
    assert!(!first.ceased && first.res.status_code.is_none());

    let cookie = secret_cookie(&first.res);

    let bare = run(&csrf, &empty_request(Method::Post), Depot::new());
    assert_eq!(bare.res.status_code, Some(403));

    let mut req = empty_request(Method::Post);
    req.headers = pairs(&[("x-csrf-token", "aGVsbG8=")]);
    req.cookies = pairs(&[("salvo.csrf.secret", &cookie)]);
    let second = run(&csrf, &req, Depot::new());
    assert_eq!(second.res.status_code, Some(403));
    assert!(second.ceased);
}

#[test]
fn test_rejects_invalid_base64_token() {
    let csrf = Csrf::new(
        BcryptCipher::new(),
        CookieStore::new(),
        HeaderFinder::new("x-csrf-token"),
    );
    let first = run(&csrf, &empty_request(Method::Get), Depot::new());
    assert!(!first.ceased && first.res.status_code.is_none());

    let cookie = secret_cookie(&first.res);

    let bare = run(&csrf, &empty_request(Method::Post), Depot::new());
    assert_eq!(bare.res.status_code, Some(403));

    let mut req = empty_request(Method::Post);
    req.headers = pairs(&[("x-csrf-token", "aGVsbG8")]);
    req.cookies = pairs(&[("salvo.csrf.secret", &cookie)]);
    let second = run(&csrf, &req, Depot::new());
    assert_eq!(second.res.status_code, Some(403));
    assert!(second.ceased);
}

#[test]
fn test_rejects_mismatched_token() {
    let csrf = Csrf::new(
        BcryptCipher::new(),
        CookieStore::new(),
        HeaderFinder::new("x-csrf-token"),
    );
    let first = run(&csrf, &empty_request(Method::Get), Depot::new());
    assert!(!first.ceased && first.res.status_code.is_none());
    let csrf_token = first.depot.csrf_token().expect("a token is exposed").clone();

    let second = run(&csrf, &empty_request(Method::Get), Depot::new());
    assert!(!second.ceased && second.res.status_code.is_none());
    let cookie = secret_cookie(&second.res);

    let bare = run(&csrf, &empty_request(Method::Post), Depot::new());
    assert_eq!(bare.res.status_code, Some(403));

    let mut req = empty_request(Method::Post);
    req.headers = pairs(&[("x-csrf-token", &csrf_token)]);
    req.cookies = pairs(&[("salvo.csrf.secret", &cookie)]);
    let third = run(&csrf, &req, Depot::new());
    assert_eq!(third.res.status_code, Some(403));
    assert!(third.ceased);
}
