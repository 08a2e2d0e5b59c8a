use salvo_csrf::{
    CsrfTokenFinder, FormFinder, HeaderFinder, JsonFinder, JsonValue, Method, QueryFinder, Request,
};

fn request_with(method: Method) -> Request {
    Request {
        method,
        headers: vec![],
        queries: vec![],
        form_fields: vec![],
        body_json: None,
        cookies: vec![],
    }
}

#[test]
fn test_header_finder_picks_named_header() {
    let finder = HeaderFinder::new("x-csrf-token");
    let mut req = request_with(Method::Post);
    req.headers = vec![
        ("accept".to_string(), "text/html".to_string()),
        ("x-csrf-token".to_string(), "tok-1".to_string()),
    ];
    assert_eq!(finder.find_token(&req), Some("tok-1".to_string()));
}

#[test]
fn test_header_finder_misses_absent_header() {
    let finder = HeaderFinder::new("x-csrf-token");
    let mut req = request_with(Method::Post);
    req.headers = vec![("accept".to_string(), "text/html".to_string())];
    assert_eq!(finder.find_token(&req), None);
}

#[test]
fn test_query_finder_default_name() {
    let finder = QueryFinder::new();
    let mut req = request_with(Method::Post);
    req.queries = vec![
        ("a".to_string(), "1".to_string()),
        ("csrf-token".to_string(), "tok-q".to_string()),
    ];
    assert_eq!(finder.find_token(&req), Some("tok-q".to_string()));
}

#[test]
fn test_query_finder_custom_name() {
    let finder = QueryFinder::new().with_query_name("my-csrf-token");
    let mut req = request_with(Method::Post);
    req.queries = vec![
        ("csrf-token".to_string(), "wrong".to_string()),
        ("my-csrf-token".to_string(), "tok-q2".to_string()),
    ];
    assert_eq!(finder.find_token(&req), Some("tok-q2".to_string()));
}

#[test]
fn test_form_finder_picks_named_field() {
    let finder = FormFinder::new("csrf-token");
    let mut req = request_with(Method::Post);
    req.form_fields = vec![
        ("b".to_string(), "2".to_string()),
        ("csrf-token".to_string(), "tok-f".to_string()),
    ];
    assert_eq!(finder.find_token(&req), Some("tok-f".to_string()));
}

#[test]
fn test_json_finder_walks_dotted_path() {
    let finder = JsonFinder::new(vec!["data".to_string(), "csrf".to_string()]);
    let mut req = request_with(Method::Post);
    req.body_json = Some(JsonValue::Object(vec![
        ("other".to_string(), JsonValue::Other),
        (
            "data".to_string(),
            JsonValue::Object(vec![("csrf".to_string(), JsonValue::Str("tok-j".to_string()))]),
        ),
    ]));
    assert_eq!(finder.find_token(&req), Some("tok-j".to_string()));
}

#[test]
fn test_json_finder_misses_wrong_path() {
    let finder = JsonFinder::new(vec!["data".to_string(), "token".to_string()]);
    let mut req = request_with(Method::Post);
    req.body_json = Some(JsonValue::Object(vec![(
        "data".to_string(),
        JsonValue::Object(vec![("csrf".to_string(), JsonValue::Str("tok-j".to_string()))]),
    )]));
    assert_eq!(finder.find_token(&req), None);
    let no_body = request_with(Method::Post);
    assert_eq!(finder.find_token(&no_body), None);
}

#[test]
fn test_json_finder_rejects_non_string_leaf() {
    let finder = JsonFinder::new(vec!["data".to_string()]);
    let mut req = request_with(Method::Post);
    req.body_json = Some(JsonValue::Object(vec![("data".to_string(), JsonValue::Other)]));
    assert_eq!(finder.find_token(&req), None);
}

#[test]
fn test_finder_chain_order() {
    let csrf = salvo_csrf::Csrf::new(
        salvo_csrf::HmacCipher::new(*b"01234567012345670123456701234567"),
        salvo_csrf::CookieStore::new(),
        HeaderFinder::new("x-csrf-token"),
    )
    .add_finder(QueryFinder::new());

    let issue = {
        let mut depot = salvo_csrf::Depot::new();
        let mut res = salvo_csrf::Response::new();
        let mut ctrl = salvo_csrf::FlowCtrl::new();
        csrf.handle(&request_with(Method::Get), &mut depot, &mut res, &mut ctrl);
        let token = salvo_csrf::CsrfDepotExt::csrf_token(&depot).expect("token").clone();
        let cookie = res.cookie(&"salvo.csrf.secret".to_string()).expect("cookie").clone();
        (token, cookie)
    };

    // The token is found through the second finder when the first one
    // sees nothing.
    let mut via_query = request_with(Method::Post);
    via_query.queries = vec![("csrf-token".to_string(), issue.0.clone())];
    via_query.cookies = vec![("salvo.csrf.secret".to_string(), issue.1.clone())];
    let depot = salvo_csrf::Depot::new();
    assert_eq!(csrf.check_state(&via_query, &depot), salvo_csrf::CsrfState::Verified);

    // An earlier finder wins over a later one: a bad header shadows a good
    // query parameter.
    let mut shadowed = request_with(Method::Post);
    shadowed.headers = vec![("x-csrf-token".to_string(), "AAAA".to_string())];
    shadowed.queries = vec![("csrf-token".to_string(), issue.0)];
    shadowed.cookies = vec![("salvo.csrf.secret".to_string(), issue.1)];
    assert_eq!(csrf.check_state(&shadowed, &depot), salvo_csrf::CsrfState::VerifyFailed);
}
