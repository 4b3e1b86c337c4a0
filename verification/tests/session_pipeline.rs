//! The session store and the token-learning request pipeline.

use roblox_api::clients::{
    build_request, classify_response, on_first_response, FirstStep, Method, Outcome, Response,
    SessionStore,
};

#[test]
fn cookies_last_write_wins() {
    let mut store = SessionStore::new();
    assert!(store.get_cookie("a").is_none());
    store.insert_cookie("a", "1");
    store.insert_cookie("b", "2");
    store.insert_cookie("a", "3");
    assert_eq!(store.get_cookie("a").unwrap(), "3");
    assert_eq!(store.get_cookie("b").unwrap(), "2");
    store.remove_cookie("a");
    assert!(store.get_cookie("a").is_none());
    assert_eq!(store.get_cookie("b").unwrap(), "2");
    store.clear_cookies();
    assert!(store.get_cookie("b").is_none());
}

#[test]
fn auth_cookie_is_seeded_and_replaceable() {
    let mut store = SessionStore::with_auth_cookie("secret");
    assert_eq!(store.get_cookie(".roblosecurity").unwrap(), "secret");
    store.set_auth_cookie("fresh");
    assert_eq!(store.get_cookie(".roblosecurity").unwrap(), "fresh");
    // the setter replaces the seeded cookie rather than adding a second one
    assert_eq!(store.cookie_header().unwrap(), ".roblosecurity=fresh");
}

#[test]
fn cookie_header_joins_all_pairs() {
    let mut store = SessionStore::new();
    assert!(store.cookie_header().is_none());
    store.insert_cookie("a", "1");
    assert_eq!(store.cookie_header().unwrap(), "a=1");
    store.insert_cookie("b", "2");
    let h = store.cookie_header().unwrap();
    assert!(h == "a=1; b=2" || h == "b=2; a=1");
    store.clear_cookies();
    assert!(store.cookie_header().is_none());
}

#[test]
fn token_slot_last_write_wins() {
    let mut store = SessionStore::new();
    assert!(store.current_token().is_none());
    store.store_token("one");
    assert_eq!(store.current_token().unwrap(), "one");
    store.store_token("two");
    assert_eq!(store.current_token().unwrap(), "two");
}

#[test]
fn build_request_without_payload_declares_empty_body() {
    let r = build_request(
        Method::Post,
        String::from("https://example.test/x"),
        vec![(String::from("k"), String::from("v"))],
        None,
        None,
    );
    assert_eq!(r.body.as_deref(), Some(""));
    assert_eq!(
        r.headers,
        vec![
            (String::from("Content-Length"), String::from("0")),
            (String::from("Content-Type"), String::from("application/json")),
        ]
    );
    assert_eq!(r.query, vec![(String::from("k"), String::from("v"))]);
}

#[test]
fn build_request_with_payload_sends_it() {
    let r = build_request(
        Method::Post,
        String::from("https://example.test/x"),
        vec![],
        Some(String::from("{\"a\":1}")),
        None,
    );
    assert_eq!(r.body.as_deref(), Some("{\"a\":1}"));
    assert_eq!(
        r.headers,
        vec![(String::from("Content-Type"), String::from("application/json"))]
    );
}

#[test]
fn build_request_attaches_token_to_writes_only() {
    let token = String::from("tok");
    let get = build_request(
        Method::Get,
        String::from("https://example.test/x"),
        vec![],
        None,
        Some(&token),
    );
    assert!(!get.headers.iter().any(|h| h.0 == "x-csrf-token"));

    let post = build_request(
        Method::Post,
        String::from("https://example.test/x"),
        vec![],
        None,
        Some(&token),
    );
    let last = post.headers.last().unwrap();
    assert_eq!(last.0, "x-csrf-token");
    assert_eq!(last.1, "tok");
}

#[test]
fn token_learning_resends_once_with_learnt_token() {
    let mut store = SessionStore::new();
    let parts = build_request(
        Method::Post,
        String::from("https://example.test/x"),
        vec![],
        None,
        None,
    );
    let first = Response {
        status: 403,
        csrf_token: Some(String::from("tok-1")),
        body: String::from(""),
    };
    let step = on_first_response(&mut store, parts, &first);
    match step {
        FirstStep::Resend(p) => {
            let last = p.headers.last().unwrap();
            assert_eq!(last.0, "x-csrf-token");
            assert_eq!(last.1, "tok-1");
            assert_eq!(p.url, "https://example.test/x");
        }
        FirstStep::Done(_) => panic!("a token-bearing response must trigger one resend"),
    }
    assert_eq!(store.current_token().unwrap(), "tok-1");

    // the retry's response carries another token: it is not re-read, so the
    // cached token stays and nothing resends again
    let second = Response {
        status: 200,
        csrf_token: Some(String::from("tok-2")),
        body: String::from("[1]"),
    };
    let out = classify_response(&second);
    match out {
        Outcome::Decode(b) => assert_eq!(b, "[1]"),
        Outcome::RateLimited => panic!("status 200 is no rate limit"),
    }
    assert_eq!(store.current_token().unwrap(), "tok-1");
}

#[test]
fn response_without_token_is_final() {
    let mut store = SessionStore::new();
    store.store_token("kept");
    let parts = build_request(
        Method::Get,
        String::from("https://example.test/x"),
        vec![],
        None,
        None,
    );
    let resp = Response {
        status: 200,
        csrf_token: None,
        body: String::from("{}"),
    };
    let step = on_first_response(&mut store, parts, &resp);
    match step {
        FirstStep::Done(Outcome::Decode(b)) => assert_eq!(b, "{}"),
        _ => panic!("a token-free response is final"),
    }
    assert_eq!(store.current_token().unwrap(), "kept");
}

#[test]
fn status_429_is_rate_limited_and_never_decoded() {
    let resp = Response {
        status: 429,
        csrf_token: None,
        body: String::from("{\"data\":[]}"),
    };
    match classify_response(&resp) {
        Outcome::RateLimited => {}
        Outcome::Decode(_) => panic!("status 429 must not reach the decode path"),
    }

    let mut store = SessionStore::new();
    let parts = build_request(
        Method::Get,
        String::from("https://example.test/x"),
        vec![],
        None,
        None,
    );
    let step = on_first_response(&mut store, parts, &resp);
    assert!(matches!(step, FirstStep::Done(Outcome::RateLimited)));
}
