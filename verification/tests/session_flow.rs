use oauth_loopback::http::CallbackError;
use oauth_loopback::registry::NonceRegistry;
use oauth_loopback::session::{open_session, ConnectionReply, SessionServer, MAX_CONNECTIONS};

fn post_request(body: &str) -> String {
    format!(
        "POST / HTTP/1.1\r\nHost: 127.0.0.1\r\nContent-Type: application/json\r\nContent-Length: {}\r\n\r\n{}",
        body.len(),
        body
    )
}

#[test]
fn end_to_end_success() {
    let mut registry = NonceRegistry::active_nonces();
    let mut session = open_session(&mut registry, 17902, String::from("abc123"));
    assert!(session.still_accepting());

    let request = post_request(r#"{"code":"XYZ","nonce":"abc123","state":"s1"}"#);
    let reply = session.handle_connection(&mut registry, &request);
    match reply {
        ConnectionReply::Succeeded { response, callback_url } => {
            assert!(response.starts_with("HTTP/1.1 200 OK\r\n"));
            assert!(response.ends_with("\r\n\r\n{\"success\":true}"));
            assert_eq!(callback_url, "http://localhost:17902?code=XYZ&state=s1");
        }
        other => panic!("expected success, got {:?}", reply_name(&other)),
    }
    assert!(!session.still_accepting());
    assert!(registry.lookup(17902).is_none());
}

#[test]
fn nonce_is_single_use() {
    let mut registry = NonceRegistry::active_nonces();
    let mut session = open_session(&mut registry, 17902, String::from("abc123"));
    let request = post_request(r#"{"code":"XYZ","nonce":"abc123","state":"s1"}"#);
    let first = session.handle_connection(&mut registry, &request);
    assert!(matches!(first, ConnectionReply::Succeeded { .. }));

    // A later server on the same port sees the entry already consumed.
    let mut second_session = SessionServer::begin(17902);
    let second = second_session.handle_connection(&mut registry, &request);
    match second {
        ConnectionReply::Rejected { error, response } => {
            assert_eq!(error, CallbackError::InvalidNonce);
            assert!(response.starts_with("HTTP/1.1 403 Error\r\n"));
        }
        other => panic!("expected rejection, got {:?}", reply_name(&other)),
    }
}

#[test]
fn csrf_wrong_nonce_rejected() {
    let mut registry = NonceRegistry::active_nonces();
    let mut session = open_session(&mut registry, 17901, String::from("right"));
    let request = post_request(r#"{"code":"XYZ","nonce":"wrong","state":"s1"}"#);
    let reply = session.handle_connection(&mut registry, &request);
    match reply {
        ConnectionReply::Rejected { error, response } => {
            assert_eq!(error, CallbackError::InvalidNonce);
            assert!(response.contains("{\"error\":\"Invalid nonce\"}"));
        }
        other => panic!("expected rejection, got {:?}", reply_name(&other)),
    }
    // The registered nonce is still there and the session keeps accepting.
    assert_eq!(registry.lookup(17901), Some(String::from("right")));
    assert!(session.still_accepting());

    let good = post_request(r#"{"code":"XYZ","nonce":"right","state":"s1"}"#);
    assert!(matches!(
        session.handle_connection(&mut registry, &good),
        ConnectionReply::Succeeded { .. }
    ));
}

#[test]
fn missing_fields_rejected() {
    for body in [
        r#"{"nonce":"n","state":"s"}"#,
        r#"{"code":"c","state":"s"}"#,
        r#"{"code":"c","nonce":"n"}"#,
        r#"{"code":7,"nonce":"n","state":"s"}"#,
        r#"42"#,
    ] {
        let mut registry = NonceRegistry::active_nonces();
        let mut session = open_session(&mut registry, 17903, String::from("n"));
        let reply = session.handle_connection(&mut registry, &post_request(body));
        match reply {
            ConnectionReply::Rejected { error, response } => {
                assert_eq!(error, CallbackError::MissingFields);
                assert!(response.starts_with("HTTP/1.1 400 Error\r\n"));
                assert!(response.contains("{\"error\":\"Missing required fields\"}"));
            }
            other => panic!("expected rejection for {body}, got {:?}", reply_name(&other)),
        }
        assert!(session.still_accepting());
    }
}

#[test]
fn unparseable_body_rejected() {
    for request in [
        post_request(r#"{"code":"XYZ","nonce":"n","#),
        post_request(""),
        String::from("POST / HTTP/1.1\r\nContent-Type: application/json"),
    ] {
        let mut registry = NonceRegistry::active_nonces();
        let mut session = open_session(&mut registry, 17904, String::from("n"));
        let reply = session.handle_connection(&mut registry, &request);
        match reply {
            ConnectionReply::Rejected { error, response } => {
                assert_eq!(error, CallbackError::InvalidJsonBody);
                assert!(response.starts_with("HTTP/1.1 400 Error\r\n"));
                assert!(response.contains("{\"error\":\"Invalid JSON body\"}"));
            }
            other => panic!("expected rejection, got {:?}", reply_name(&other)),
        }
        assert!(session.still_accepting());
    }
}

#[test]
fn preflights_are_idempotent_and_keep_session_alive() {
    let mut registry = NonceRegistry::active_nonces();
    let mut session = open_session(&mut registry, 17905, String::from("abc"));
    let preflight =
        "OPTIONS / HTTP/1.1\r\nOrigin: https://example.test\r\nAccess-Control-Request-Method: POST\r\n\r\n";
    let mut responses = Vec::new();
    for _ in 0..MAX_CONNECTIONS - 1 {
        match session.handle_connection(&mut registry, preflight) {
            ConnectionReply::Preflight { response } => responses.push(response),
            other => panic!("expected preflight answer, got {:?}", reply_name(&other)),
        }
        assert!(session.still_accepting());
    }
    for r in &responses {
        assert_eq!(r, &responses[0]);
        assert!(r.starts_with("HTTP/1.1 204 No Content\r\n"));
    }
    // The real POST still goes through on the last unit of budget.
    let request = post_request(r#"{"code":"XYZ","nonce":"abc","state":"s1"}"#);
    assert!(matches!(
        session.handle_connection(&mut registry, &request),
        ConnectionReply::Succeeded { .. }
    ));
}

#[test]
fn budget_exhaustion_stops_the_session() {
    let mut registry = NonceRegistry::active_nonces();
    let mut session = open_session(&mut registry, 17906, String::from("abc"));
    let bad = post_request(r#"{"code":"XYZ","nonce":"wrong","state":"s1"}"#);
    for i in 0..MAX_CONNECTIONS {
        assert!(session.still_accepting(), "budget gone after {i} connections");
        let reply = session.handle_connection(&mut registry, &bad);
        assert!(matches!(reply, ConnectionReply::Rejected { .. }));
    }
    assert!(!session.still_accepting());
    // The abandoned session's entry is deliberately left registered.
    assert_eq!(registry.lookup(17906), Some(String::from("abc")));
}

#[test]
fn other_methods_are_ignored_but_spend_budget() {
    let mut registry = NonceRegistry::active_nonces();
    let mut session = open_session(&mut registry, 17907, String::from("abc"));
    let reply = session.handle_connection(&mut registry, "GET / HTTP/1.1\r\n\r\n");
    assert!(matches!(reply, ConnectionReply::Ignored));
    assert!(session.still_accepting());
    assert_eq!(registry.lookup(17907), Some(String::from("abc")));
}

#[test]
fn empty_request_is_ignored() {
    let mut registry = NonceRegistry::active_nonces();
    let mut session = open_session(&mut registry, 17909, String::from("abc"));
    let reply = session.handle_connection(&mut registry, "");
    assert!(matches!(reply, ConnectionReply::Ignored));
    assert!(session.still_accepting());
}

#[test]
fn reserved_characters_reach_the_url_encoded() {
    let mut registry = NonceRegistry::active_nonces();
    let mut session = open_session(&mut registry, 17908, String::from("abc"));
    let request = post_request(r#"{"code":"a b/c","nonce":"abc","state":"x&y=z"}"#);
    match session.handle_connection(&mut registry, &request) {
        ConnectionReply::Succeeded { callback_url, .. } => {
            assert_eq!(
                callback_url,
                "http://localhost:17908?code=a%20b%2Fc&state=x%26y%3Dz"
            );
        }
        other => panic!("expected success, got {:?}", reply_name(&other)),
    }
}

fn reply_name(r: &ConnectionReply) -> &'static str {
    match r {
        ConnectionReply::Preflight { .. } => "Preflight",
        ConnectionReply::Rejected { .. } => "Rejected",
        ConnectionReply::Succeeded { .. } => "Succeeded",
        ConnectionReply::Ignored => "Ignored",
    }
}
