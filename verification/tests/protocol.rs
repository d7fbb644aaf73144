use oauth_loopback::digits::{u128_to_hex, u64_to_dec};
use oauth_loopback::http::{
    error_response, preflight_response, success_response, CallbackError,
};
use oauth_loopback::nonce::generate_nonce;
use oauth_loopback::session::build_callback_url;

#[test]
fn decimal_rendering() {
    assert_eq!(u64_to_dec(0), "0");
    assert_eq!(u64_to_dec(7), "7");
    assert_eq!(u64_to_dec(17902), "17902");
    assert_eq!(u64_to_dec(u64::MAX), format!("{}", u64::MAX));
}

#[test]
fn hex_rendering() {
    assert_eq!(u128_to_hex(0), "0");
    assert_eq!(u128_to_hex(10), "a");
    assert_eq!(u128_to_hex(0x2a), "2a");
    assert_eq!(u128_to_hex(u128::MAX), format!("{:x}", u128::MAX));
}

#[test]
fn nonce_shape() {
    assert_eq!(generate_nonce(0x2a, 11), format!("{:x}{}", 0x2au128, 11));
    assert_eq!(generate_nonce(0, 0), "00");
    assert_eq!(
        generate_nonce(1_700_000_000_123_456_789, 11),
        format!("{:x}{}", 1_700_000_000_123_456_789u128, 11)
    );
}

#[test]
fn nonces_differ_across_timestamps() {
    let a = generate_nonce(1_700_000_000_000_000_001, 11);
    let b = generate_nonce(1_700_000_000_000_000_002, 11);
    assert_ne!(a, b);
}

#[test]
fn preflight_response_text() {
    assert_eq!(
        preflight_response(),
        "HTTP/1.1 204 No Content\r\n\
         Access-Control-Allow-Origin: *\r\n\
         Access-Control-Allow-Methods: POST, OPTIONS\r\n\
         Access-Control-Allow-Headers: Content-Type\r\n\
         Access-Control-Max-Age: 86400\r\n\
         \r\n"
    );
}

#[test]
fn success_response_text() {
    let body = r#"{"success":true}"#;
    assert_eq!(
        success_response(),
        format!(
            "HTTP/1.1 200 OK\r\n\
             Access-Control-Allow-Origin: *\r\n\
             Content-Type: application/json\r\n\
             Content-Length: {}\r\n\
             \r\n\
             {}",
            body.len(),
            body
        )
    );
}

#[test]
fn error_response_texts() {
    for (kind, status, message) in [
        (CallbackError::InvalidJsonBody, 400, "Invalid JSON body"),
        (CallbackError::MissingFields, 400, "Missing required fields"),
        (CallbackError::InvalidNonce, 403, "Invalid nonce"),
    ] {
        let body = format!(r#"{{"error":"{}"}}"#, message);
        let expected = format!(
            "HTTP/1.1 {} Error\r\n\
             Access-Control-Allow-Origin: *\r\n\
             Access-Control-Allow-Methods: POST, OPTIONS\r\n\
             Access-Control-Allow-Headers: Content-Type\r\n\
             Content-Type: application/json\r\n\
             Content-Length: {}\r\n\
             \r\n\
             {}",
            status,
            body.len(),
            body
        );
        assert_eq!(error_response(kind), expected);
    }
}

#[test]
fn callback_url_plain_values() {
    assert_eq!(
        build_callback_url(17902, "XYZ", "s1"),
        "http://localhost:17902?code=XYZ&state=s1"
    );
}

#[test]
fn callback_url_percent_encodes() {
    assert_eq!(
        build_callback_url(17900, "a b/c", "x&y=z"),
        "http://localhost:17900?code=a%20b%2Fc&state=x%26y%3Dz"
    );
    assert_eq!(
        build_callback_url(17900, "A-Z_0.9~", ""),
        "http://localhost:17900?code=A-Z_0.9~&state="
    );
}
