//! Minimal HTTP support for the callback receiver: classifying a request by
//! its method token, splitting headers from the body at the first blank
//! line, and rendering the fixed set of responses the protocol uses.

use vstd::prelude::*;
use vstd::string::*;
use crate::digits::{dec_str, u64_to_dec};

verus! {

/// Whether `p` is a prefix of `s`.
pub open spec fn seq_starts_with(s: Seq<char>, p: Seq<char>) -> bool {
    p.len() <= s.len() && s.subrange(0, p.len() as int) == p
}

/// A request is a CORS preflight when its text opens with the `OPTIONS`
/// method token.
pub open spec fn is_options_request(r: Seq<char>) -> bool {
    seq_starts_with(r, "OPTIONS"@)
}

/// A request is a callback delivery when its text opens with the `POST`
/// method token.
pub open spec fn is_post_request(r: Seq<char>) -> bool {
    seq_starts_with(r, "POST"@)
}

/// Whether the four characters at `i` are the blank line `\r\n\r\n` that
/// separates headers from the body.
pub open spec fn blank_line_at(r: Seq<char>, i: int) -> bool {
    r[i] == '\r' && r[i + 1] == '\n' && r[i + 2] == '\r' && r[i + 3] == '\n'
}

/// The position just after the first blank line at or beyond `i`, if any.
pub open spec fn body_start_from(r: Seq<char>, i: int) -> Option<int>
    decreases r.len() - i,
{
    if i + 4 > r.len() {
        Option::None
    } else if blank_line_at(r, i) {
        Option::Some(i + 4)
    } else {
        body_start_from(r, i + 1)
    }
}

/// The position just after the first blank line of the request, if any.
pub open spec fn body_start(r: Seq<char>) -> Option<int> {
    body_start_from(r, 0)
}

/// The body of a request that has one: everything after the first blank
/// line.
pub open spec fn request_body(r: Seq<char>) -> Seq<char>
    recommends
        body_start(r) is Some,
{
    r.skip(body_start(r)->Some_0)
}

/// Whether the request text opens with the given method token.
pub fn method_is(request: &str, token: &str) -> (r: bool)
    ensures
        r == seq_starts_with(request@, token@),
{
    let n = token.unicode_len();
    if n > request.unicode_len() {
        return false;
    }
    let mut i: usize = 0;
    while i < n
        invariant
            i <= n,
            n == token@.len(),
            n <= request@.len(),
            forall|j: int| 0 <= j < i ==> request@[j] == token@[j],
        decreases n - i,
    {
        if request.get_char(i) != token.get_char(i) {
            proof {
                assert(request@.subrange(0, n as int)[i as int] != token@[i as int]);
            }
            return false;
        }
        i = i + 1;
    }
    proof {
        assert(request@.subrange(0, n as int) =~= token@);
    }
    true
}

/// The index just after the first `\r\n\r\n` of the request, if the request
/// has one.
pub fn find_body_start(request: &str) -> (r: Option<usize>)
    ensures
        r is Some <==> body_start(request@) is Some,
        r matches Some(i) ==> body_start(request@) == Option::Some(i as int),
{
    let n = request.unicode_len();
    let mut i: usize = 0;
    if n < 4 {
        return None;
    }
    while i <= n - 4
        invariant
            4 <= n,
            i <= n - 3,
            n == request@.len(),
            body_start(request@) == body_start_from(request@, i as int),
        decreases n - i,
    {
        let c0 = request.get_char(i);
        let c1 = request.get_char(i + 1);
        let c2 = request.get_char(i + 2);
        let c3 = request.get_char(i + 3);
        if c0 == '\r' && c1 == '\n' && c2 == '\r' && c3 == '\n' {
            return Some(i + 4);
        }
        proof {
            assert(body_start_from(request@, i as int) == body_start_from(request@, i as int + 1));
        }
        i = i + 1;
    }
    None
}

/// The body of the request: the text after the first blank line.
pub fn extract_body<'a>(request: &'a str, start: usize) -> (r: &'a str)
    requires
        body_start(request@) == Option::Some(start as int),
    ensures
        r@ == request_body(request@),
{
    proof {
        lemma_body_start_bounds(request@, 0);
        assert(request@.skip(start as int) =~= request@.subrange(
            start as int,
            request@.len() as int,
        ));
    }
    let n = request.unicode_len();
    request.substring_char(start, n)
}

/// A request opens with at most one of the two method tokens.
pub proof fn lemma_method_tokens_disjoint(r: Seq<char>)
    ensures
        !(is_options_request(r) && is_post_request(r)),
{
    reveal_strlit("OPTIONS");
    reveal_strlit("POST");
    if is_options_request(r) && is_post_request(r) {
        assert(r.subrange(0, 7)[0] == r[0]);
        assert(r.subrange(0, 4)[0] == r[0]);
        assert(false);
    }
}

/// The ways one connection's POST can be turned away; the session keeps
/// accepting after each of them.
#[derive(Clone, Copy, Debug, PartialEq, Eq, Structural)]
pub enum CallbackError {
    /// The request has no blank line or its body is not JSON.
    InvalidJsonBody,
    /// The body is JSON but lacks a string `code`, `nonce` or `state`.
    MissingFields,
    /// The presented nonce is not the one registered for this port.
    InvalidNonce,
}

/// The HTTP status that answers each rejection.
pub open spec fn status_code(e: CallbackError) -> u16 {
    match e {
        CallbackError::InvalidJsonBody => 400,
        CallbackError::MissingFields => 400,
        CallbackError::InvalidNonce => 403,
    }
}

/// The message inside each rejection's JSON body.
pub open spec fn error_message_text(e: CallbackError) -> Seq<char> {
    match e {
        CallbackError::InvalidJsonBody => "Invalid JSON body"@,
        CallbackError::MissingFields => "Missing required fields"@,
        CallbackError::InvalidNonce => "Invalid nonce"@,
    }
}

/// The JSON body of a rejection.
pub open spec fn error_body_text(e: CallbackError) -> Seq<char> {
    "{\"error\":\""@ + error_message_text(e) + "\"}"@
}

/// The full text of a rejection response: status line, permissive CORS
/// headers, content headers, blank line, JSON body.
pub open spec fn error_response_text(e: CallbackError) -> Seq<char> {
    "HTTP/1.1 "@ + dec_str(status_code(e) as nat) + " Error\r\n"@
        + "Access-Control-Allow-Origin: *\r\nAccess-Control-Allow-Methods: POST, OPTIONS\r\nAccess-Control-Allow-Headers: Content-Type\r\n"@
        + "Content-Type: application/json\r\nContent-Length: "@ + dec_str(
        error_body_text(e).len() as nat,
    ) + "\r\n\r\n"@ + error_body_text(e)
}

/// The fixed answer to a CORS preflight.
pub open spec fn preflight_response_text() -> Seq<char> {
    "HTTP/1.1 204 No Content\r\nAccess-Control-Allow-Origin: *\r\nAccess-Control-Allow-Methods: POST, OPTIONS\r\nAccess-Control-Allow-Headers: Content-Type\r\nAccess-Control-Max-Age: 86400\r\n\r\n"@
}

/// The fixed answer to a POST that presented the registered nonce.
pub open spec fn success_response_text() -> Seq<char> {
    "HTTP/1.1 200 OK\r\nAccess-Control-Allow-Origin: *\r\nContent-Type: application/json\r\nContent-Length: 16\r\n\r\n{\"success\":true}"@
}

/// The status that answers each rejection.
pub fn error_status(e: CallbackError) -> (s: u16)
    ensures
        s == status_code(e),
{
    match e {
        CallbackError::InvalidJsonBody => 400,
        CallbackError::MissingFields => 400,
        CallbackError::InvalidNonce => 403,
    }
}

/// The message inside each rejection's JSON body.
pub fn error_message(e: CallbackError) -> (r: &'static str)
    ensures
        r@ == error_message_text(e),
{
    match e {
        CallbackError::InvalidJsonBody => "Invalid JSON body",
        CallbackError::MissingFields => "Missing required fields",
        CallbackError::InvalidNonce => "Invalid nonce",
    }
}

/// Renders a rejection response, CORS headers included, as it goes onto
/// the wire.
pub fn error_response(e: CallbackError) -> (r: String)
    ensures
        r@ == error_response_text(e),
{
    let mut body = String::from_str("{\"error\":\"");
    body.append(error_message(e));
    body.append("\"}");
    let body_len = body.as_str().unicode_len();
    let status_dec = u64_to_dec(error_status(e) as u64);
    let len_dec = u64_to_dec(body_len as u64);
    let mut r = String::from_str("HTTP/1.1 ");
    r.append(status_dec.as_str());
    r.append(" Error\r\n");
    r.append(
        "Access-Control-Allow-Origin: *\r\nAccess-Control-Allow-Methods: POST, OPTIONS\r\nAccess-Control-Allow-Headers: Content-Type\r\n",
    );
    r.append("Content-Type: application/json\r\nContent-Length: ");
    r.append(len_dec.as_str());
    r.append("\r\n\r\n");
    r.append(body.as_str());
    proof {
        assert(r@ =~= error_response_text(e));
    }
    r
}

/// Renders the fixed preflight answer.
pub fn preflight_response() -> (r: String)
    ensures
        r@ == preflight_response_text(),
{
    String::from_str(
        "HTTP/1.1 204 No Content\r\nAccess-Control-Allow-Origin: *\r\nAccess-Control-Allow-Methods: POST, OPTIONS\r\nAccess-Control-Allow-Headers: Content-Type\r\nAccess-Control-Max-Age: 86400\r\n\r\n",
    )
}

/// Renders the fixed success answer.
pub fn success_response() -> (r: String)
    ensures
        r@ == success_response_text(),
{
    String::from_str(
        "HTTP/1.1 200 OK\r\nAccess-Control-Allow-Origin: *\r\nContent-Type: application/json\r\nContent-Length: 16\r\n\r\n{\"success\":true}",
    )
}

/// A found blank line lies within the request, so the body start is a
/// valid split position.
proof fn lemma_body_start_bounds(r: Seq<char>, i: int)
    requires
        body_start_from(r, i) is Some,
        0 <= i,
    ensures
        i + 4 <= body_start_from(r, i)->Some_0 <= r.len(),
    decreases r.len() - i,
{
    if i + 4 > r.len() {
    } else if blank_line_at(r, i) {
    } else {
        lemma_body_start_bounds(r, i + 1);
    }
}

} // verus!
