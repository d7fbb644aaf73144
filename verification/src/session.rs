//! One callback session: a server that owns one bound port, accepts a
//! bounded number of connections sequentially, answers CORS preflights,
//! validates the callback POST against the registered nonce, and on success
//! consumes the nonce and assembles the callback URL to publish.

use vstd::prelude::*;
use vstd::string::*;
use crate::digits::u64_to_dec;
use crate::http::{
    CallbackError, body_start, error_response, error_response_text, extract_body, find_body_start,
    is_options_request, is_post_request, method_is, preflight_response, preflight_response_text,
    request_body, success_response, success_response_text,
};
use crate::json::{json_parses, json_str_field, parse_json_fields};
use crate::percent::{pct_encoded_of, percent_encode};
use crate::registry::NonceRegistry;

verus! {

/// Connections one session will accept at most: preflights, the POST, and
/// room for client retries.
pub const MAX_CONNECTIONS: u8 = 10;

/// Bytes read from one connection at most; the whole request must fit.
pub const READ_BUFFER_SIZE: usize = 8192;

/// The callback URL handed to the rest of the application on success.
pub open spec fn callback_url_text(port: u16, code: Seq<char>, state: Seq<char>) -> Seq<char> {
    "http://localhost:"@ + crate::digits::dec_str(port as nat) + "?code="@ + pct_encoded_of(code)
        + "&state="@ + pct_encoded_of(state)
}

/// Assembles the callback URL, percent-encoding the caller-visible values.
pub fn build_callback_url(port: u16, code: &str, state: &str) -> (r: String)
    ensures
        r@ == callback_url_text(port, code@, state@),
{
    let mut r = String::from_str("http://localhost:");
    let p = u64_to_dec(port as u64);
    r.append(p.as_str());
    r.append("?code=");
    let c = percent_encode(code);
    r.append(c.as_str());
    r.append("&state=");
    let st = percent_encode(state);
    r.append(st.as_str());
    r
}

/// What one accepted connection produced: a response to write back, and on
/// success the callback URL to publish before the session is terminated.
pub enum ConnectionReply {
    /// A CORS preflight was answered; the session keeps accepting.
    Preflight { response: String },
    /// A POST was turned away; the session keeps accepting.
    Rejected { error: CallbackError, response: String },
    /// The registered nonce was presented: the nonce is consumed and the
    /// session stops accepting.
    Succeeded { response: String, callback_url: String },
    /// Any other method: no response is written; the connection still
    /// counts toward the budget.
    Ignored,
}

/// The mathematical shape of a connection's outcome.
pub enum ReplyModel {
    Preflight { response: Seq<char> },
    Rejected { error: CallbackError, response: Seq<char> },
    Succeeded { response: Seq<char>, callback_url: Seq<char> },
    Ignored,
}

impl View for ConnectionReply {
    type V = ReplyModel;

    open spec fn view(&self) -> ReplyModel {
        match self {
            ConnectionReply::Preflight { response } => ReplyModel::Preflight {
                response: response@,
            },
            ConnectionReply::Rejected { error, response } => ReplyModel::Rejected {
                error: *error,
                response: response@,
            },
            ConnectionReply::Succeeded { response, callback_url } => ReplyModel::Succeeded {
                response: response@,
                callback_url: callback_url@,
            },
            ConnectionReply::Ignored => ReplyModel::Ignored,
        }
    }
}

/// One OAuth attempt's server: its bound port, its remaining connection
/// budget, and whether a valid POST has consumed it.
pub struct SessionServer {
    /// The port this session's listener is bound to.
    pub port: u16,
    /// Connections the session will still accept.
    pub remaining: u8,
    /// Whether a valid POST has terminated the session.
    pub done: bool,
}

/// Whether `req` is the POST that consumes the session on `port` under the
/// registered nonces `reg`: well-formed, all fields present, and the nonce
/// equal to the one registered for `port`.
pub open spec fn post_succeeds(req: Seq<char>, reg: Map<u16, Seq<char>>, port: u16) -> bool {
    is_post_request(req) && body_start(req) is Some && json_parses(request_body(req))
        && json_str_field(request_body(req), "code"@) is Some && json_str_field(
        request_body(req),
        "nonce"@,
    ) is Some && json_str_field(request_body(req), "state"@) is Some && reg.contains_key(port)
        && json_str_field(request_body(req), "nonce"@) == Option::Some(reg[port])
}

/// One step of the protocol state machine: what handling one accepted
/// connection does to the session, to the registry, and what it answers.
pub open spec fn session_step(s: SessionServer, reg: Map<u16, Seq<char>>, req: Seq<char>) -> (
    SessionServer,
    Map<u16, Seq<char>>,
    ReplyModel,
)
    recommends
        s.remaining > 0,
{
    let stepped = SessionServer { port: s.port, remaining: (s.remaining - 1) as u8, done: s.done };
    if is_options_request(req) {
        (stepped, reg, ReplyModel::Preflight { response: preflight_response_text() })
    } else if is_post_request(req) {
        if body_start(req) is None || !json_parses(request_body(req)) {
            (
                stepped,
                reg,
                ReplyModel::Rejected {
                    error: CallbackError::InvalidJsonBody,
                    response: error_response_text(CallbackError::InvalidJsonBody),
                },
            )
        } else {
            let body = request_body(req);
            if json_str_field(body, "code"@) is Some && json_str_field(body, "nonce"@) is Some
                && json_str_field(body, "state"@) is Some {
                if reg.contains_key(s.port) && json_str_field(body, "nonce"@) == Option::Some(
                    reg[s.port],
                ) {
                    (
                        SessionServer { port: s.port, remaining: stepped.remaining, done: true },
                        reg.remove(s.port),
                        ReplyModel::Succeeded {
                            response: success_response_text(),
                            callback_url: callback_url_text(
                                s.port,
                                json_str_field(body, "code"@)->Some_0,
                                json_str_field(body, "state"@)->Some_0,
                            ),
                        },
                    )
                } else {
                    (
                        stepped,
                        reg,
                        ReplyModel::Rejected {
                            error: CallbackError::InvalidNonce,
                            response: error_response_text(CallbackError::InvalidNonce),
                        },
                    )
                }
            } else {
                (
                    stepped,
                    reg,
                    ReplyModel::Rejected {
                        error: CallbackError::MissingFields,
                        response: error_response_text(CallbackError::MissingFields),
                    },
                )
            }
        }
    } else {
        (stepped, reg, ReplyModel::Ignored)
    }
}

impl SessionServer {
    /// The session accepts another connection while budget remains and no
    /// valid POST has arrived.
    pub open spec fn accepting(self) -> bool {
        self.remaining > 0 && !self.done
    }

    /// A fresh server for one bound port, with its whole connection
    /// budget.
    pub fn begin(port: u16) -> (s: SessionServer)
        ensures
            s == (SessionServer { port: port, remaining: MAX_CONNECTIONS, done: false }),
            s.accepting(),
    {
        SessionServer { port, remaining: MAX_CONNECTIONS, done: false }
    }

    /// Whether the accept loop should take another connection.
    pub fn still_accepting(&self) -> (b: bool)
        ensures
            b == self.accepting(),
    {
        self.remaining > 0 && !self.done
    }

    /// An accepted connection whose request never arrived (the read
    /// failed) still counts toward the budget; nothing else changes and
    /// nothing is answered.
    pub fn charge_connection(&mut self)
        requires
            old(self).accepting(),
        ensures
            *final(self) == (SessionServer {
                port: old(self).port,
                remaining: (old(self).remaining - 1) as u8,
                done: old(self).done,
            }),
    {
        self.remaining = self.remaining - 1;
    }

    /// Handles one accepted connection's request text, exactly as
    /// `session_step` describes: a preflight is answered and the session
    /// goes on; a malformed POST is answered `400`, a wrong nonce `403`,
    /// and the session goes on; the registered nonce consumes the registry
    /// entry, terminates the session, and yields the callback URL; any
    /// other method is ignored. Every connection spends one unit of
    /// budget.
    pub fn handle_connection(&mut self, registry: &mut NonceRegistry, request: &str) -> (r:
        ConnectionReply)
        requires
            old(self).accepting(),
            old(registry).wf(),
        ensures
            final(registry).wf(),
            ({
                let (s2, reg2, rep) = session_step(*old(self), old(registry)@, request@);
                *final(self) == s2 && final(registry)@ == reg2 && r@ == rep
            }),
    {
        self.remaining = self.remaining - 1;
        if method_is(request, "OPTIONS") {
            ConnectionReply::Preflight { response: preflight_response() }
        } else if method_is(request, "POST") {
            match find_body_start(request) {
                None => ConnectionReply::Rejected {
                    error: CallbackError::InvalidJsonBody,
                    response: error_response(CallbackError::InvalidJsonBody),
                },
                Some(start) => {
                    let body = extract_body(request, start);
                    match parse_json_fields(body) {
                        None => ConnectionReply::Rejected {
                            error: CallbackError::InvalidJsonBody,
                            response: error_response(CallbackError::InvalidJsonBody),
                        },
                        Some(fields) => match fields {
                            (Some(code), Some(nonce), Some(state)) => {
                                let registered = registry.lookup(self.port);
                                match registered {
                                    Some(expected) => {
                                        if expected == nonce {
                                            registry.remove(self.port);
                                            self.done = true;
                                            let url = build_callback_url(
                                                self.port,
                                                code.as_str(),
                                                state.as_str(),
                                            );
                                            ConnectionReply::Succeeded {
                                                response: success_response(),
                                                callback_url: url,
                                            }
                                        } else {
                                            ConnectionReply::Rejected {
                                                error: CallbackError::InvalidNonce,
                                                response: error_response(
                                                    CallbackError::InvalidNonce,
                                                ),
                                            }
                                        }
                                    },
                                    None => ConnectionReply::Rejected {
                                        error: CallbackError::InvalidNonce,
                                        response: error_response(CallbackError::InvalidNonce),
                                    },
                                }
                            },
                            _ => ConnectionReply::Rejected {
                                error: CallbackError::MissingFields,
                                response: error_response(CallbackError::MissingFields),
                            },
                        },
                    }
                },
            }
        } else {
            ConnectionReply::Ignored
        }
    }
}

/// Creates a session: registers the fresh nonce for the bound port,
/// overwriting any stale entry, and returns the server that will accept
/// the callback connections.
pub fn open_session(registry: &mut NonceRegistry, port: u16, nonce: String) -> (s: SessionServer)
    requires
        old(registry).wf(),
    ensures
        final(registry).wf(),
        final(registry)@ == old(registry)@.insert(port, nonce@),
        s == (SessionServer { port: port, remaining: MAX_CONNECTIONS, done: false }),
        s.accepting(),
{
    registry.insert(port, nonce);
    SessionServer::begin(port)
}

} // verus!
