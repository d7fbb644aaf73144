//! The protocol's guarantees, stated and proved over the session step
//! model: session independence across ports, one-time use of the nonce,
//! CSRF rejection, field validation, preflight idempotence, and budget
//! exhaustion.

use vstd::prelude::*;
use crate::digits::lemma_hex_str_injective;
use crate::http::{
    CallbackError, body_start, error_response_text, is_options_request, is_post_request,
    lemma_method_tokens_disjoint, preflight_response_text, request_body,
};
use crate::json::{json_parses, json_str_field};
use crate::nonce::nonce_text;
use crate::session::{post_succeeds, session_step, ReplyModel, SessionServer};

verus! {

/// Sessions on distinct ports are independent: registering a second
/// session's nonce never disturbs the first's, each active port keeps
/// exactly its own nonce, and consuming one port's entry leaves the
/// other's in place.
pub proof fn lemma_sessions_independent(
    reg: Map<u16, Seq<char>>,
    p1: u16,
    n1: Seq<char>,
    p2: u16,
    n2: Seq<char>,
)
    requires
        p1 != p2,
    ensures
        reg.insert(p1, n1).insert(p2, n2)[p1] == n1,
        reg.insert(p1, n1).insert(p2, n2)[p2] == n2,
        reg.insert(p1, n1).insert(p2, n2).remove(p2)[p1] == n1,
        !reg.insert(p1, n1).insert(p2, n2).remove(p2).contains_key(p2),
{
}

/// Nonces generated by the same worker at distinct timestamps differ: the
/// tag suffix then has one length, so equal nonces would force equal
/// timestamp renderings, and the hexadecimal rendering is injective.
pub proof fn lemma_nonce_distinct_timestamps(ts1: nat, ts2: nat, tag: nat)
    requires
        ts1 != ts2,
    ensures
        nonce_text(ts1, tag) != nonce_text(ts2, tag),
{
    lemma_hex_str_injective(ts1, ts2);
    if nonce_text(ts1, tag) == nonce_text(ts2, tag) {
        let h1 = crate::digits::hex_str(ts1);
        let h2 = crate::digits::hex_str(ts2);
        let d = crate::digits::dec_str(tag);
        assert((h1 + d).len() == (h2 + d).len());
        assert(h1 =~= h2) by {
            assert forall|i: int| 0 <= i < h1.len() implies h1[i] == h2[i] by {
                assert((h1 + d)[i] == h1[i]);
                assert((h2 + d)[i] == h2[i]);
            }
        }
    }
}

/// A POST carrying the registered nonce succeeds exactly once: handling
/// it terminates the session and consumes the registry entry, and the
/// same POST handled afterwards by any server still accepting on that
/// port is answered `403 Invalid nonce`.
pub proof fn lemma_nonce_one_time_use(
    s: SessionServer,
    reg: Map<u16, Seq<char>>,
    req: Seq<char>,
    s2: SessionServer,
)
    requires
        s.accepting(),
        post_succeeds(req, reg, s.port),
        s2.accepting(),
        s2.port == s.port,
    ensures
        session_step(s, reg, req).2 is Succeeded,
        session_step(s, reg, req).0.done,
        !session_step(s, reg, req).1.contains_key(s.port),
        session_step(s2, session_step(s, reg, req).1, req).2 == (ReplyModel::Rejected {
            error: CallbackError::InvalidNonce,
            response: error_response_text(CallbackError::InvalidNonce),
        }),
{
    lemma_method_tokens_disjoint(req);
}

/// Any POST whose nonce differs from the value registered for the
/// session's port — or arrives when no value is registered — is answered
/// `403 Invalid nonce`, however well-formed its `code` and `state`, and
/// neither the registry nor the session's completion is touched.
pub proof fn lemma_csrf_rejection(s: SessionServer, reg: Map<u16, Seq<char>>, req: Seq<char>)
    requires
        s.accepting(),
        is_post_request(req),
        body_start(req) is Some,
        json_parses(request_body(req)),
        json_str_field(request_body(req), "code"@) is Some,
        json_str_field(request_body(req), "nonce"@) is Some,
        json_str_field(request_body(req), "state"@) is Some,
        !(reg.contains_key(s.port) && json_str_field(request_body(req), "nonce"@)
            == Option::Some(reg[s.port])),
    ensures
        session_step(s, reg, req).2 == (ReplyModel::Rejected {
            error: CallbackError::InvalidNonce,
            response: error_response_text(CallbackError::InvalidNonce),
        }),
        session_step(s, reg, req).1 == reg,
        session_step(s, reg, req).0.done == s.done,
{
    lemma_method_tokens_disjoint(req);
}

/// A POST whose body is valid JSON but lacks a string `code`, `nonce` or
/// `state` is answered `400 Missing required fields`; the registry is
/// untouched and the session keeps its completion state.
pub proof fn lemma_field_validation(s: SessionServer, reg: Map<u16, Seq<char>>, req: Seq<char>)
    requires
        s.accepting(),
        is_post_request(req),
        body_start(req) is Some,
        json_parses(request_body(req)),
        json_str_field(request_body(req), "code"@) is None || json_str_field(
            request_body(req),
            "nonce"@,
        ) is None || json_str_field(request_body(req), "state"@) is None,
    ensures
        session_step(s, reg, req).2 == (ReplyModel::Rejected {
            error: CallbackError::MissingFields,
            response: error_response_text(CallbackError::MissingFields),
        }),
        session_step(s, reg, req).1 == reg,
        session_step(s, reg, req).0.done == s.done,
{
    lemma_method_tokens_disjoint(req);
}

/// A POST without a blank line or whose body `serde_json` does not accept
/// is answered `400 Invalid JSON body`; the registry is untouched and the
/// session keeps its completion state.
pub proof fn lemma_malformed_body(s: SessionServer, reg: Map<u16, Seq<char>>, req: Seq<char>)
    requires
        s.accepting(),
        is_post_request(req),
        body_start(req) is None || !json_parses(request_body(req)),
    ensures
        session_step(s, reg, req).2 == (ReplyModel::Rejected {
            error: CallbackError::InvalidJsonBody,
            response: error_response_text(CallbackError::InvalidJsonBody),
        }),
        session_step(s, reg, req).1 == reg,
        session_step(s, reg, req).0.done == s.done,
{
    lemma_method_tokens_disjoint(req);
}

/// Every preflight, whatever its headers and however often it comes, gets
/// the identical `204` answer; it leaves the registry, the port and the
/// completion state untouched and spends one unit of budget, so with
/// budget to spare the session keeps accepting.
pub proof fn lemma_preflight_idempotent(s: SessionServer, reg: Map<u16, Seq<char>>, req: Seq<char>)
    requires
        s.accepting(),
        is_options_request(req),
    ensures
        session_step(s, reg, req).2 == (ReplyModel::Preflight {
            response: preflight_response_text(),
        }),
        session_step(s, reg, req).1 == reg,
        session_step(s, reg, req).0.done == s.done,
        session_step(s, reg, req).0.port == s.port,
        session_step(s, reg, req).0.remaining == s.remaining - 1,
        s.remaining > 1 ==> session_step(s, reg, req).0.accepting(),
{
}

/// The outcome of one session handling a sequence of connections in
/// order.
pub open spec fn run_session(
    s: SessionServer,
    reg: Map<u16, Seq<char>>,
    reqs: Seq<Seq<char>>,
) -> (SessionServer, Map<u16, Seq<char>>)
    decreases reqs.len(),
{
    if reqs.len() == 0 {
        (s, reg)
    } else {
        run_session(
            session_step(s, reg, reqs[0]).0,
            session_step(s, reg, reqs[0]).1,
            reqs.skip(1),
        )
    }
}

/// If no connection carries the registered nonce, the session never
/// terminates early and the registry keeps its entries, while each
/// connection spends one unit of budget: after as many such connections
/// as the budget held, the session no longer accepts.
pub proof fn lemma_budget_exhaustion(s: SessionServer, reg: Map<u16, Seq<char>>, reqs: Seq<Seq<char>>)
    requires
        !s.done,
        reqs.len() <= s.remaining,
        forall|i: int| 0 <= i < reqs.len() ==> !post_succeeds(reqs[i], reg, s.port),
    ensures
        run_session(s, reg, reqs).1 == reg,
        run_session(s, reg, reqs).0.port == s.port,
        !run_session(s, reg, reqs).0.done,
        run_session(s, reg, reqs).0.remaining == s.remaining - reqs.len(),
        reqs.len() == s.remaining ==> !run_session(s, reg, reqs).0.accepting(),
    decreases reqs.len(),
{
    if reqs.len() > 0 {
        let step = session_step(s, reg, reqs[0]);
        assert(!post_succeeds(reqs[0], reg, s.port));
        assert(step.1 == reg && !step.0.done && step.0.port == s.port && step.0.remaining
            == s.remaining - 1);
        assert forall|i: int| 0 <= i < reqs.skip(1).len() implies !post_succeeds(
            reqs.skip(1)[i],
            reg,
            s.port,
        ) by {
            assert(reqs.skip(1)[i] == reqs[i + 1]);
        }
        lemma_budget_exhaustion(step.0, step.1, reqs.skip(1));
    }
}

} // verus!
