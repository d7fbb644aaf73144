//! Generation of the per-session nonce: a high-resolution timestamp in
//! lower-case hexadecimal with a per-worker tag's decimal rendering
//! appended as a discriminator. The caller supplies both inputs; the
//! rendering here is deterministic.

use vstd::prelude::*;
use vstd::string::*;
use crate::digits::{dec_str, hex_str, u128_to_hex, u64_to_dec};

verus! {

/// The nonce derived from a timestamp and a worker tag.
pub open spec fn nonce_text(ts: nat, tag: nat) -> Seq<char> {
    hex_str(ts) + dec_str(tag)
}

/// Renders the session nonce from the creation timestamp in nanoseconds
/// and the per-worker tag.
pub fn generate_nonce(timestamp_nanos: u128, worker_tag: u64) -> (r: String)
    ensures
        r@ == nonce_text(timestamp_nanos as nat, worker_tag as nat),
{
    let mut r = u128_to_hex(timestamp_nanos);
    let tag = u64_to_dec(worker_tag);
    r.append(tag.as_str());
    r
}

} // verus!
