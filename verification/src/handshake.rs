//! Method-selection negotiation: the first exchange of a session.
//!
//! The client offers a list of authentication methods; this proxy supports
//! only "no authentication" (method byte 0).  The answer is two bytes: the
//! version and the selected method, or 0xFF when nothing offered is
//! acceptable.

use vstd::prelude::*;

verus! {

/// The method byte for "no authentication required".
pub const NO_AUTH_METHOD: u8 = 0;

/// The method byte that answers "no acceptable methods".
pub const NO_ACCEPTABLE_METHODS: u8 = 0xFF;

/// The two-byte answer to a method-selection message: `[5, 0]` when the
/// offered list contains "no authentication", `[5, 0xFF]` otherwise.
pub open spec fn spec_method_reply(methods: Seq<u8>) -> Seq<u8> {
    if methods.contains(0u8) {
        seq![5u8, 0u8]
    } else {
        seq![5u8, 0xFFu8]
    }
}

/// True exactly on the one protocol version this proxy speaks.
pub fn version_supported(version: u8) -> (r: bool)
    ensures
        r == (version == 5),
{
    version == crate::reply::SOCKS_VERSION
}

/// True when the offered method list contains "no authentication".
pub fn offers_no_auth(methods: &Vec<u8>) -> (r: bool)
    ensures
        r == methods@.contains(0u8),
{
    let mut i: usize = 0;
    while i < methods.len()
        invariant
            i <= methods@.len(),
            forall|j: int| 0 <= j < i ==> methods@[j] != 0u8,
        decreases methods@.len() - i,
    {
        if methods[i] == NO_AUTH_METHOD {
            proof {
                assert(methods@[i as int] == 0u8);
            }
            return true;
        }
        i = i + 1;
    }
    false
}

/// The negotiator's verdict on one offered method list: the exact reply to
/// write, and whether the session may go on to the request.
pub struct Negotiation {
    pub reply: Vec<u8>,
    pub accepted: bool,
}

/// Decides the method-selection answer for one offered list.  The session
/// proceeds if and only if the list contains "no authentication"; either
/// way exactly one two-byte reply is owed to the client.
pub fn negotiate(methods: &Vec<u8>) -> (r: Negotiation)
    ensures
        r.accepted == methods@.contains(0u8),
        r.reply@ == spec_method_reply(methods@),
        r.accepted ==> r.reply@ == seq![5u8, 0u8],
        !r.accepted ==> r.reply@ == seq![5u8, 0xFFu8],
{
    let accepted = offers_no_auth(methods);
    let mut reply: Vec<u8> = Vec::new();
    reply.push(crate::reply::SOCKS_VERSION);
    if accepted {
        reply.push(NO_AUTH_METHOD);
    } else {
        reply.push(NO_ACCEPTABLE_METHODS);
    }
    proof {
        assert(reply@ =~= spec_method_reply(methods@));
    }
    Negotiation { reply, accepted }
}

} // verus!
