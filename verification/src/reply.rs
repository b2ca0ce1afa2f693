//! The fixed ten-byte reply that answers every command, and the big-endian
//! port arithmetic the wire format uses.

use vstd::prelude::*;

verus! {

/// The protocol version byte that every message carries.
pub const SOCKS_VERSION: u8 = 5;

/// The ten bytes of a reply: the version, the status, a reserved zero, the
/// address type 1 (IPv4), an all-zero bound address, and the bound port in
/// big-endian order.  Every reply this proxy sends has this exact shape.
pub open spec fn spec_reply(status: u8, port: u16) -> Seq<u8> {
    seq![
        5u8,
        status,
        0u8,
        1u8,
        0u8,
        0u8,
        0u8,
        0u8,
        (port / 256) as u8,
        (port % 256) as u8,
    ]
}

/// Builds the reply message for one status byte and one bound port.  The
/// bound address is always reported as all-zero.
pub fn encode_reply(status: u8, port: u16) -> (r: Vec<u8>)
    ensures
        r@ == spec_reply(status, port),
        r@.len() == 10,
{
    let mut r: Vec<u8> = Vec::new();
    r.push(SOCKS_VERSION);
    r.push(status);
    r.push(0);
    r.push(1);
    r.push(0);
    r.push(0);
    r.push(0);
    r.push(0);
    r.push((port / 256) as u8);
    r.push((port % 256) as u8);
    proof {
        assert(r@ =~= spec_reply(status, port));
    }
    r
}

/// Reads a big-endian port from its two wire bytes.
pub fn port_from_be(hi: u8, lo: u8) -> (r: u16)
    ensures
        r == hi * 256 + lo,
{
    (hi as u16) * 256 + (lo as u16)
}

} // verus!
