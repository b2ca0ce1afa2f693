//! A verified core for a SOCKS version-5 proxy.
//!
//! The library holds the protocol logic of a proxy session: negotiating the
//! authentication method, parsing the connection request, decoding the three
//! wire address forms, encoding the fixed ten-byte reply, and the state
//! machine that drives one client session from handshake to close.  All
//! socket work (reads, writes, connects, the byte relay) is left to the
//! program around the library, which feeds each outcome back into the state
//! machine as an event.

pub mod addr;
pub mod error;
pub mod handshake;
pub mod reply;
pub mod session;
