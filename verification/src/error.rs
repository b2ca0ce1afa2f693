//! The ways a proxy session can fail.

use vstd::prelude::*;

verus! {

/// One session's failure, reported to the caller when the session ends.
///
/// Every protocol violation is a routine condition, not an exception: each
/// parsing or negotiation step returns one of these variants and the session
/// driver stops.  `Transport` stands for any I/O failure on the client or
/// target socket; the others name the protocol rule that the peer broke.
#[derive(Debug, Clone, Copy, PartialEq, Eq, Structural)]
pub enum SocksError {
    /// An I/O error on the client or target connection.
    Transport,
    /// The handshake's first byte was not the protocol version 5.
    UnsupportedVersion,
    /// The client offered no acceptable authentication method.
    UnsupportedAuthMethod,
    /// The request's command byte named no known command.
    UnsupportedCommand,
    /// The request's address-type byte named no known address form.
    UnsupportedAddressType,
}

impl SocksError {
    /// A short name for the error, for reporting outside the library.
    pub fn describe(&self) -> (r: &'static str)
        ensures
            r@.len() > 0,
            (self is Transport ==> r@ == "transport failure"@),
            (self is UnsupportedVersion ==> r@ == "unsupported protocol version"@),
            (self is UnsupportedAuthMethod ==> r@ == "unsupported authentication method"@),
            (self is UnsupportedCommand ==> r@ == "unsupported command"@),
            (self is UnsupportedAddressType ==> r@ == "unsupported address type"@),
    {
        proof {
            reveal_strlit("transport failure");
            reveal_strlit("unsupported protocol version");
            reveal_strlit("unsupported authentication method");
            reveal_strlit("unsupported command");
            reveal_strlit("unsupported address type");
        }
        match self {
            SocksError::Transport => "transport failure",
            SocksError::UnsupportedVersion => "unsupported protocol version",
            SocksError::UnsupportedAuthMethod => "unsupported authentication method",
            SocksError::UnsupportedCommand => "unsupported command",
            SocksError::UnsupportedAddressType => "unsupported address type",
        }
    }
}

} // verus!
