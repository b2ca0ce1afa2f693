//! The session state machine: one client connection from handshake to close.
//!
//! The driver around the library performs the socket work; the machine here
//! makes every decision.  The driver feeds each outcome in as an [`Event`],
//! and [`step`] answers with the next [`State`], the bytes owed to the
//! client (if any), and the next [`Io`] to perform.  When a read, a write,
//! a bind or a relay fails with an I/O error, the driver stops the session
//! itself and reports a transport failure, as the protocol prescribes no
//! reply for those; the one I/O failure the machine handles is the outbound
//! connect, which is answered with a failure reply.

use crate::addr::{decode_domain, decode_ipv4, decode_ipv6, lossy_text, spec_ipv4_text,
    spec_ipv6_text};
use crate::error::SocksError;
use crate::handshake::{negotiate, spec_method_reply, version_supported};
use crate::reply::{encode_reply, port_from_be, spec_reply};
use vstd::pervasive::unreached;
use vstd::prelude::*;

verus! {

/// The socket work the driver must perform next.
pub enum Io {
    /// Read exactly this many bytes from the client.
    Read(usize),
    /// Connect to the target named by this text, at this port.
    Connect(String, u16),
    /// Open a passive TCP listener on an ephemeral port.
    TcpBind,
    /// Accept one inbound connection on the listener just opened.
    Accept,
    /// Open a UDP socket on an ephemeral port.
    UdpBind,
    /// Relay bytes both ways until both directions have ended.
    Relay,
    /// The session is over; release its sockets.
    Stop,
}

/// What the world reported back to the machine.
pub enum Event {
    /// A read completed with exactly the requested bytes.
    Bytes(Vec<u8>),
    /// The outbound connection to the target was established.
    ConnectOk,
    /// The outbound connection to the target failed.
    ConnectFailed,
    /// A TCP listener was bound to this local port.
    TcpBound(u16),
    /// The listener accepted one inbound connection.
    Accepted,
    /// The listener failed while accepting.
    AcceptFailed,
    /// A UDP socket was bound to this local port.
    UdpBound(u16),
    /// Both relay directions reached end-of-stream or an error.
    RelayDone,
}

/// Where one session stands.
pub enum State {
    /// Awaiting the two handshake header bytes: version and method count.
    HsHeader,
    /// Awaiting the offered authentication method bytes.
    HsMethods { nmethods: u8 },
    /// Awaiting the four request header bytes.
    ReqHeader,
    /// Awaiting the four bytes of an IPv4 target address.
    Ipv4Bytes { command: u8 },
    /// Awaiting the one-byte length of a domain-name target.
    DomainLen { command: u8 },
    /// Awaiting the bytes of a domain-name target.
    DomainBytes { command: u8, len: u8 },
    /// Awaiting the sixteen bytes of an IPv6 target address.
    Ipv6Bytes { command: u8 },
    /// Awaiting the two big-endian port bytes.
    PortBytes { command: u8, addr: String },
    /// Awaiting the outcome of the outbound connect; the port is the one
    /// the client asked for, echoed back in the success reply.
    Connecting { port: u16 },
    /// Awaiting the end of the duplex relay.
    Relaying,
    /// Awaiting the passive listener's local port.
    TcpBinding,
    /// Awaiting one inbound connection; the port is the listener's, echoed
    /// again in the second reply.
    Accepting { port: u16 },
    /// Awaiting the UDP socket's local port.
    UdpBinding,
    /// The session has ended: cleanly, or with the error held here.
    Done { error: Option<SocksError> },
}

/// One transition's outcome: the next state, the bytes owed to the client
/// before anything else happens (if any), and the next I/O to perform.
pub struct Step {
    pub next: State,
    pub write: Option<Vec<u8>>,
    pub io: Io,
}

/// The event a state is prepared for.  A read must have yielded exactly the
/// number of bytes the state asked for, and each waiting state takes only
/// the outcomes of the I/O it requested.  `Done` is terminal.
pub open spec fn expects(s: State, e: Event) -> bool {
    match s {
        State::HsHeader => e matches Event::Bytes(b) && b@.len() == 2,
        State::HsMethods { nmethods } => e matches Event::Bytes(b) && b@.len() == nmethods as int,
        State::ReqHeader => e matches Event::Bytes(b) && b@.len() == 4,
        State::Ipv4Bytes { .. } => e matches Event::Bytes(b) && b@.len() == 4,
        State::DomainLen { .. } => e matches Event::Bytes(b) && b@.len() == 1,
        State::DomainBytes { len, .. } => e matches Event::Bytes(b) && b@.len() == len as int,
        State::Ipv6Bytes { .. } => e matches Event::Bytes(b) && b@.len() == 16,
        State::PortBytes { .. } => e matches Event::Bytes(b) && b@.len() == 2,
        State::Connecting { .. } => e is ConnectOk || e is ConnectFailed,
        State::Relaying => e is RelayDone,
        State::TcpBinding => e is TcpBound,
        State::Accepting { .. } => e is Accepted || e is AcceptFailed,
        State::UdpBinding => e is UdpBound,
        State::Done { .. } => false,
    }
}

/// The transition relation of the session machine: exactly what `step`
/// answers for each prepared state and event.
pub open spec fn transition(s: State, e: Event, r: Step) -> bool {
    match s {
        State::HsHeader => e matches Event::Bytes(b) && {
            if b@[0] != 5 {
                &&& r.next == State::Done { error: Some(SocksError::UnsupportedVersion) }
                &&& r.write is None
                &&& r.io is Stop
            } else {
                &&& r.next == State::HsMethods { nmethods: b@[1] }
                &&& r.write is None
                &&& r.io == Io::Read(b@[1] as usize)
            }
        },
        State::HsMethods { .. } => e matches Event::Bytes(b) && {
            &&& r.write matches Some(w) && w@ == spec_method_reply(b@)
            &&& if b@.contains(0u8) {
                r.next == State::ReqHeader && r.io == Io::Read(4usize)
            } else {
                r.next == State::Done { error: Some(SocksError::UnsupportedAuthMethod) }
                    && r.io is Stop
            }
        },
        State::ReqHeader => e matches Event::Bytes(b) && {
            let command = b@[1];
            let atype = b@[3];
            &&& r.write is None
            &&& if atype == 1 {
                r.next == State::Ipv4Bytes { command } && r.io == Io::Read(4usize)
            } else if atype == 3 {
                r.next == State::DomainLen { command } && r.io == Io::Read(1usize)
            } else if atype == 4 {
                r.next == State::Ipv6Bytes { command } && r.io == Io::Read(16usize)
            } else {
                r.next == State::Done { error: Some(SocksError::UnsupportedAddressType) }
                    && r.io is Stop
            }
        },
        State::Ipv4Bytes { command } => e matches Event::Bytes(b) && {
            &&& r.next matches State::PortBytes { command: c, addr }
            &&& c == command
            &&& addr@ == spec_ipv4_text(b@)
            &&& r.write is None
            &&& r.io == Io::Read(2usize)
        },
        State::DomainLen { command } => e matches Event::Bytes(b) && {
            &&& r.next == State::DomainBytes { command, len: b@[0] }
            &&& r.write is None
            &&& r.io == Io::Read(b@[0] as usize)
        },
        State::DomainBytes { command, .. } => e matches Event::Bytes(b) && {
            &&& r.next matches State::PortBytes { command: c, addr }
            &&& c == command
            &&& addr@ == lossy_text(b@)
            &&& r.write is None
            &&& r.io == Io::Read(2usize)
        },
        State::Ipv6Bytes { command } => e matches Event::Bytes(b) && {
            &&& r.next matches State::PortBytes { command: c, addr }
            &&& c == command
            &&& addr@ == spec_ipv6_text(b@)
            &&& r.write is None
            &&& r.io == Io::Read(2usize)
        },
        State::PortBytes { command, addr } => e matches Event::Bytes(b) && {
            let port = (b@[0] * 256 + b@[1]) as u16;
            &&& r.write is None
            &&& if command == 1 {
                &&& r.next == State::Connecting { port }
                &&& r.io matches Io::Connect(a, p) && a@ == addr@ && p == port
            } else if command == 2 {
                r.next == State::TcpBinding && r.io is TcpBind
            } else if command == 3 {
                r.next == State::UdpBinding && r.io is UdpBind
            } else {
                r.next == State::Done { error: Some(SocksError::UnsupportedCommand) }
                    && r.io is Stop
            }
        },
        State::Connecting { port } => match e {
            Event::ConnectOk => {
                &&& r.next is Relaying
                &&& r.write matches Some(w) && w@ == spec_reply(0, port)
                &&& r.io is Relay
            },
            Event::ConnectFailed => {
                &&& r.next == State::Done { error: Some(SocksError::Transport) }
                &&& r.write matches Some(w) && w@ == spec_reply(1, 0)
                &&& r.io is Stop
            },
            _ => false,
        },
        State::Relaying => {
            &&& e is RelayDone
            &&& r.next == State::Done { error: None::<SocksError> }
            &&& r.write is None
            &&& r.io is Stop
        },
        State::TcpBinding => e matches Event::TcpBound(p) && {
            &&& r.next == State::Accepting { port: p }
            &&& r.write matches Some(w) && w@ == spec_reply(0, p)
            &&& r.io is Accept
        },
        State::Accepting { port } => match e {
            Event::Accepted => {
                &&& r.next == State::Done { error: None::<SocksError> }
                &&& r.write matches Some(w) && w@ == spec_reply(0, port)
                &&& r.io is Stop
            },
            Event::AcceptFailed => {
                &&& r.next == State::Done { error: None::<SocksError> }
                &&& r.write is None
                &&& r.io is Stop
            },
            _ => false,
        },
        State::UdpBinding => e matches Event::UdpBound(p) && {
            &&& r.next == State::Done { error: None::<SocksError> }
            &&& r.write matches Some(w) && w@ == spec_reply(0, p)
            &&& r.io is Stop
        },
        State::Done { .. } => false,
    }
}

/// Advances one session by one event.
///
/// This is the whole protocol in one place: the handshake negotiator, the
/// request parser, the address codec, the command dispatcher and the reply
/// encoder each run at the step where the wire format puts them.  The
/// answer is pinned down exactly by [`transition`].
pub fn step(s: State, e: Event) -> (r: Step)
    requires
        expects(s, e),
    ensures
        transition(s, e, r),
{
    match (s, e) {
        (State::HsHeader, Event::Bytes(b)) => {
            if !version_supported(b[0]) {
                Step {
                    next: State::Done { error: Some(SocksError::UnsupportedVersion) },
                    write: None,
                    io: Io::Stop,
                }
            } else {
                let n: u8 = b[1];
                Step {
                    next: State::HsMethods { nmethods: n },
                    write: None,
                    io: Io::Read(n as usize),
                }
            }
        },
        (State::HsMethods { .. }, Event::Bytes(b)) => {
            let outcome = negotiate(&b);
            if outcome.accepted {
                Step { next: State::ReqHeader, write: Some(outcome.reply), io: Io::Read(4) }
            } else {
                Step {
                    next: State::Done { error: Some(SocksError::UnsupportedAuthMethod) },
                    write: Some(outcome.reply),
                    io: Io::Stop,
                }
            }
        },
        (State::ReqHeader, Event::Bytes(b)) => {
            let command: u8 = b[1];
            let atype: u8 = b[3];
            if atype == 1 {
                Step { next: State::Ipv4Bytes { command }, write: None, io: Io::Read(4) }
            } else if atype == 3 {
                Step { next: State::DomainLen { command }, write: None, io: Io::Read(1) }
            } else if atype == 4 {
                Step { next: State::Ipv6Bytes { command }, write: None, io: Io::Read(16) }
            } else {
                Step {
                    next: State::Done { error: Some(SocksError::UnsupportedAddressType) },
                    write: None,
                    io: Io::Stop,
                }
            }
        },
        (State::Ipv4Bytes { command }, Event::Bytes(b)) => {
            let addr = decode_ipv4(&b);
            Step { next: State::PortBytes { command, addr }, write: None, io: Io::Read(2) }
        },
        (State::DomainLen { command }, Event::Bytes(b)) => {
            let len: u8 = b[0];
            Step {
                next: State::DomainBytes { command, len },
                write: None,
                io: Io::Read(len as usize),
            }
        },
        (State::DomainBytes { command, .. }, Event::Bytes(b)) => {
            let addr = decode_domain(&b);
            Step { next: State::PortBytes { command, addr }, write: None, io: Io::Read(2) }
        },
        (State::Ipv6Bytes { command }, Event::Bytes(b)) => {
            let addr = decode_ipv6(&b);
            Step { next: State::PortBytes { command, addr }, write: None, io: Io::Read(2) }
        },
        (State::PortBytes { command, addr }, Event::Bytes(b)) => {
            let port = port_from_be(b[0], b[1]);
            if command == 1 {
                Step {
                    next: State::Connecting { port },
                    write: None,
                    io: Io::Connect(addr, port),
                }
            } else if command == 2 {
                Step { next: State::TcpBinding, write: None, io: Io::TcpBind }
            } else if command == 3 {
                Step { next: State::UdpBinding, write: None, io: Io::UdpBind }
            } else {
                Step {
                    next: State::Done { error: Some(SocksError::UnsupportedCommand) },
                    write: None,
                    io: Io::Stop,
                }
            }
        },
        (State::Connecting { port }, Event::ConnectOk) => Step {
            next: State::Relaying,
            write: Some(encode_reply(0, port)),
            io: Io::Relay,
        },
        (State::Connecting { .. }, Event::ConnectFailed) => Step {
            next: State::Done { error: Some(SocksError::Transport) },
            write: Some(encode_reply(1, 0)),
            io: Io::Stop,
        },
        (State::Relaying, Event::RelayDone) => Step {
            next: State::Done { error: None },
            write: None,
            io: Io::Stop,
        },
        (State::TcpBinding, Event::TcpBound(p)) => Step {
            next: State::Accepting { port: p },
            write: Some(encode_reply(0, p)),
            io: Io::Accept,
        },
        (State::Accepting { port }, Event::Accepted) => Step {
            next: State::Done { error: None },
            write: Some(encode_reply(0, port)),
            io: Io::Stop,
        },
        (State::Accepting { .. }, Event::AcceptFailed) => Step {
            next: State::Done { error: None },
            write: None,
            io: Io::Stop,
        },
        (State::UdpBinding, Event::UdpBound(p)) => Step {
            next: State::Done { error: None },
            write: Some(encode_reply(0, p)),
            io: Io::Stop,
        },
        _ => unreached(),
    }
}

/// Law: a handshake header carrying version 5 is taken silently: nothing
/// is written and the machine goes on to read the offered methods.
pub proof fn law_version_accepted(b: Vec<u8>, r: Step)
    requires
        b@.len() == 2,
        b@[0] == 5,
        transition(State::HsHeader, Event::Bytes(b), r),
    ensures
        (r.write is None),
        (r.next == State::HsMethods { nmethods: b@[1] }),
        r.io == Io::Read(b@[1] as usize),
{
}

/// Law: a handshake whose version byte is not 5 gets no reply at all: the
/// machine writes nothing and the session ends with `UnsupportedVersion`.
pub proof fn law_bad_version_silent(b: Vec<u8>, r: Step)
    requires
        b@.len() == 2,
        b@[0] != 5,
        transition(State::HsHeader, Event::Bytes(b), r),
    ensures
        (r.write is None),
        (r.next == State::Done { error: Some(SocksError::UnsupportedVersion) }),
        (r.io is Stop),
{
}

/// Law: a method list that offers "no authentication" is answered with
/// exactly `[5, 0]` and the session proceeds to request parsing.
pub proof fn law_no_auth_accepted(n: u8, b: Vec<u8>, r: Step)
    requires
        b@.len() == n as int,
        b@.contains(0u8),
        (transition(State::HsMethods { nmethods: n }, Event::Bytes(b), r)),
    ensures
        (r.write matches Some(w) && w@ == seq![5u8, 0u8]),
        r.next == State::ReqHeader,
        r.io == Io::Read(4usize),
{
}

/// Law: a method list without "no authentication" is answered with exactly
/// `[5, 0xFF]` and the session ends with `UnsupportedAuthMethod`.
pub proof fn law_no_auth_refused(n: u8, b: Vec<u8>, r: Step)
    requires
        b@.len() == n as int,
        !b@.contains(0u8),
        (transition(State::HsMethods { nmethods: n }, Event::Bytes(b), r)),
    ensures
        (r.write matches Some(w) && w@ == seq![5u8, 0xFFu8]),
        (r.next == State::Done { error: Some(SocksError::UnsupportedAuthMethod) }),
        (r.io is Stop),
{
}

/// Law: when the outbound connect succeeds, the reply carries status 0 and
/// echoes the requested port, and the duplex relay is started.
pub proof fn law_connect_success(port: u16, r: Step)
    requires
        (transition(State::Connecting { port }, Event::ConnectOk, r)),
    ensures
        (r.write matches Some(w) && w@ == spec_reply(0, port) && w@[1] == 0u8),
        (r.next is Relaying),
        (r.io is Relay),
{
}

/// Law: when the outbound connect fails, the reply is status 1 with every
/// other variable byte zero, the session ends with a transport error, and
/// no relay is started.
pub proof fn law_connect_failure(port: u16, r: Step)
    requires
        (transition(State::Connecting { port }, Event::ConnectFailed, r)),
    ensures
        (r.write matches Some(w) && w@ == seq![5u8, 1u8, 0u8, 1u8, 0u8, 0u8, 0u8, 0u8, 0u8, 0u8]),
        (r.next == State::Done { error: Some(SocksError::Transport) }),
        (r.io is Stop),
        (!(r.io is Relay)),
{
    assert(spec_reply(1, 0) =~= seq![5u8, 1u8, 0u8, 1u8, 0u8, 0u8, 0u8, 0u8, 0u8, 0u8]);
}

/// Law: a command byte naming no known command ends the session with
/// `UnsupportedCommand`, and nothing is written.
pub proof fn law_unsupported_command(command: u8, addr: String, b: Vec<u8>, r: Step)
    requires
        command != 1,
        command != 2,
        command != 3,
        b@.len() == 2,
        (transition(State::PortBytes { command, addr }, Event::Bytes(b), r)),
    ensures
        (r.write is None),
        (r.next == State::Done { error: Some(SocksError::UnsupportedCommand) }),
        (r.io is Stop),
{
}

/// Law: once both relay directions have ended, the machine closes the
/// session cleanly: the terminal state carries no error and the driver is
/// told to stop and release the sockets.
pub proof fn law_relay_end(r: Step)
    requires
        transition(State::Relaying, Event::RelayDone, r),
    ensures
        (r.next == State::Done { error: None::<SocksError> }),
        (r.write is None),
        (r.io is Stop),
{
}

} // verus!
