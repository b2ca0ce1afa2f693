use socks_puppet::error::SocksError;
use socks_puppet::session::{step, Event, Io, State};

#[test]
fn connect_success_trace() {
    let s1 = step(State::HsHeader, Event::Bytes(vec![5, 1]));
    assert!(s1.write.is_none());
    assert!(matches!(s1.io, Io::Read(1)));
    assert!(matches!(&s1.next, State::HsMethods { nmethods: 1 }));

    let s2 = step(s1.next, Event::Bytes(vec![0]));
    assert_eq!(s2.write, Some(vec![5, 0]));
    assert!(matches!(s2.io, Io::Read(4)));
    assert!(matches!(&s2.next, State::ReqHeader));

    let s3 = step(s2.next, Event::Bytes(vec![5, 1, 0, 1]));
    assert!(s3.write.is_none());
    assert!(matches!(s3.io, Io::Read(4)));
    assert!(matches!(&s3.next, State::Ipv4Bytes { command: 1 }));

    let s4 = step(s3.next, Event::Bytes(vec![127, 0, 0, 1]));
    assert!(s4.write.is_none());
    assert!(matches!(s4.io, Io::Read(2)));

    let s5 = step(s4.next, Event::Bytes(vec![0, 80]));
    assert!(s5.write.is_none());
    match &s5.io {
        Io::Connect(addr, port) => {
            assert_eq!(addr, "127.0.0.1");
            assert_eq!(*port, 80);
        }
        _ => panic!("expected a connect"),
    }
    assert!(matches!(&s5.next, State::Connecting { port: 80 }));

    let s6 = step(s5.next, Event::ConnectOk);
    assert_eq!(s6.write, Some(vec![5, 0, 0, 1, 0, 0, 0, 0, 0, 80]));
    assert!(matches!(s6.io, Io::Relay));
    assert!(matches!(&s6.next, State::Relaying));

    let s7 = step(s6.next, Event::RelayDone);
    assert!(s7.write.is_none());
    assert!(matches!(s7.io, Io::Stop));
    assert!(matches!(&s7.next, State::Done { error: None }));
}

#[test]
fn connect_failure_trace() {
    let s = step(State::Connecting { port: 81 }, Event::ConnectFailed);
    assert_eq!(s.write, Some(vec![5, 1, 0, 1, 0, 0, 0, 0, 0, 0]));
    assert!(matches!(s.io, Io::Stop));
    assert!(matches!(
        &s.next,
        State::Done { error: Some(SocksError::Transport) }
    ));
}

#[test]
fn bad_version_is_silent() {
    let s = step(State::HsHeader, Event::Bytes(vec![4, 1]));
    assert!(s.write.is_none());
    assert!(matches!(s.io, Io::Stop));
    assert!(matches!(
        &s.next,
        State::Done { error: Some(SocksError::UnsupportedVersion) }
    ));
}

#[test]
fn auth_refused_trace() {
    let s1 = step(State::HsHeader, Event::Bytes(vec![5, 2]));
    assert!(matches!(s1.io, Io::Read(2)));
    let s2 = step(s1.next, Event::Bytes(vec![1, 2]));
    assert_eq!(s2.write, Some(vec![5, 0xFF]));
    assert!(matches!(s2.io, Io::Stop));
    assert!(matches!(
        &s2.next,
        State::Done { error: Some(SocksError::UnsupportedAuthMethod) }
    ));
}

#[test]
fn empty_method_list_trace() {
    let s1 = step(State::HsHeader, Event::Bytes(vec![5, 0]));
    assert!(matches!(s1.io, Io::Read(0)));
    let s2 = step(s1.next, Event::Bytes(vec![]));
    assert_eq!(s2.write, Some(vec![5, 0xFF]));
    assert!(matches!(
        &s2.next,
        State::Done { error: Some(SocksError::UnsupportedAuthMethod) }
    ));
}

#[test]
fn unsupported_command_trace() {
    let s1 = step(State::ReqHeader, Event::Bytes(vec![5, 5, 0, 1]));
    assert!(s1.write.is_none());
    let s2 = step(s1.next, Event::Bytes(vec![127, 0, 0, 1]));
    assert!(s2.write.is_none());
    let s3 = step(s2.next, Event::Bytes(vec![0, 80]));
    assert!(s3.write.is_none());
    assert!(matches!(s3.io, Io::Stop));
    assert!(matches!(
        &s3.next,
        State::Done { error: Some(SocksError::UnsupportedCommand) }
    ));
}

#[test]
fn unsupported_address_type_trace() {
    let s = step(State::ReqHeader, Event::Bytes(vec![5, 1, 0, 2]));
    assert!(s.write.is_none());
    assert!(matches!(s.io, Io::Stop));
    assert!(matches!(
        &s.next,
        State::Done { error: Some(SocksError::UnsupportedAddressType) }
    ));
}

#[test]
fn domain_request_trace() {
    let s1 = step(State::ReqHeader, Event::Bytes(vec![5, 1, 0, 3]));
    assert!(matches!(s1.io, Io::Read(1)));
    let s2 = step(s1.next, Event::Bytes(vec![11]));
    assert!(matches!(s2.io, Io::Read(11)));
    let s3 = step(s2.next, Event::Bytes(b"example.com".to_vec()));
    assert!(matches!(s3.io, Io::Read(2)));
    match &s3.next {
        State::PortBytes { command, addr } => {
            assert_eq!(*command, 1);
            assert_eq!(addr, "example.com");
        }
        _ => panic!("expected the port state"),
    }
    let s4 = step(s3.next, Event::Bytes(vec![0x1F, 0x90]));
    match &s4.io {
        Io::Connect(addr, port) => {
            assert_eq!(addr, "example.com");
            assert_eq!(*port, 8080);
        }
        _ => panic!("expected a connect"),
    }
}

#[test]
fn zero_length_domain_trace() {
    let s1 = step(State::DomainLen { command: 1 }, Event::Bytes(vec![0]));
    assert!(matches!(s1.io, Io::Read(0)));
    let s2 = step(s1.next, Event::Bytes(vec![]));
    match &s2.next {
        State::PortBytes { command: 1, addr } => assert_eq!(addr, ""),
        _ => panic!("expected the port state"),
    }
}

#[test]
fn ipv6_request_trace() {
    let s1 = step(State::ReqHeader, Event::Bytes(vec![5, 1, 0, 4]));
    assert!(matches!(s1.io, Io::Read(16)));
    let mut a = vec![0u8; 16];
    a[15] = 1;
    let s2 = step(s1.next, Event::Bytes(a));
    match &s2.next {
        State::PortBytes { command: 1, addr } => {
            assert_eq!(addr, "[0000:0000:0000:0000:0000:0000:0000:0001]");
        }
        _ => panic!("expected the port state"),
    }
}

#[test]
fn bind_trace() {
    let s1 = step(
        State::PortBytes { command: 2, addr: String::from("127.0.0.1") },
        Event::Bytes(vec![0, 80]),
    );
    assert!(s1.write.is_none());
    assert!(matches!(s1.io, Io::TcpBind));
    assert!(matches!(&s1.next, State::TcpBinding));

    let s2 = step(s1.next, Event::TcpBound(4242));
    assert_eq!(s2.write, Some(vec![5, 0, 0, 1, 0, 0, 0, 0, 0x10, 0x92]));
    assert!(matches!(s2.io, Io::Accept));
    assert!(matches!(&s2.next, State::Accepting { port: 4242 }));

    let s3 = step(s2.next, Event::Accepted);
    assert_eq!(s3.write, Some(vec![5, 0, 0, 1, 0, 0, 0, 0, 0x10, 0x92]));
    assert!(matches!(s3.io, Io::Stop));
    assert!(matches!(&s3.next, State::Done { error: None }));
}

#[test]
fn bind_accept_failure_trace() {
    let s = step(State::Accepting { port: 4242 }, Event::AcceptFailed);
    assert!(s.write.is_none());
    assert!(matches!(s.io, Io::Stop));
    assert!(matches!(&s.next, State::Done { error: None }));
}

#[test]
fn udp_trace() {
    let s1 = step(
        State::PortBytes { command: 3, addr: String::from("127.0.0.1") },
        Event::Bytes(vec![0, 80]),
    );
    assert!(s1.write.is_none());
    assert!(matches!(s1.io, Io::UdpBind));
    assert!(matches!(&s1.next, State::UdpBinding));

    let s2 = step(s1.next, Event::UdpBound(9999));
    assert_eq!(s2.write, Some(vec![5, 0, 0, 1, 0, 0, 0, 0, 0x27, 0x0F]));
    assert!(matches!(s2.io, Io::Stop));
    assert!(matches!(&s2.next, State::Done { error: None }));
}
