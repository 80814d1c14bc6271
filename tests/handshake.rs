use socks5_relay::config::{auth_mode_from, AuthMode, ConfigError, ServerConfig};
use socks5_relay::endpoint::Endpoint;
use socks5_relay::handshake::{constant_time_eq, Command, Handshake, HandshakeError, Next, Phase};
use socks5_relay::reply::{
    associate_reply, connect_failure_reply, connect_success_reply, ConnectErrorKind,
};

/// Feeds `input` to the handshake chunk by chunk, as a client stream would
/// deliver it. Returns everything written back and the final `Next`, or
/// `None` when the input ran out first.
fn drive(h: &mut Handshake, input: &[u8]) -> (Vec<u8>, Option<Next>) {
    let mut out = Vec::new();
    let mut pos = 0;
    loop {
        let want = h.wanted();
        if pos + want > input.len() {
            return (out, None);
        }
        let step = h.feed(&input[pos..pos + want]);
        pos += want;
        out.extend_from_slice(&step.reply);
        match step.next {
            Next::Read(_) => {}
            other => return (out, Some(other)),
        }
    }
}

fn user_pass() -> AuthMode {
    auth_mode_from(Some(b"alice".to_vec()), Some(b"pw".to_vec())).unwrap()
}

#[test]
fn no_auth_connect_to_localhost() {
    let mut h = Handshake::new(AuthMode::NoAuth);
    let (out, next) = drive(&mut h, &[0x05, 0x01, 0x00]);
    assert_eq!(out, vec![0x05, 0x00]);
    assert!(next.is_none());
    let (out, next) = drive(&mut h, &[0x05, 0x01, 0x00, 0x01, 0x7F, 0x00, 0x00, 0x01, 0x00, 0x50]);
    assert!(out.is_empty());
    let expected = Endpoint::V4 { octets: [127, 0, 0, 1], port: 80 };
    match next {
        Some(Next::Ready(req)) => {
            assert_eq!(req.command, Command::Connect);
            assert_eq!(req.target, expected);
        }
        other => panic!("unexpected {:?}", other),
    }
    assert_eq!(connect_success_reply(), vec![0x05, 0x00, 0x00, 0x01, 0, 0, 0, 0, 0, 0]);
}

#[test]
fn unsupported_version_closes_silently() {
    let mut h = Handshake::new(AuthMode::NoAuth);
    let (out, next) = drive(&mut h, &[0x04, 0x01, 0x00]);
    assert!(out.is_empty());
    assert_eq!(next, Some(Next::Failed(HandshakeError::ProtocolError)));
    assert_eq!(h.phase(), Phase::Finished);
}

#[test]
fn user_pass_wrong_method_then_success() {
    let mut h = Handshake::new(user_pass());
    let (out, next) = drive(&mut h, &[0x05, 0x01, 0x00]);
    assert_eq!(out, vec![0x05, 0xFF]);
    assert_eq!(next, Some(Next::Failed(HandshakeError::NoAcceptableMethod)));

    let mut h = Handshake::new(user_pass());
    let mut input = vec![0x05, 0x01, 0x02, 0x01, 0x05];
    input.extend_from_slice(b"alice");
    input.push(0x02);
    input.extend_from_slice(b"pw");
    let (out, next) = drive(&mut h, &input);
    assert_eq!(out, vec![0x05, 0x02, 0x01, 0x00]);
    assert!(next.is_none());
    assert_eq!(h.phase(), Phase::RequestHead);
    assert_eq!(h.wanted(), 4);
}

#[test]
fn user_pass_wrong_password_fails() {
    let mut h = Handshake::new(user_pass());
    let mut input = vec![0x05, 0x02, 0x00, 0x02, 0x01, 0x05];
    input.extend_from_slice(b"alice");
    input.push(0x02);
    input.extend_from_slice(b"px");
    let (out, next) = drive(&mut h, &input);
    assert_eq!(out, vec![0x05, 0x02, 0x01, 0x01]);
    assert_eq!(next, Some(Next::Failed(HandshakeError::AuthFailed)));
}

#[test]
fn user_pass_bad_sub_negotiation_version() {
    let mut h = Handshake::new(user_pass());
    let (out, next) = drive(&mut h, &[0x05, 0x01, 0x02, 0x05]);
    assert_eq!(out, vec![0x05, 0x02]);
    assert_eq!(next, Some(Next::Failed(HandshakeError::ProtocolError)));
}

#[test]
fn auth_required_no_auth_method_alone_refused() {
    let mut h = Handshake::new(user_pass());
    let (out, next) = drive(&mut h, &[0x05, 0x02, 0x00, 0x01]);
    assert_eq!(out, vec![0x05, 0xFF]);
    assert_eq!(next, Some(Next::Failed(HandshakeError::NoAcceptableMethod)));
}

#[test]
fn no_auth_without_method_zero_refused() {
    let mut h = Handshake::new(AuthMode::NoAuth);
    let (out, next) = drive(&mut h, &[0x05, 0x01, 0x02]);
    assert_eq!(out, vec![0x05, 0xFF]);
    assert_eq!(next, Some(Next::Failed(HandshakeError::NoAcceptableMethod)));
}

#[test]
fn zero_methods_refused() {
    let mut h = Handshake::new(AuthMode::NoAuth);
    let (out, next) = drive(&mut h, &[0x05, 0x00]);
    assert_eq!(out, vec![0x05, 0xFF]);
    assert_eq!(next, Some(Next::Failed(HandshakeError::NoAcceptableMethod)));
}

#[test]
fn bind_rejected() {
    let mut h = Handshake::new(AuthMode::NoAuth);
    drive(&mut h, &[0x05, 0x01, 0x00]);
    let (out, next) = drive(&mut h, &[0x05, 0x02, 0x00, 0x01, 0x01, 0x02, 0x03, 0x04, 0x00, 0x50]);
    assert_eq!(out, vec![0x05, 0x07, 0x00, 0x01, 0x00, 0x00, 0x00, 0x00, 0x00, 0x00]);
    assert_eq!(next, Some(Next::Failed(HandshakeError::UnsupportedCommand)));
    let step = h.feed(&[]);
    assert!(step.reply.is_empty());
}

#[test]
fn unknown_address_type_rejected() {
    let mut h = Handshake::new(AuthMode::NoAuth);
    drive(&mut h, &[0x05, 0x01, 0x00]);
    let (out, next) = drive(&mut h, &[0x05, 0x01, 0x00, 0x05]);
    assert_eq!(out, vec![0x05, 0x08, 0x00, 0x01, 0, 0, 0, 0, 0, 0]);
    assert_eq!(next, Some(Next::Failed(HandshakeError::UnsupportedAddressType)));
}

#[test]
fn request_bad_version_closes_silently() {
    let mut h = Handshake::new(AuthMode::NoAuth);
    drive(&mut h, &[0x05, 0x01, 0x00]);
    let (out, next) = drive(&mut h, &[0x04, 0x01, 0x00, 0x01]);
    assert!(out.is_empty());
    assert_eq!(next, Some(Next::Failed(HandshakeError::ProtocolError)));
}

#[test]
fn empty_domain_rejected_with_general_failure() {
    let mut h = Handshake::new(AuthMode::NoAuth);
    drive(&mut h, &[0x05, 0x01, 0x00]);
    let (out, next) = drive(&mut h, &[0x05, 0x01, 0x00, 0x03, 0x00]);
    assert_eq!(out, vec![0x05, 0x01, 0x00, 0x01, 0, 0, 0, 0, 0, 0]);
    assert_eq!(next, Some(Next::Failed(HandshakeError::MalformedAddress)));
}

#[test]
fn domain_and_ipv6_requests() {
    let mut h = Handshake::new(AuthMode::NoAuth);
    drive(&mut h, &[0x05, 0x01, 0x00]);
    let mut req = vec![0x05, 0x03, 0x00, 0x03, 0x0B];
    req.extend_from_slice(b"example.com");
    req.extend_from_slice(&[0x01, 0xBB]);
    let (_, next) = drive(&mut h, &req);
    match next {
        Some(Next::Ready(r)) => {
            assert_eq!(r.command, Command::UdpAssociate);
            assert_eq!(r.target, Endpoint::Domain { name: b"example.com".to_vec(), port: 443 });
        }
        other => panic!("unexpected {:?}", other),
    }

    let mut h = Handshake::new(AuthMode::NoAuth);
    drive(&mut h, &[0x05, 0x01, 0x00]);
    let mut req = vec![0x05, 0x01, 0x00, 0x04];
    let mut ip = [0u8; 16];
    ip[15] = 1;
    req.extend_from_slice(&ip);
    req.extend_from_slice(&[0xFF, 0xFF]);
    let (_, next) = drive(&mut h, &req);
    match next {
        Some(Next::Ready(r)) => {
            assert_eq!(r.command, Command::Connect);
            assert_eq!(r.target, Endpoint::V6 { octets: ip, port: 65535 });
        }
        other => panic!("unexpected {:?}", other),
    }
}

#[test]
fn connect_refused_reply() {
    assert_eq!(
        connect_failure_reply(ConnectErrorKind::ConnectionRefused),
        vec![0x05, 0x05, 0x00, 0x01, 0x00, 0x00, 0x00, 0x00, 0x00, 0x00]
    );
}

#[test]
fn connect_failure_codes() {
    let cases = [
        (ConnectErrorKind::HostUnreachable, 0x04),
        (ConnectErrorKind::NetworkUnreachable, 0x03),
        (ConnectErrorKind::ConnectionRefused, 0x05),
        (ConnectErrorKind::TtlExpired, 0x06),
        (ConnectErrorKind::Other, 0x01),
    ];
    for (kind, rep) in cases {
        assert_eq!(connect_failure_reply(kind)[1], rep);
    }
}

#[test]
fn associate_reply_carries_port() {
    assert_eq!(associate_reply(0x1234), vec![0x05, 0x00, 0x00, 0x01, 0, 0, 0, 0, 0x12, 0x34]);
    let r = associate_reply(40000);
    assert_eq!(u16::from_be_bytes([r[8], r[9]]), 40000);
}

#[test]
fn config_needs_both_credentials() {
    assert_eq!(auth_mode_from(None, None), Ok(AuthMode::NoAuth));
    assert_eq!(
        auth_mode_from(Some(b"u".to_vec()), None),
        Err(ConfigError::UsernameWithoutPassword)
    );
    assert_eq!(
        auth_mode_from(None, Some(b"p".to_vec())),
        Err(ConfigError::PasswordWithoutUsername)
    );
    let c = ServerConfig::new(Some(b"u".to_vec()), Some(b"p".to_vec())).unwrap();
    assert_eq!(c.auth, AuthMode::UserPass { username: b"u".to_vec(), password: b"p".to_vec() });
    assert_eq!(c.handshake_timeout_secs, 10);
    assert_eq!(c.keepalive_idle_secs, 60);
    assert_eq!(c.keepalive_interval_secs, 10);
}

#[test]
fn constant_time_eq_compares_bytes() {
    assert!(constant_time_eq(b"alice", b"alice"));
    assert!(!constant_time_eq(b"alice", b"alicf"));
    assert!(!constant_time_eq(b"alice", b"alic"));
    assert!(constant_time_eq(b"", b""));
}
