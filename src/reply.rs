//! SOCKS5 replies in their 10-byte short form, and the reply codes of each
//! failure.
use vstd::prelude::*;

verus! {

pub const REP_SUCCEEDED: u8 = 0x00;
pub const REP_GENERAL_FAILURE: u8 = 0x01;
pub const REP_NETWORK_UNREACHABLE: u8 = 0x03;
pub const REP_HOST_UNREACHABLE: u8 = 0x04;
pub const REP_CONNECTION_REFUSED: u8 = 0x05;
pub const REP_TTL_EXPIRED: u8 = 0x06;
pub const REP_COMMAND_NOT_SUPPORTED: u8 = 0x07;
pub const REP_ADDRESS_TYPE_NOT_SUPPORTED: u8 = 0x08;

/// How an attempt to connect to a target failed.
#[derive(Clone, Copy, Debug, PartialEq, Eq)]
pub enum ConnectErrorKind {
    HostUnreachable,
    NetworkUnreachable,
    ConnectionRefused,
    TtlExpired,
    Other,
}

/// VER | REP | RSV | ATYP=IPv4 | 0.0.0.0 | port.
pub open spec fn reply_frame(rep: u8, port: u16) -> Seq<u8> {
    seq![0x05u8, rep, 0x00u8, 0x01u8, 0u8, 0u8, 0u8, 0u8, (port / 256) as u8, (port % 256) as u8]
}

/// The reply code for a failed connect.
pub open spec fn connect_error_rep(kind: ConnectErrorKind) -> u8 {
    match kind {
        ConnectErrorKind::HostUnreachable => REP_HOST_UNREACHABLE,
        ConnectErrorKind::NetworkUnreachable => REP_NETWORK_UNREACHABLE,
        ConnectErrorKind::ConnectionRefused => REP_CONNECTION_REFUSED,
        ConnectErrorKind::TtlExpired => REP_TTL_EXPIRED,
        ConnectErrorKind::Other => REP_GENERAL_FAILURE,
    }
}

/// The reply with code `rep` and an all-zero bound address and port.
pub fn reply_error(rep: u8) -> (r: Vec<u8>)
    ensures
        r@ == reply_frame(rep, 0),
{
    let r = vec![0x05u8, rep, 0x00, 0x01, 0, 0, 0, 0, 0, 0];
    assert(r@ =~= reply_frame(rep, 0));
    r
}

/// The success reply sent before a CONNECT relay starts.
pub fn connect_success_reply() -> (r: Vec<u8>)
    ensures
        r@ == reply_frame(REP_SUCCEEDED, 0),
{
    reply_error(REP_SUCCEEDED)
}

/// The success reply of a UDP ASSOCIATE, carrying the relay's bound port.
pub fn associate_reply(bind_port: u16) -> (r: Vec<u8>)
    ensures
        r@ == reply_frame(REP_SUCCEEDED, bind_port),
{
    let r = vec![
        0x05u8,
        REP_SUCCEEDED,
        0x00,
        0x01,
        0,
        0,
        0,
        0,
        (bind_port / 256) as u8,
        (bind_port % 256) as u8,
    ];
    assert(r@ =~= reply_frame(REP_SUCCEEDED, bind_port));
    r
}

/// The reply code for a connect that failed in the way `kind` says.
pub fn connect_error_code(kind: ConnectErrorKind) -> (r: u8)
    ensures
        r == connect_error_rep(kind),
{
    match kind {
        ConnectErrorKind::HostUnreachable => REP_HOST_UNREACHABLE,
        ConnectErrorKind::NetworkUnreachable => REP_NETWORK_UNREACHABLE,
        ConnectErrorKind::ConnectionRefused => REP_CONNECTION_REFUSED,
        ConnectErrorKind::TtlExpired => REP_TTL_EXPIRED,
        ConnectErrorKind::Other => REP_GENERAL_FAILURE,
    }
}

/// The reply for a connect that failed in the way `kind` says.
pub fn connect_failure_reply(kind: ConnectErrorKind) -> (r: Vec<u8>)
    ensures
        r@ == reply_frame(connect_error_rep(kind), 0),
{
    reply_error(connect_error_code(kind))
}

} // verus!
