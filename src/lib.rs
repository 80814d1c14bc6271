//! Protocol core of a SOCKS5 proxy server: address codec, handshake state
//! machine, reply framing, UDP association rules and relay bookkeeping.
pub mod config;
pub mod endpoint;
pub mod handshake;
pub mod relay;
pub mod reply;
pub mod udp;
