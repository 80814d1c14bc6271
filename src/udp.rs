//! The rules of a UDP association: which datagrams count as the client's,
//! where each one goes, and the header that wraps replies to the client.
use crate::endpoint::{
    decode_udp_endpoint, encode_udp_header, parse_address, udp_header_bytes, Endpoint,
    EndpointView,
};
use crate::handshake::constant_time_eq;
use vstd::prelude::*;

verus! {

/// An IP address without a port.
#[derive(Clone, Copy, Debug, PartialEq, Eq)]
pub enum IpAddress {
    V4([u8; 4]),
    V6([u8; 16]),
}

pub enum IpView {
    V4(Seq<u8>),
    V6(Seq<u8>),
}

impl View for IpAddress {
    type V = IpView;

    open spec fn view(&self) -> IpView {
        match self {
            IpAddress::V4(o) => IpView::V4(o@),
            IpAddress::V6(o) => IpView::V6(o@),
        }
    }
}

/// The IP address of a numeric endpoint.
pub open spec fn host_ip(e: EndpointView) -> Option<IpView> {
    match e {
        EndpointView::V4 { octets, .. } => Some(IpView::V4(octets)),
        EndpointView::V6 { octets, .. } => Some(IpView::V6(octets)),
        EndpointView::Domain { .. } => None,
    }
}

/// Reads RSV | FRAG | ATYP | ADDR | PORT at the start of a datagram: the
/// target and the offset of the payload. `None` for a nonzero RSV or FRAG,
/// or an address that does not read.
pub open spec fn parse_udp_header(packet: Seq<u8>) -> Option<(EndpointView, nat)> {
    if packet.len() < 3 || packet[0] != 0 || packet[1] != 0 || packet[2] != 0 {
        None
    } else {
        match parse_address(packet.subrange(3, packet.len() as int)) {
            Ok((e, n)) => Some((e, 3 + n)),
            Err(_) => None,
        }
    }
}

/// Reads the header of a datagram from the client: the target and the
/// offset of the payload.
pub fn decode_udp_header(packet: &[u8]) -> (r: Option<(Endpoint, usize)>)
    ensures
        match (r, parse_udp_header(packet@)) {
            (Some((e, off)), Some((v, n))) => e@ == v && off == n,
            (None, None) => true,
            _ => false,
        },
{
    if packet.len() < 3 || packet[0] != 0 || packet[1] != 0 || packet[2] != 0 {
        return None;
    }
    match decode_udp_endpoint(packet, 3) {
        Ok((e, off)) => Some((e, off)),
        Err(_) => None,
    }
}

/// What to do with one received datagram.
#[derive(Clone, Debug, PartialEq, Eq)]
pub enum UdpAction {
    /// Forward nothing.
    Drop,
    /// Send the bytes of the datagram from `payload_offset` on to `target`
    /// (resolving it first when it is a domain name).
    ToTarget { target: Endpoint, payload_offset: usize },
    /// Send `datagram` to the client's UDP address.
    ToClient { client: Endpoint, datagram: Vec<u8> },
}

/// The client-side state of a UDP association.
pub struct UdpAssociation {
    client_ip_pin: IpAddress,
    client_udp_addr: Option<Endpoint>,
}

pub struct AssociationView {
    pub pin: IpView,
    pub client: Option<EndpointView>,
}

impl View for UdpAssociation {
    type V = AssociationView;

    closed spec fn view(&self) -> AssociationView {
        AssociationView {
            pin: self.client_ip_pin@,
            client: match self.client_udp_addr {
                Some(e) => Some(e@),
                None => None,
            },
        }
    }
}

impl AssociationView {
    /// The recorded client address, if any, is numeric and well formed.
    pub open spec fn wf(self) -> bool {
        match self.client {
            Some(c) => c.is_numeric() && c.wf(),
            None => true,
        }
    }
}

/// Whether a datagram from `src` counts as the client's: its IP is the pinned one.
pub open spec fn from_client(a: AssociationView, src: EndpointView) -> bool {
    host_ip(src) == Some(a.pin)
}

impl UdpAssociation {
    /// A fresh association pinned to the IP of the controlling TCP peer.
    pub fn new(client_ip_pin: IpAddress) -> (r: UdpAssociation)
        ensures
            r@.pin == client_ip_pin@,
            r@.client is None,
            r@.wf(),
    {
        UdpAssociation { client_ip_pin, client_udp_addr: None }
    }

    /// The client's UDP address, once a datagram from the pinned IP came in.
    pub fn client_udp_addr(&self) -> (r: Option<Endpoint>)
        ensures
            match (r, self@.client) {
                (Some(e), Some(v)) => e@ == v,
                (None, None) => true,
                _ => false,
            },
    {
        match &self.client_udp_addr {
            Some(e) => Some(e.copy()),
            None => None,
        }
    }

    fn is_from_client(&self, src: &Endpoint) -> (r: bool)
        ensures
            r == from_client(self@, src@),
    {
        match (&self.client_ip_pin, src) {
            (IpAddress::V4(pin), Endpoint::V4 { octets, .. }) => {
                let r = constant_time_eq(pin.as_slice(), octets.as_slice());
                r
            },
            (IpAddress::V6(pin), Endpoint::V6 { octets, .. }) => {
                let r = constant_time_eq(pin.as_slice(), octets.as_slice());
                r
            },
            _ => false,
        }
    }

    /// Decides what happens to a datagram of `packet` bytes that came from
    /// `src`. A datagram from the pinned IP records `src` as the client's UDP
    /// address and goes to the target its header names; any other goes back
    /// to the client, wrapped in a header that names `src`, once the client's
    /// address is known.
    pub fn on_datagram(&mut self, src: &Endpoint, packet: &[u8]) -> (r: UdpAction)
        requires
            old(self)@.wf(),
            src@.is_numeric(),
        ensures
            final(self)@.wf(),
            final(self)@.pin == old(self)@.pin,
            from_client(old(self)@, src@) ==> {
                &&& final(self)@.client == Some(src@)
                &&& match parse_udp_header(packet@) {
                    None => r is Drop,
                    Some((t, n)) => r matches UdpAction::ToTarget { target, payload_offset }
                        && target@ == t && payload_offset == n,
                }
            },
            !from_client(old(self)@, src@) ==> {
                &&& final(self)@ == old(self)@
                &&& match old(self)@.client {
                    None => r is Drop,
                    Some(c) => r matches UdpAction::ToClient { client, datagram } && client@ == c
                        && datagram@ == udp_header_bytes(src@) + packet@,
                }
            },
            !from_client(old(self)@, src@) ==> !(r is ToTarget),
            packet@.len() >= 3 && packet@[2] != 0 ==> !(r is ToTarget),
    {
        if self.is_from_client(src) {
            self.client_udp_addr = Some(src.copy());
            match decode_udp_header(packet) {
                Some((target, payload_offset)) => UdpAction::ToTarget { target, payload_offset },
                None => UdpAction::Drop,
            }
        } else {
            match &self.client_udp_addr {
                None => UdpAction::Drop,
                Some(c) => {
                    let mut datagram = encode_udp_header(src);
                    datagram.extend_from_slice(packet);
                    UdpAction::ToClient { client: c.copy(), datagram }
                },
            }
        }
    }
}

} // verus!
