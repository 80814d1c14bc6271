//! SOCKS5 address triples (ATYP, ADDR, PORT), as they appear in requests and
//! in UDP datagram headers.
use vstd::prelude::*;

verus! {

pub const ATYP_IPV4: u8 = 0x01;
pub const ATYP_DOMAIN: u8 = 0x03;
pub const ATYP_IPV6: u8 = 0x04;

/// A target or source of traffic.
#[allow(inconsistent_fields)]
#[derive(Clone, Debug, PartialEq, Eq)]
pub enum Endpoint {
    V4 { octets: [u8; 4], port: u16 },
    V6 { octets: [u8; 16], port: u16 },
    Domain { name: Vec<u8>, port: u16 },
}

/// Mathematical model of an [`Endpoint`].
pub enum EndpointView {
    V4 { octets: Seq<u8>, port: u16 },
    V6 { octets: Seq<u8>, port: u16 },
    Domain { name: Seq<u8>, port: u16 },
}

/// Why an address could not be read.
#[derive(Clone, Copy, Debug, PartialEq, Eq)]
pub enum AddressError {
    /// ATYP is none of 0x01, 0x03, 0x04.
    UnsupportedAddressType,
    /// The bytes end before the address does.
    Truncated,
    /// A domain name of length zero.
    EmptyDomain,
}

impl View for Endpoint {
    type V = EndpointView;

    open spec fn view(&self) -> EndpointView {
        match self {
            Endpoint::V4 { octets, port } => EndpointView::V4 { octets: octets@, port: *port },
            Endpoint::V6 { octets, port } => EndpointView::V6 { octets: octets@, port: *port },
            Endpoint::Domain { name, port } => EndpointView::Domain { name: name@, port: *port },
        }
    }
}

impl EndpointView {
    /// Address lengths fit the wire format: 4 or 16 octets, a name of 1 to 255 bytes.
    pub open spec fn wf(self) -> bool {
        match self {
            EndpointView::V4 { octets, .. } => octets.len() == 4,
            EndpointView::V6 { octets, .. } => octets.len() == 16,
            EndpointView::Domain { name, .. } => 1 <= name.len() <= 255,
        }
    }

    pub open spec fn is_numeric(self) -> bool {
        !(self is Domain)
    }
}

impl Endpoint {
    pub open spec fn wf(&self) -> bool {
        self@.wf()
    }

    /// A copy of the endpoint.
    pub fn copy(&self) -> (r: Endpoint)
        ensures
            r@ == self@,
    {
        match self {
            Endpoint::V4 { octets, port } => Endpoint::V4 { octets: *octets, port: *port },
            Endpoint::V6 { octets, port } => Endpoint::V6 { octets: *octets, port: *port },
            Endpoint::Domain { name, port } => {
                let mut copied: Vec<u8> = Vec::new();
                copied.extend_from_slice(name.as_slice());
                assert(copied@ =~= name@);
                Endpoint::Domain { name: copied, port: *port }
            },
        }
    }
}

pub open spec fn port_of(e: EndpointView) -> u16 {
    match e {
        EndpointView::V4 { port, .. } => port,
        EndpointView::V6 { port, .. } => port,
        EndpointView::Domain { port, .. } => port,
    }
}

/// A port in network byte order.
pub open spec fn port_bytes(port: u16) -> Seq<u8> {
    seq![(port / 256) as u8, (port % 256) as u8]
}

/// The port that two bytes in network byte order denote.
pub open spec fn be16(hi: u8, lo: u8) -> u16 {
    (hi * 256 + lo) as u16
}

/// ATYP | ADDR | PORT.
pub open spec fn address_bytes(e: EndpointView) -> Seq<u8> {
    match e {
        EndpointView::V4 { octets, port } => seq![ATYP_IPV4] + octets + port_bytes(port),
        EndpointView::V6 { octets, port } => seq![ATYP_IPV6] + octets + port_bytes(port),
        EndpointView::Domain { name, port } => seq![ATYP_DOMAIN, name.len() as u8] + name
            + port_bytes(port),
    }
}

/// RSV(0x0000) | FRAG(0x00) | ATYP | ADDR | PORT.
pub open spec fn udp_header_bytes(e: EndpointView) -> Seq<u8> {
    seq![0u8, 0u8, 0u8] + address_bytes(e)
}

/// Reads one address from the start of `s`: the endpoint and the number of
/// bytes it occupies, or why there is none.
pub open spec fn parse_address(s: Seq<u8>) -> Result<(EndpointView, nat), AddressError> {
    if s.len() == 0 {
        Err(AddressError::Truncated)
    } else if s[0] == ATYP_IPV4 {
        if s.len() < 7 {
            Err(AddressError::Truncated)
        } else {
            Ok((EndpointView::V4 { octets: s.subrange(1, 5), port: be16(s[5], s[6]) }, 7))
        }
    } else if s[0] == ATYP_IPV6 {
        if s.len() < 19 {
            Err(AddressError::Truncated)
        } else {
            Ok((EndpointView::V6 { octets: s.subrange(1, 17), port: be16(s[17], s[18]) }, 19))
        }
    } else if s[0] == ATYP_DOMAIN {
        if s.len() < 2 {
            Err(AddressError::Truncated)
        } else if s[1] == 0 {
            Err(AddressError::EmptyDomain)
        } else if s.len() < 4 + s[1] {
            Err(AddressError::Truncated)
        } else {
            let n = s[1] as int;
            Ok(
                (
                    EndpointView::Domain {
                        name: s.subrange(2, 2 + n),
                        port: be16(s[2 + n], s[3 + n]),
                    },
                    (4 + n) as nat,
                ),
            )
        }
    } else {
        Err(AddressError::UnsupportedAddressType)
    }
}

/// The exec result of a decode, seen through the models.
pub open spec fn decoded_view(r: Result<(Endpoint, usize), AddressError>) -> Result<
    (EndpointView, nat),
    AddressError,
> {
    match r {
        Ok((e, n)) => Ok((e@, n as nat)),
        Err(err) => Err(err),
    }
}

fn read_port(buf: &[u8], i: usize) -> (r: u16)
    requires
        i + 2 <= buf.len(),
    ensures
        r == be16(buf[i as int], buf[i + 1]),
{
    (buf[i] as u16) * 256 + (buf[i + 1] as u16)
}

fn push_port(out: &mut Vec<u8>, port: u16)
    ensures
        final(out)@ == old(out)@ + port_bytes(port),
{
    out.push((port / 256) as u8);
    out.push((port % 256) as u8);
}

/// Decodes the address that starts at `buf[start]`; on success also returns
/// the number of bytes it occupies.
fn decode_at(buf: &[u8], start: usize) -> (r: Result<(Endpoint, usize), AddressError>)
    requires
        start <= buf.len(),
    ensures
        decoded_view(r) == parse_address(buf@.subrange(start as int, buf.len() as int)),
{
    let ghost s = buf@.subrange(start as int, buf.len() as int);
    let avail = buf.len() - start;
    if avail == 0 {
        return Err(AddressError::Truncated);
    }
    let atyp = buf[start];
    if atyp == ATYP_IPV4 {
        if avail < 7 {
            return Err(AddressError::Truncated);
        }
        let octets = [buf[start + 1], buf[start + 2], buf[start + 3], buf[start + 4]];
        let port = read_port(buf, start + 5);
        assert(octets@ =~= s.subrange(1, 5));
        Ok((Endpoint::V4 { octets, port }, 7))
    } else if atyp == ATYP_IPV6 {
        if avail < 19 {
            return Err(AddressError::Truncated);
        }
        let mut octets = [0u8; 16];
        let mut i: usize = 0;
        while i < 16
            invariant
                i <= 16,
                start + 19 <= buf.len(),
                octets@.len() == 16,
                forall|k: int| 0 <= k < i ==> octets@[k] == buf@[start + 1 + k],
            decreases 16 - i,
        {
            octets[i] = buf[start + 1 + i];
            i = i + 1;
        }
        let port = read_port(buf, start + 17);
        assert(octets@ =~= s.subrange(1, 17));
        Ok((Endpoint::V6 { octets, port }, 19))
    } else if atyp == ATYP_DOMAIN {
        if avail < 2 {
            return Err(AddressError::Truncated);
        }
        let n = buf[start + 1] as usize;
        if n == 0 {
            return Err(AddressError::EmptyDomain);
        }
        if avail < 4 + n {
            return Err(AddressError::Truncated);
        }
        let mut name: Vec<u8> = Vec::with_capacity(n);
        let mut i: usize = 0;
        while i < n
            invariant
                i <= n,
                start + 4 + n <= buf.len(),
                name@ =~= buf@.subrange(start + 2, start + 2 + i),
            decreases n - i,
        {
            name.push(buf[start + 2 + i]);
            i = i + 1;
        }
        let port = read_port(buf, start + 2 + n);
        assert(name@ =~= s.subrange(2, 2 + n as int));
        Ok((Endpoint::Domain { name, port }, 4 + n))
    } else {
        Err(AddressError::UnsupportedAddressType)
    }
}

/// Decodes a request's address, ATYP first, from the start of `buf`; on
/// success also returns the number of bytes it occupies.
pub fn decode_request_endpoint(buf: &[u8]) -> (r: Result<(Endpoint, usize), AddressError>)
    ensures
        decoded_view(r) == parse_address(buf@),
{
    proof {
        assert(buf@.subrange(0, buf@.len() as int) =~= buf@);
    }
    decode_at(buf, 0)
}

/// Decodes the address of a UDP datagram header that starts at
/// `packet[offset]`; on success also returns the offset of the payload.
pub fn decode_udp_endpoint(packet: &[u8], offset: usize) -> (r: Result<
    (Endpoint, usize),
    AddressError,
>)
    requires
        offset <= packet.len(),
    ensures
        match (r, parse_address(packet@.subrange(offset as int, packet.len() as int))) {
            (Ok((e, end)), Ok((v, n))) => e@ == v && end == offset + n,
            (Err(err), Err(expected)) => err == expected,
            _ => false,
        },
{
    match decode_at(packet, offset) {
        Ok((e, n)) => Ok((e, offset + n)),
        Err(err) => Err(err),
    }
}

/// Appends ATYP | ADDR | PORT of `e` to `out`.
fn push_address(out: &mut Vec<u8>, e: &Endpoint)
    requires
        e.wf(),
    ensures
        final(out)@ == old(out)@ + address_bytes(e@),
{
    match e {
        Endpoint::V4 { octets, port } => {
            out.push(ATYP_IPV4);
            out.extend_from_slice(octets.as_slice());
            push_port(out, *port);
            assert(final(out)@ =~= old(out)@ + address_bytes(e@));
        },
        Endpoint::V6 { octets, port } => {
            out.push(ATYP_IPV6);
            out.extend_from_slice(octets.as_slice());
            push_port(out, *port);
            assert(final(out)@ =~= old(out)@ + address_bytes(e@));
        },
        Endpoint::Domain { name, port } => {
            out.push(ATYP_DOMAIN);
            out.push(name.len() as u8);
            out.extend_from_slice(name.as_slice());
            push_port(out, *port);
            assert(final(out)@ =~= old(out)@ + address_bytes(e@));
        },
    }
}

/// ATYP | ADDR | PORT of `e`, as a request carries it.
pub fn encode_request_endpoint(e: &Endpoint) -> (r: Vec<u8>)
    requires
        e.wf(),
    ensures
        r@ == address_bytes(e@),
{
    let mut out: Vec<u8> = Vec::new();
    push_address(&mut out, e);
    assert(out@ =~= address_bytes(e@));
    out
}

/// The UDP datagram header for `e`: RSV | FRAG | ATYP | ADDR | PORT.
pub fn encode_udp_header(e: &Endpoint) -> (r: Vec<u8>)
    requires
        e.wf(),
    ensures
        r@ == udp_header_bytes(e@),
{
    let mut out: Vec<u8> = Vec::new();
    out.push(0);
    out.push(0);
    out.push(0);
    push_address(&mut out, e);
    assert(out@ =~= udp_header_bytes(e@));
    out
}

/// A port written in network byte order reads back as itself.
pub proof fn lemma_port_round_trip(port: u16)
    ensures
        be16(port_bytes(port)[0], port_bytes(port)[1]) == port,
{
    let hi = (port / 256) as u8;
    let lo = (port % 256) as u8;
    assert(hi as int == port as int / 256);
    assert(lo as int == port as int % 256);
    assert(hi * 256 + lo == port) by (nonlinear_arith)
        requires
            hi as int == port as int / 256,
            lo as int == port as int % 256,
    ;
}

/// Decoding what encoding an address wrote gives back that address and the
/// length of its encoding, whatever bytes follow it.
pub proof fn lemma_request_endpoint_round_trip(e: EndpointView, rest: Seq<u8>)
    requires
        e.wf(),
    ensures
        parse_address(address_bytes(e) + rest) == Ok::<(EndpointView, nat), AddressError>(
            (e, address_bytes(e).len()),
        ),
{
    let s = address_bytes(e) + rest;
    lemma_port_round_trip(port_of(e));
    match e {
        EndpointView::V4 { octets, port } => {
            assert(s.subrange(1, 5) =~= octets);
        },
        EndpointView::V6 { octets, port } => {
            assert(s.subrange(1, 17) =~= octets);
        },
        EndpointView::Domain { name, port } => {
            let n = name.len() as int;
            assert(s[1] as int == n);
            assert(s.subrange(2, 2 + n) =~= name);
            assert(s[2 + n] == port_bytes(port)[0]);
            assert(s[3 + n] == port_bytes(port)[1]);
        },
    }
}

/// Decoding the address of a UDP header that encoding wrote gives back the
/// endpoint, and the payload starts right after the header.
pub proof fn lemma_udp_endpoint_round_trip(e: EndpointView, payload: Seq<u8>)
    requires
        e.wf(),
    ensures
        ({
            let d = udp_header_bytes(e) + payload;
            parse_address(d.subrange(3, d.len() as int)) == Ok::<(EndpointView, nat), AddressError>(
                (e, (udp_header_bytes(e).len() - 3) as nat),
            )
        }),
{
    let d = udp_header_bytes(e) + payload;
    assert(d.subrange(3, d.len() as int) =~= address_bytes(e) + payload);
    lemma_request_endpoint_round_trip(e, payload);
}

} // verus!
