//! The framing of relayed UDP datagrams:
//! two reserved bytes, a fragment number, the address type, the address, the
//! port with its high byte first, and the payload.

use vstd::prelude::*;
use vstd::slice::{slice_subrange, slice_to_vec};

verus! {

/// The address type byte of an IPv4 address.
pub const ATYP_V4: u8 = 1;

/// The address type byte of a domain name.
pub const ATYP_DOMAIN: u8 = 3;

/// The address type byte of an IPv6 address.
pub const ATYP_V6: u8 = 4;

/// The kinds of address that a header can carry.
#[derive(Clone, Copy, Debug, PartialEq, Eq, Structural)]
pub enum AddressKind {
    V4,
    Domain,
    V6,
}

/// An address in a header: the host as bytes (four of an IPv4 address,
/// sixteen of an IPv6 address, or a domain name) and the port.
#[derive(Clone, Debug)]
pub struct UdpAddress {
    pub kind: AddressKind,
    pub host: Vec<u8>,
    pub port: u16,
}

/// A decoded header, and where the payload begins behind it.
#[derive(Clone, Debug)]
pub struct UdpHeader {
    pub frag: u8,
    pub address: UdpAddress,
    pub payload_start: usize,
}

/// Why a datagram was not decoded.
#[derive(Clone, Copy, Debug, PartialEq, Eq, Structural)]
pub enum UdpError {
    /// The datagram ends before its header does.
    Truncated,
    /// The address type is neither IPv4 nor a domain name.
    UnsupportedAddressType,
}

/// A header as plain values.
pub struct HeaderView {
    pub frag: u8,
    pub kind: AddressKind,
    pub host: Seq<u8>,
    pub port: u16,
    pub payload_start: int,
}

/// The address type byte of a kind.
pub open spec fn spec_atyp(kind: AddressKind) -> u8 {
    match kind {
        AddressKind::V4 => ATYP_V4,
        AddressKind::Domain => ATYP_DOMAIN,
        AddressKind::V6 => ATYP_V6,
    }
}

/// The port that two bytes stand for, the high byte first.
pub open spec fn spec_port(high: u8, low: u8) -> u16 {
    (high * 256 + low) as u16
}

/// The two bytes of a port, the high byte first.
pub open spec fn spec_port_bytes(port: u16) -> Seq<u8> {
    seq![(port / 256) as u8, (port % 256) as u8]
}

/// A host has the length that its kind asks for: a domain name fits the one
/// byte that holds its length.
pub open spec fn spec_host_fits(kind: AddressKind, host: Seq<u8>) -> bool {
    match kind {
        AddressKind::V4 => host.len() == 4,
        AddressKind::Domain => host.len() <= 255,
        AddressKind::V6 => host.len() == 16,
    }
}

/// The bytes of a header.
pub open spec fn spec_encode_header(frag: u8, kind: AddressKind, host: Seq<u8>, port: u16) -> Seq<
    u8,
> {
    let prefix = seq![0u8, 0u8, frag, spec_atyp(kind)];
    let length = if kind == AddressKind::Domain {
        seq![host.len() as u8]
    } else {
        Seq::<u8>::empty()
    };
    prefix + length + host + spec_port_bytes(port)
}

/// The header at the beginning of a datagram. The reserved bytes are not
/// looked at. An IPv6 address is not decoded.
pub open spec fn spec_decode_header(buf: Seq<u8>) -> Result<HeaderView, UdpError> {
    if buf.len() < 4 {
        Err(UdpError::Truncated)
    } else if buf[3] == ATYP_V4 {
        if buf.len() < 10 {
            Err(UdpError::Truncated)
        } else {
            Ok(
                HeaderView {
                    frag: buf[2],
                    kind: AddressKind::V4,
                    host: buf.subrange(4, 8),
                    port: spec_port(buf[8], buf[9]),
                    payload_start: 10,
                },
            )
        }
    } else if buf[3] == ATYP_DOMAIN {
        if buf.len() < 5 || buf.len() < 7 + buf[4] {
            Err(UdpError::Truncated)
        } else {
            let n = buf[4] as int;
            Ok(
                HeaderView {
                    frag: buf[2],
                    kind: AddressKind::Domain,
                    host: buf.subrange(5, 5 + n),
                    port: spec_port(buf[5 + n], buf[6 + n]),
                    payload_start: 7 + n,
                },
            )
        }
    } else {
        Err(UdpError::UnsupportedAddressType)
    }
}

impl UdpAddress {
    /// The host has the length that the kind asks for.
    pub open spec fn wf(&self) -> bool {
        spec_host_fits(self.kind, self.host@)
    }

    /// Whether the host has the length that the kind asks for.
    pub fn is_valid(&self) -> (r: bool)
        ensures
            r == self.wf(),
    {
        match self.kind {
            AddressKind::V4 => self.host.len() == 4,
            AddressKind::Domain => self.host.len() <= 255,
            AddressKind::V6 => self.host.len() == 16,
        }
    }
}

impl View for UdpHeader {
    type V = HeaderView;

    open spec fn view(&self) -> HeaderView {
        HeaderView {
            frag: self.frag,
            kind: self.address.kind,
            host: self.address.host@,
            port: self.address.port,
            payload_start: self.payload_start as int,
        }
    }
}

fn port_of(high: u8, low: u8) -> (port: u16)
    ensures
        port == spec_port(high, low),
{
    let h: u16 = high as u16;
    let l: u16 = low as u16;
    h * 256 + l
}

/// Decodes the header at the beginning of a datagram from the client. The
/// payload is what follows from `payload_start` on.
pub fn decode_udp_header(buf: &[u8]) -> (r: Result<UdpHeader, UdpError>)
    ensures
        match r {
            Ok(header) => spec_decode_header(buf@) == Ok::<HeaderView, UdpError>(header@)
                && header.address.wf() && header.payload_start <= buf@.len(),
            Err(e) => spec_decode_header(buf@) == Err::<HeaderView, UdpError>(e),
        },
{
    let len = buf.len();
    if len < 4 {
        return Err(UdpError::Truncated);
    }
    let frag = buf[2];
    let atyp = buf[3];
    if atyp == ATYP_V4 {
        if len < 10 {
            return Err(UdpError::Truncated);
        }
        let host = slice_to_vec(slice_subrange(buf, 4, 8));
        let port = port_of(buf[8], buf[9]);
        Ok(
            UdpHeader {
                frag,
                address: UdpAddress { kind: AddressKind::V4, host, port },
                payload_start: 10,
            },
        )
    } else if atyp == ATYP_DOMAIN {
        if len < 5 {
            return Err(UdpError::Truncated);
        }
        let n: usize = buf[4] as usize;
        if len < 7 + n {
            return Err(UdpError::Truncated);
        }
        let host = slice_to_vec(slice_subrange(buf, 5, 5 + n));
        let port = port_of(buf[5 + n], buf[6 + n]);
        Ok(
            UdpHeader {
                frag,
                address: UdpAddress { kind: AddressKind::Domain, host, port },
                payload_start: 7 + n,
            },
        )
    } else {
        Err(UdpError::UnsupportedAddressType)
    }
}

fn atyp_of(kind: AddressKind) -> (r: u8)
    ensures
        r == spec_atyp(kind),
{
    match kind {
        AddressKind::V4 => ATYP_V4,
        AddressKind::Domain => ATYP_DOMAIN,
        AddressKind::V6 => ATYP_V6,
    }
}

/// Builds the header of a datagram that came from `source`, with fragment
/// number 0.
pub fn encode_udp_header(source: &UdpAddress) -> (out: Vec<u8>)
    requires
        source.wf(),
    ensures
        out@ == spec_encode_header(0, source.kind, source.host@, source.port),
{
    let mut out: Vec<u8> = Vec::new();
    out.push(0u8);
    out.push(0u8);
    out.push(0u8);
    out.push(atyp_of(source.kind));
    match source.kind {
        AddressKind::Domain => {
            out.push(source.host.len() as u8);
        },
        _ => {},
    }
    out.extend_from_slice(source.host.as_slice());
    out.push((source.port / 256) as u8);
    out.push((source.port % 256) as u8);
    assert(out@ =~= spec_encode_header(0, source.kind, source.host@, source.port));
    out
}

/// Builds the datagram that carries `payload`, received from `source`, to
/// the client: the header, then the payload.
pub fn encapsulate(source: &UdpAddress, payload: &[u8]) -> (out: Vec<u8>)
    requires
        source.wf(),
    ensures
        out@ == spec_encode_header(0, source.kind, source.host@, source.port) + payload@,
{
    let mut out = encode_udp_header(source);
    out.extend_from_slice(payload);
    out
}

/// What becomes of a datagram that arrived on the relay's socket.
#[derive(Clone, Debug)]
pub enum UdpRoute {
    /// It came from the client: what follows the header is sent to the
    /// address that the header names.
    ToTarget(UdpHeader),
    /// It came from a target: these bytes, the datagram behind a header that
    /// names its sender, are sent to the client.
    ToClient(Vec<u8>),
    /// It came from the client and is dropped, for this reason.
    Dropped(UdpError),
}

/// Two addresses are the same: kind, host and port are.
pub open spec fn spec_same_address(a: UdpAddress, b: UdpAddress) -> bool {
    a.kind == b.kind && a.host@ == b.host@ && a.port == b.port
}

/// Whether a datagram from `sender` is one from the client: it is where the
/// client's address is not known yet, or is the sender's.
pub open spec fn spec_is_from_client(client: Option<&UdpAddress>, sender: UdpAddress) -> bool {
    match client {
        Some(known) => spec_same_address(*known, sender),
        None => true,
    }
}

/// Whether two addresses are the same.
pub fn same_address(a: &UdpAddress, b: &UdpAddress) -> (r: bool)
    ensures
        r == spec_same_address(*a, *b),
{
    if a.kind != b.kind || a.port != b.port || a.host.len() != b.host.len() {
        return false;
    }
    let mut i: usize = 0;
    while i < a.host.len()
        invariant
            i <= a.host.len() == b.host.len(),
            forall|k: int| 0 <= k < i ==> a.host@[k] == b.host@[k],
        decreases a.host.len() - i,
    {
        if a.host[i] != b.host[i] {
            return false;
        }
        i += 1;
    }
    assert(a.host@ =~= b.host@);
    true
}

/// Decides what becomes of a datagram that arrived from `sender`, where
/// `client` is the client's address as far as it is known.
///
/// A datagram from the client is decoded, and dropped where its header is
/// not accepted. Any other datagram is on its way back: it is put behind a
/// header that names its sender.
pub fn route_datagram(client: Option<&UdpAddress>, sender: &UdpAddress, datagram: &[u8]) -> (route:
    UdpRoute)
    requires
        sender.wf(),
    ensures
        match route {
            UdpRoute::ToTarget(header) => {
                &&& spec_is_from_client(client, *sender)
                &&& spec_decode_header(datagram@) == Ok::<HeaderView, UdpError>(header@)
                &&& header.address.wf()
                &&& header.payload_start <= datagram@.len()
            },
            UdpRoute::ToClient(bytes) => {
                &&& !spec_is_from_client(client, *sender)
                &&& bytes@ == spec_encode_header(0, sender.kind, sender.host@, sender.port)
                    + datagram@
            },
            UdpRoute::Dropped(e) => {
                &&& spec_is_from_client(client, *sender)
                &&& spec_decode_header(datagram@) == Err::<HeaderView, UdpError>(e)
            },
        },
{
    let from_client = match client {
        Some(known) => same_address(known, sender),
        None => true,
    };
    if from_client {
        match decode_udp_header(datagram) {
            Ok(header) => UdpRoute::ToTarget(header),
            Err(e) => UdpRoute::Dropped(e),
        }
    } else {
        UdpRoute::ToClient(encapsulate(sender, datagram))
    }
}

/// A header of an IPv4 address or a domain name, followed by any payload,
/// decodes to what was encoded, and the payload begins where the header
/// ends.
pub proof fn lemma_decode_of_encoded(
    frag: u8,
    kind: AddressKind,
    host: Seq<u8>,
    port: u16,
    payload: Seq<u8>,
)
    requires
        spec_host_fits(kind, host),
        kind != AddressKind::V6,
    ensures
        ({
            let header = spec_encode_header(frag, kind, host, port);
            let datagram = header + payload;
            &&& spec_decode_header(datagram) == Ok::<HeaderView, UdpError>(
                HeaderView { frag, kind, host, port, payload_start: header.len() as int },
            )
            &&& datagram.subrange(header.len() as int, datagram.len() as int) == payload
        }),
{
    let header = spec_encode_header(frag, kind, host, port);
    let datagram = header + payload;
    assert(spec_port(((port / 256) as u8), ((port % 256) as u8)) == port);
    assert(datagram.subrange(header.len() as int, datagram.len() as int) =~= payload);
    match kind {
        AddressKind::V4 => {
            assert(header.len() == 10);
            assert(datagram.subrange(4, 8) =~= host);
        },
        AddressKind::Domain => {
            let n = host.len() as int;
            assert(header.len() == 7 + n);
            assert(datagram[4] == n as u8);
            assert(datagram.subrange(5, 5 + n) =~= host);
        },
        AddressKind::V6 => {},
    }
}

/// A header with an IPv6 address is built but not decoded.
pub proof fn lemma_v6_is_not_decoded(frag: u8, host: Seq<u8>, port: u16, payload: Seq<u8>)
    ensures
        spec_decode_header(spec_encode_header(frag, AddressKind::V6, host, port) + payload) == Err::<
            HeaderView,
            UdpError,
        >(UdpError::UnsupportedAddressType),
{
}

} // verus!
