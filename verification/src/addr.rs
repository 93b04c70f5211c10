//! Addresses, and the address triple ATYP | ADDR | PORT that carries one
//! inside a request or a reply.

use vstd::prelude::*;
use vstd::utf8::{decode_utf8, encode_utf8, valid_utf8};
use crate::buf::{be16, contents, put_slice, put_u16, put_u8};
use crate::error::{short_by, Error, ErrorView};
use crate::reader::{from_be16, reads_as, reads_on, ByteReader};

verus! {

/// The ATYP field: which kind of address follows.
#[derive(Debug, Eq, PartialEq, Ord, PartialOrd, Copy, Clone, Structural)]
pub enum AddrType {
    Ipv4,
    Domain,
    Ipv6,
}

impl AddrType {
    /// The byte that stands for this kind on the wire.
    pub open spec fn spec_byte(self) -> u8 {
        match self {
            AddrType::Ipv4 => 0x01,
            AddrType::Domain => 0x03,
            AddrType::Ipv6 => 0x04,
        }
    }

    /// The byte that stands for this kind on the wire.
    #[verifier::when_used_as_spec(spec_byte)]
    pub fn byte(self) -> (byte: u8)
        ensures
            byte == self.spec_byte(),
    {
        match self {
            AddrType::Ipv4 => 0x01,
            AddrType::Domain => 0x03,
            AddrType::Ipv6 => 0x04,
        }
    }

    /// The kind that a wire byte stands for, if any.
    pub open spec fn parse(value: u8) -> Result<AddrType, Error> {
        if value == 0x01 {
            Ok(AddrType::Ipv4)
        } else if value == 0x03 {
            Ok(AddrType::Domain)
        } else if value == 0x04 {
            Ok(AddrType::Ipv6)
        } else {
            Err(Error::AddrTypeNotSupported(value))
        }
    }
}

impl From<AddrType> for u8 {
    fn from(addr_type: AddrType) -> (byte: u8) {
        addr_type.byte()
    }
}

impl vstd::std_specs::convert::FromSpecImpl<AddrType> for u8 {
    open spec fn obeys_from_spec() -> bool {
        true
    }

    open spec fn from_spec(addr_type: AddrType) -> u8 {
        addr_type.byte()
    }
}

impl TryFrom<u8> for AddrType {
    type Error = Error;

    fn try_from(value: u8) -> (r: Result<Self, Error>) {
        match value {
            0x01 => Ok(AddrType::Ipv4),
            0x03 => Ok(AddrType::Domain),
            0x04 => Ok(AddrType::Ipv6),
            _ => Err(Error::AddrTypeNotSupported(value)),
        }
    }
}

impl vstd::std_specs::convert::TryFromSpecImpl<u8> for AddrType {
    open spec fn obeys_try_from_spec() -> bool {
        true
    }

    open spec fn try_from_spec(value: u8) -> Result<Self, Error> {
        AddrType::parse(value)
    }
}

/// An IP address and a port: the octets of the address in network order,
/// four of them or sixteen.
#[derive(Debug, Eq, PartialEq, Copy, Clone)]
pub enum SocketEndpoint {
    V4([u8; 4], u16),
    V6([u8; 16], u16),
}

impl SocketEndpoint {
    /// The octets of the IP address.
    pub open spec fn octets(self) -> Seq<u8> {
        match self {
            SocketEndpoint::V4(ip, _) => ip@,
            SocketEndpoint::V6(ip, _) => ip@,
        }
    }

    /// The port.
    pub open spec fn port_view(self) -> u16 {
        match self {
            SocketEndpoint::V4(_, port) => port,
            SocketEndpoint::V6(_, port) => port,
        }
    }

    /// Whether the IP address is the unspecified one: every octet zero.
    pub open spec fn unspecified(self) -> bool {
        forall|i: int| 0 <= i < self.octets().len() ==> self.octets()[i] == 0
    }

    pub fn port(&self) -> (port: u16)
        ensures
            port == self.port_view(),
    {
        match *self {
            SocketEndpoint::V4(_, port) => port,
            SocketEndpoint::V6(_, port) => port,
        }
    }

    /// Whether the IP address is 0.0.0.0 or `::`.
    pub fn is_unspecified(&self) -> (b: bool)
        ensures
            b == self.unspecified(),
    {
        match self {
            SocketEndpoint::V4(ip, _) => {
                let octets = ip.as_slice();
                assert(octets@ == self.octets());
                all_zero(octets)
            },
            SocketEndpoint::V6(ip, _) => {
                let octets = ip.as_slice();
                assert(octets@ == self.octets());
                all_zero(octets)
            },
        }
    }
}

fn all_zero(octets: &[u8]) -> (b: bool)
    ensures
        b == (forall|i: int| 0 <= i < octets@.len() ==> octets@[i] == 0),
{
    let mut i: usize = 0;
    while i < octets.len()
        invariant
            i <= octets@.len(),
            forall|j: int| 0 <= j < i ==> octets@[j] == 0,
        decreases octets@.len() - i,
    {
        if octets[i] != 0 {
            return false;
        }
        i = i + 1;
    }
    true
}

/// Where a connection is to go: a host by name, or an endpoint by address.
#[derive(Debug, Eq, PartialEq)]
pub enum TargetAddr {
    Host(String, u16),
    Addr(SocketEndpoint),
}

/// A target as contracts speak of it: the name as a sequence of characters.
pub enum TargetAddrView {
    Host(Seq<char>, u16),
    Addr(SocketEndpoint),
}

impl View for TargetAddr {
    type V = TargetAddrView;

    open spec fn view(&self) -> TargetAddrView {
        match *self {
            TargetAddr::Host(host, port) => TargetAddrView::Host(host@, port),
            TargetAddr::Addr(endpoint) => TargetAddrView::Addr(endpoint),
        }
    }
}

impl Clone for TargetAddr {
    fn clone(&self) -> (copy: TargetAddr)
        ensures
            copy@ == self@,
    {
        match self {
            TargetAddr::Host(host, port) => TargetAddr::Host(host.clone(), *port),
            TargetAddr::Addr(endpoint) => TargetAddr::Addr(*endpoint),
        }
    }
}

impl TargetAddr {
    pub fn port(&self) -> (port: u16)
        ensures
            port == match self@ {
                TargetAddrView::Host(_, p) => p,
                TargetAddrView::Addr(endpoint) => endpoint.port_view(),
            },
    {
        match self {
            TargetAddr::Host(_, port) => *port,
            TargetAddr::Addr(endpoint) => endpoint.port(),
        }
    }

    /// The endpoint of a target that is one.
    pub fn unwrap_addr(&self) -> (endpoint: SocketEndpoint)
        requires
            self is Addr,
        ensures
            self@ == TargetAddrView::Addr(endpoint),
    {
        match self {
            TargetAddr::Host(_, _) => unreached(),
            TargetAddr::Addr(endpoint) => *endpoint,
        }
    }
}

impl From<SocketEndpoint> for TargetAddr {
    fn from(endpoint: SocketEndpoint) -> (target: TargetAddr) {
        TargetAddr::Addr(endpoint)
    }
}

impl vstd::std_specs::convert::FromSpecImpl<SocketEndpoint> for TargetAddr {
    open spec fn obeys_from_spec() -> bool {
        true
    }

    open spec fn from_spec(endpoint: SocketEndpoint) -> TargetAddr {
        TargetAddr::Addr(endpoint)
    }
}

impl<'a> From<(&'a str, u16)> for TargetAddr {
    fn from(pair: (&'a str, u16)) -> (target: TargetAddr)
        ensures
            target@ == TargetAddrView::Host(pair.0@, pair.1),
    {
        TargetAddr::Host(pair.0.to_owned(), pair.1)
    }
}

/// What `from` makes of a name and a port is stated on `from` itself: a
/// specification cannot write down a `String`.
impl<'a> vstd::std_specs::convert::FromSpecImpl<(&'a str, u16)> for TargetAddr {
    open spec fn obeys_from_spec() -> bool {
        false
    }

    open spec fn from_spec(pair: (&'a str, u16)) -> TargetAddr {
        arbitrary()
    }
}

/// A target with the codec that puts it on the wire.
#[derive(Debug, Eq, PartialEq)]
pub struct Addr(TargetAddr);

impl View for Addr {
    type V = TargetAddrView;

    closed spec fn view(&self) -> TargetAddrView {
        self.0@
    }
}

impl Clone for Addr {
    fn clone(&self) -> (copy: Addr)
        ensures
            copy@ == self@,
    {
        Addr(self.0.clone())
    }
}

/// The most bytes that an address triple takes: a name of 255 bytes.
pub const MAX_SERIALIZED_ADDR: usize = 259;

/// The name of a host in bytes.
pub open spec fn domain_bytes(domain: Seq<char>) -> Seq<u8> {
    encode_utf8(domain)
}

/// Whether a target can be put on the wire: a name must fit the one byte
/// that carries its length.
pub open spec fn encodable(a: TargetAddrView) -> bool {
    match a {
        TargetAddrView::Host(domain, _) => domain_bytes(domain).len() <= 255,
        TargetAddrView::Addr(_) => true,
    }
}

/// The number of bytes of the address triple of a target.
pub open spec fn serialized_len(a: TargetAddrView) -> nat {
    match a {
        TargetAddrView::Host(domain, _) => 1 + 1 + domain_bytes(domain).len() + 2,
        TargetAddrView::Addr(SocketEndpoint::V4(_, _)) => 1 + 4 + 2,
        TargetAddrView::Addr(SocketEndpoint::V6(_, _)) => 1 + 16 + 2,
    }
}

/// The address triple of a target.
pub open spec fn encode_addr(a: TargetAddrView) -> Seq<u8> {
    match a {
        TargetAddrView::Host(domain, port) => seq![0x03u8, domain_bytes(domain).len() as u8]
            + domain_bytes(domain) + be16(port),
        TargetAddrView::Addr(SocketEndpoint::V4(ip, port)) => seq![0x01u8] + ip@ + be16(port),
        TargetAddrView::Addr(SocketEndpoint::V6(ip, port)) => seq![0x04u8] + ip@ + be16(port),
    }
}

/// The four octets that start at `at`.
pub open spec fn ipv4_at(s: Seq<u8>, at: int) -> [u8; 4] {
    [s[at], s[at + 1], s[at + 2], s[at + 3]]
}

/// The sixteen octets that start at `at`.
pub open spec fn ipv6_at(s: Seq<u8>, at: int) -> [u8; 16] {
    [
        s[at],
        s[at + 1],
        s[at + 2],
        s[at + 3],
        s[at + 4],
        s[at + 5],
        s[at + 6],
        s[at + 7],
        s[at + 8],
        s[at + 9],
        s[at + 10],
        s[at + 11],
        s[at + 12],
        s[at + 13],
        s[at + 14],
        s[at + 15],
    ]
}

/// What reading an address triple from the front of `s` gives: the target
/// and the number of bytes it took, or the error. The fields are read in
/// order, and the first that cannot be read decides the error.
pub open spec fn parse_addr(s: Seq<u8>) -> Result<(TargetAddrView, nat), ErrorView> {
    if s.len() < 1 {
        Err(short_by(1))
    } else {
        match AddrType::parse(s[0]) {
            Err(_) => Err(ErrorView::AddrTypeNotSupported(s[0])),
            Ok(AddrType::Ipv4) => if s.len() < 5 {
                Err(short_by(5 - s.len()))
            } else if s.len() < 7 {
                Err(short_by(7 - s.len()))
            } else {
                Ok(
                    (
                        TargetAddrView::Addr(
                            SocketEndpoint::V4(ipv4_at(s, 1), from_be16(s[5], s[6])),
                        ),
                        7,
                    ),
                )
            },
            Ok(AddrType::Ipv6) => if s.len() < 17 {
                Err(short_by(17 - s.len()))
            } else if s.len() < 19 {
                Err(short_by(19 - s.len()))
            } else {
                Ok(
                    (
                        TargetAddrView::Addr(
                            SocketEndpoint::V6(ipv6_at(s, 1), from_be16(s[17], s[18])),
                        ),
                        19,
                    ),
                )
            },
            Ok(AddrType::Domain) => if s.len() < 2 {
                Err(short_by(1))
            } else {
                let n = s[1] as int;
                if s.len() < 2 + n {
                    Err(short_by(2 + n - s.len()))
                } else if !valid_utf8(s.subrange(2, 2 + n)) {
                    Err(ErrorView::InvalidDomain)
                } else if s.len() < 4 + n {
                    Err(short_by(4 + n - s.len()))
                } else {
                    Ok(
                        (
                            TargetAddrView::Host(
                                decode_utf8(s.subrange(2, 2 + n)),
                                from_be16(s[2 + n], s[3 + n]),
                            ),
                            (4 + n) as nat,
                        ),
                    )
                }
            },
        }
    }
}

/// `String::from_utf8`: the string whose bytes are `bytes`, if they are
/// valid UTF-8, and the standard library's error if they are not.
#[verifier::external_body]
fn string_from_utf8(bytes: Vec<u8>) -> (r: Result<String, std::string::FromUtf8Error>)
    ensures
        r is Ok <==> valid_utf8(bytes@),
        r matches Ok(s) ==> encode_utf8(s@) == bytes@,
{
    String::from_utf8(bytes)
}

impl Addr {
    /// The address of a target.
    pub fn new(dest: TargetAddr) -> (addr: Addr)
        ensures
            addr@ == dest@,
    {
        Addr(dest)
    }

    /// The target of this address.
    pub fn inner(&self) -> (dest: &TargetAddr)
        ensures
            dest@ == self@,
    {
        &self.0
    }

    /// Whether this is an address that stands for none: an endpoint whose
    /// IP address is unspecified or whose port is 0.
    pub fn is_dummy(&self) -> (b: bool)
        ensures
            b == match self@ {
                TargetAddrView::Addr(endpoint) => endpoint.unspecified() || endpoint.port_view()
                    == 0,
                TargetAddrView::Host(_, _) => false,
            },
    {
        match &self.0 {
            TargetAddr::Addr(endpoint) => endpoint.is_unspecified() || endpoint.port() == 0,
            TargetAddr::Host(_, _) => false,
        }
    }

    /// The number of bytes that the address triple takes. A name that is
    /// too long to be encoded is counted as if it were not.
    pub fn serialize_len(&self) -> (n: usize)
        requires
            serialized_len(self@) <= usize::MAX,
        ensures
            n == serialized_len(self@),
    {
        match &self.0 {
            TargetAddr::Addr(SocketEndpoint::V4(_, _)) => 1 + 4 + 2,
            TargetAddr::Addr(SocketEndpoint::V6(_, _)) => 1 + 16 + 2,
            TargetAddr::Host(domain, _) => 1 + 1 + domain.as_str().as_bytes().len() + 2,
        }
    }

    /// Appends the address triple to `buf`, or refuses a name of more
    /// than 255 bytes and leaves `buf` as it was.
    pub fn write_to_buf(&self, buf: &mut bytes::BytesMut) -> (r: Result<(), Error>)
        requires
            contents(*old(buf)).len() + MAX_SERIALIZED_ADDR <= isize::MAX,
        ensures
            encodable(self@) ==> r is Ok && contents(*final(buf)) == contents(*old(buf))
                + encode_addr(self@),
            !encodable(self@) ==> r == Err::<(), Error>(Error::DomainTooLong)
                && contents(*final(buf)) == contents(*old(buf)),
    {
        match &self.0 {
            TargetAddr::Addr(SocketEndpoint::V4(ip, port)) => {
                put_u8(buf, AddrType::Ipv4.byte());
                put_slice(buf, ip.as_slice());
                put_u16(buf, *port);
            },
            TargetAddr::Addr(SocketEndpoint::V6(ip, port)) => {
                put_u8(buf, AddrType::Ipv6.byte());
                put_slice(buf, ip.as_slice());
                put_u16(buf, *port);
            },
            TargetAddr::Host(domain, port) => {
                let bytes = domain.as_str().as_bytes();
                if bytes.len() > 255 {
                    return Err(Error::DomainTooLong);
                }
                put_u8(buf, AddrType::Domain.byte());
                put_u8(buf, bytes.len() as u8);
                put_slice(buf, bytes);
                put_u16(buf, *port);
            },
        }
        proof {
            assert(contents(*buf) =~= contents(*old(buf)) + encode_addr(self@));
        }
        Ok(())
    }

    /// Reads an address triple. A failed read consumes nothing.
    pub fn read_from(reader: &mut ByteReader) -> (r: Result<Addr, Error>)
        ensures
            reads_as(parse_addr(old(reader).unread()), r, *old(reader), *final(reader)),
    {
        let start = reader.position();
        let r = Addr::read_fields(reader);
        if r.is_err() {
            reader.rewind(start);
        }
        r
    }

    fn read_fields(reader: &mut ByteReader) -> (r: Result<Addr, Error>)
        ensures
            reads_on(parse_addr(old(reader).unread()), r, *old(reader), *final(reader)),
    {
        let ghost s = reader.unread();
        proof {
            reader.lemma_consumed_in_bounds();
        }
        let addr_type_raw = reader.read_u8()?;
        let addr_type = AddrType::try_from(addr_type_raw)?;
        let addr = match addr_type {
            AddrType::Ipv4 => {
                let ip = reader.read_exact(4)?;
                let port = reader.read_u16()?;
                TargetAddr::Addr(SocketEndpoint::V4([ip[0], ip[1], ip[2], ip[3]], port))
            },
            AddrType::Ipv6 => {
                let ip = reader.read_exact(16)?;
                let port = reader.read_u16()?;
                TargetAddr::Addr(
                    SocketEndpoint::V6(
                        [
                            ip[0],
                            ip[1],
                            ip[2],
                            ip[3],
                            ip[4],
                            ip[5],
                            ip[6],
                            ip[7],
                            ip[8],
                            ip[9],
                            ip[10],
                            ip[11],
                            ip[12],
                            ip[13],
                            ip[14],
                            ip[15],
                        ],
                        port,
                    ),
                )
            },
            AddrType::Domain => {
                let len = reader.read_u8()?;
                let name = reader.read_exact(len as usize)?;
                proof {
                    assert(name@ =~= s.subrange(2, 2 + len));
                }
                let domain = match string_from_utf8(name) {
                    Ok(domain) => domain,
                    Err(e) => {
                        return Err(Error::InvalidDomain(e));
                    },
                };
                proof {
                    vstd::utf8::encode_utf8_decode_utf8(domain@);
                }
                let port = reader.read_u16()?;
                TargetAddr::Host(domain, port)
            },
        };
        Ok(Addr(addr))
    }
}

} // verus!
