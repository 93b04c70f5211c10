//! The server's replies: the choice of an authentication method, and the
//! answer to a request.

use vstd::prelude::*;
use crate::addr::{encodable, encode_addr, parse_addr, Addr, TargetAddrView, MAX_SERIALIZED_ADDR};
use crate::buf::{contents, put_u8, to_vec, with_capacity};
use crate::error::{short_by, Error, ErrorView};
use crate::reader::{reads_as, reads_on, ByteReader};
use crate::{AuthMethod, Version};

verus! {

/// The REP field of a reply.
#[derive(Debug, Eq, PartialEq, Copy, Clone, Structural)]
pub enum ResponseCode {
    Success,
    GeneralSocksServerFailure,
    ConnectionNotAllowedByRuleset,
    NetworkUnreachable,
    HostUnreachable,
    ConnectionRefused,
    TtlExpired,
    CommandNotSupported,
    AddrTypeNotSupported,
}

impl ResponseCode {
    /// The byte that stands for this code on the wire.
    pub open spec fn spec_byte(self) -> u8 {
        match self {
            ResponseCode::Success => 0x00,
            ResponseCode::GeneralSocksServerFailure => 0x01,
            ResponseCode::ConnectionNotAllowedByRuleset => 0x02,
            ResponseCode::NetworkUnreachable => 0x03,
            ResponseCode::HostUnreachable => 0x04,
            ResponseCode::ConnectionRefused => 0x05,
            ResponseCode::TtlExpired => 0x06,
            ResponseCode::CommandNotSupported => 0x07,
            ResponseCode::AddrTypeNotSupported => 0x08,
        }
    }

    /// The byte that stands for this code on the wire.
    #[verifier::when_used_as_spec(spec_byte)]
    pub fn byte(self) -> (byte: u8)
        ensures
            byte == self.spec_byte(),
    {
        match self {
            ResponseCode::Success => 0x00,
            ResponseCode::GeneralSocksServerFailure => 0x01,
            ResponseCode::ConnectionNotAllowedByRuleset => 0x02,
            ResponseCode::NetworkUnreachable => 0x03,
            ResponseCode::HostUnreachable => 0x04,
            ResponseCode::ConnectionRefused => 0x05,
            ResponseCode::TtlExpired => 0x06,
            ResponseCode::CommandNotSupported => 0x07,
            ResponseCode::AddrTypeNotSupported => 0x08,
        }
    }

    /// The code that a wire byte stands for, if any.
    pub open spec fn parse(value: u8) -> Result<ResponseCode, Error> {
        if value == 0x00 {
            Ok(ResponseCode::Success)
        } else if value == 0x01 {
            Ok(ResponseCode::GeneralSocksServerFailure)
        } else if value == 0x02 {
            Ok(ResponseCode::ConnectionNotAllowedByRuleset)
        } else if value == 0x03 {
            Ok(ResponseCode::NetworkUnreachable)
        } else if value == 0x04 {
            Ok(ResponseCode::HostUnreachable)
        } else if value == 0x05 {
            Ok(ResponseCode::ConnectionRefused)
        } else if value == 0x06 {
            Ok(ResponseCode::TtlExpired)
        } else if value == 0x07 {
            Ok(ResponseCode::CommandNotSupported)
        } else if value == 0x08 {
            Ok(ResponseCode::AddrTypeNotSupported)
        } else {
            Err(Error::ResponseCodeNotSupported(value))
        }
    }

    /// Every code is read back from its own byte.
    pub proof fn lemma_parse_byte(self)
        ensures
            ResponseCode::parse(self.byte()) == Ok::<ResponseCode, Error>(self),
    {
    }
}

impl From<ResponseCode> for u8 {
    fn from(code: ResponseCode) -> (byte: u8) {
        code.byte()
    }
}

impl vstd::std_specs::convert::FromSpecImpl<ResponseCode> for u8 {
    open spec fn obeys_from_spec() -> bool {
        true
    }

    open spec fn from_spec(code: ResponseCode) -> u8 {
        code.byte()
    }
}

impl TryFrom<u8> for ResponseCode {
    type Error = Error;

    fn try_from(value: u8) -> (r: Result<Self, Error>) {
        match value {
            0x00 => Ok(ResponseCode::Success),
            0x01 => Ok(ResponseCode::GeneralSocksServerFailure),
            0x02 => Ok(ResponseCode::ConnectionNotAllowedByRuleset),
            0x03 => Ok(ResponseCode::NetworkUnreachable),
            0x04 => Ok(ResponseCode::HostUnreachable),
            0x05 => Ok(ResponseCode::ConnectionRefused),
            0x06 => Ok(ResponseCode::TtlExpired),
            0x07 => Ok(ResponseCode::CommandNotSupported),
            0x08 => Ok(ResponseCode::AddrTypeNotSupported),
            _ => Err(Error::ResponseCodeNotSupported(value)),
        }
    }
}

impl vstd::std_specs::convert::TryFromSpecImpl<u8> for ResponseCode {
    open spec fn obeys_try_from_spec() -> bool {
        true
    }

    open spec fn try_from_spec(value: u8) -> Result<Self, Error> {
        ResponseCode::parse(value)
    }
}

/// The byte that says that a server accepts none of the methods offered.
pub const NO_ACCEPTABLE_METHODS: u8 = 0xff;

/// The method that a server picked, or that it picked none.
#[derive(Debug, Eq, PartialEq, Copy, Clone)]
pub struct AuthMethodsResponse {
    pub version: Version,
    pub method: Option<AuthMethod>,
}

impl View for AuthMethodsResponse {
    type V = AuthMethodsResponse;

    open spec fn view(&self) -> AuthMethodsResponse {
        *self
    }
}

/// The message VER | METHOD of a choice, where 0xFF says that none was made.
pub open spec fn encode_methods_response(m: AuthMethodsResponse) -> Seq<u8> {
    seq![
        m.version.byte(),
        match m.method {
            Some(method) => method.byte(),
            None => NO_ACCEPTABLE_METHODS,
        },
    ]
}

/// What reading a choice from the front of `s` gives.
pub open spec fn parse_methods_response(s: Seq<u8>) -> Result<
    (AuthMethodsResponse, nat),
    ErrorView,
> {
    if s.len() < 1 {
        Err(short_by(1))
    } else if Version::parse(s[0]) is Err {
        Err(ErrorView::VersionNotSupported(s[0]))
    } else if s.len() < 2 {
        Err(short_by(1))
    } else {
        Ok(
            (
                AuthMethodsResponse {
                    version: Version::parse(s[0])->Ok_0,
                    method: match AuthMethod::parse(s[1]) {
                        Ok(method) => Some(method),
                        Err(_) => None,
                    },
                },
                2,
            ),
        )
    }
}

impl AuthMethodsResponse {
    pub fn new(version: Version, method: Option<AuthMethod>) -> (response: AuthMethodsResponse)
        ensures
            response == (AuthMethodsResponse { version, method }),
    {
        AuthMethodsResponse { version, method }
    }

    /// Appends the message to `writer`.
    pub fn write_to(&self, writer: &mut Vec<u8>) -> (r: Result<(), Error>)
        ensures
            r is Ok,
            final(writer)@ == old(writer)@ + encode_methods_response(*self),
    {
        let mut buf = with_capacity(1 + 1);
        put_u8(&mut buf, self.version.byte());
        match self.method {
            Some(method) => {
                put_u8(&mut buf, method.byte());
            },
            None => {
                put_u8(&mut buf, NO_ACCEPTABLE_METHODS);
            },
        }
        proof {
            assert(contents(buf) =~= encode_methods_response(*self));
        }
        let mut bytes = to_vec(&buf);
        writer.append(&mut bytes);
        Ok(())
    }

    /// Reads a choice. The byte 0xFF is read as no method chosen, never as
    /// a method. A failed read consumes nothing.
    pub fn read_from(reader: &mut ByteReader) -> (r: Result<AuthMethodsResponse, Error>)
        ensures
            reads_as(parse_methods_response(old(reader).unread()), r, *old(reader), *final(reader)),
    {
        let start = reader.position();
        let r = AuthMethodsResponse::read_fields(reader);
        if r.is_err() {
            reader.rewind(start);
        }
        r
    }

    fn read_fields(reader: &mut ByteReader) -> (r: Result<AuthMethodsResponse, Error>)
        ensures
            reads_on(parse_methods_response(old(reader).unread()), r, *old(reader), *final(reader)),
    {
        proof {
            reader.lemma_consumed_in_bounds();
        }
        let version_raw = reader.read_u8()?;
        let version = Version::try_from(version_raw)?;
        let method_raw = reader.read_u8()?;
        let method = match AuthMethod::try_from(method_raw) {
            Ok(method) => Some(method),
            Err(_) => None,
        };
        Ok(AuthMethodsResponse::new(version, method))
    }
}

/// A reply: how the request fared, and the address that the server bound.
#[derive(Debug, Eq, PartialEq)]
pub struct Response {
    pub version: Version,
    pub code: ResponseCode,
    pub addr: Addr,
}

/// A reply as contracts speak of it.
pub struct ResponseView {
    pub version: Version,
    pub code: ResponseCode,
    pub addr: TargetAddrView,
}

impl View for Response {
    type V = ResponseView;

    open spec fn view(&self) -> ResponseView {
        ResponseView { version: self.version, code: self.code, addr: self.addr@ }
    }
}

/// The message VER | REP | RSV | address triple of a reply.
pub open spec fn encode_response(p: ResponseView) -> Seq<u8> {
    seq![p.version.byte(), p.code.byte(), 0x00u8] + encode_addr(p.addr)
}

/// What reading a reply from the front of `s` gives. The reserved byte is
/// read and ignored.
pub open spec fn parse_response(s: Seq<u8>) -> Result<(ResponseView, nat), ErrorView> {
    if s.len() < 1 {
        Err(short_by(1))
    } else if Version::parse(s[0]) is Err {
        Err(ErrorView::VersionNotSupported(s[0]))
    } else if s.len() < 2 {
        Err(short_by(1))
    } else if ResponseCode::parse(s[1]) is Err {
        Err(ErrorView::ResponseCodeNotSupported(s[1]))
    } else if s.len() < 3 {
        Err(short_by(1))
    } else {
        match parse_addr(s.skip(3)) {
            Err(e) => Err(e),
            Ok((addr, n)) => Ok(
                (
                    ResponseView {
                        version: Version::parse(s[0])->Ok_0,
                        code: ResponseCode::parse(s[1])->Ok_0,
                        addr,
                    },
                    3 + n,
                ),
            ),
        }
    }
}

impl Response {
    pub fn new(version: Version, code: ResponseCode, addr: Addr) -> (response: Response)
        ensures
            response.version == version,
            response.code == code,
            response.addr == addr,
    {
        Response { version, code, addr }
    }

    /// Appends the message to `writer`, or refuses a name of more than 255
    /// bytes and leaves `writer` as it was.
    pub fn write_to(&self, writer: &mut Vec<u8>) -> (r: Result<(), Error>)
        ensures
            encodable(self.addr@) ==> r is Ok && final(writer)@ == old(writer)@ + encode_response(
                self@,
            ),
            !encodable(self.addr@) ==> r == Err::<(), Error>(Error::DomainTooLong)
                && final(writer)@ == old(writer)@,
    {
        let mut buf = with_capacity(3 + MAX_SERIALIZED_ADDR);
        put_u8(&mut buf, self.version.byte());
        put_u8(&mut buf, self.code.byte());
        put_u8(&mut buf, 0x00);
        self.addr.write_to_buf(&mut buf)?;
        proof {
            assert(contents(buf) =~= encode_response(self@));
        }
        let mut bytes = to_vec(&buf);
        writer.append(&mut bytes);
        Ok(())
    }

    /// Reads a reply. A failed read consumes nothing.
    pub fn read_from(reader: &mut ByteReader) -> (r: Result<Response, Error>)
        ensures
            reads_as(parse_response(old(reader).unread()), r, *old(reader), *final(reader)),
    {
        let start = reader.position();
        let r = Response::read_fields(reader);
        if r.is_err() {
            reader.rewind(start);
        }
        r
    }

    fn read_fields(reader: &mut ByteReader) -> (r: Result<Response, Error>)
        ensures
            reads_on(parse_response(old(reader).unread()), r, *old(reader), *final(reader)),
    {
        let ghost s = reader.unread();
        proof {
            reader.lemma_consumed_in_bounds();
        }
        let version_raw = reader.read_u8()?;
        let version = Version::try_from(version_raw)?;
        let code_raw = reader.read_u8()?;
        let code = ResponseCode::try_from(code_raw)?;
        // Reserved
        let _ = reader.read_u8()?;
        proof {
            assert(reader.unread() =~= s.skip(3));
        }
        let addr = Addr::read_from(reader)?;
        Ok(Response { version, code, addr })
    }
}

} // verus!
