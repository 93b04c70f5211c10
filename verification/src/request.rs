//! What a client sends: the offer of authentication methods, and the
//! request itself.

use vstd::prelude::*;
use crate::addr::{encodable, encode_addr, parse_addr, Addr, TargetAddrView, MAX_SERIALIZED_ADDR};
use crate::buf::{contents, put_u8, to_vec, with_capacity};
use crate::error::{short_by, Error, ErrorView};
use crate::reader::{reads_as, reads_on, ByteReader};
use crate::{AuthMethod, Command, Version};

verus! {

/// The methods that a client offers, most preferred first.
#[derive(Debug, Eq, PartialEq)]
pub struct AuthMethodsRequest {
    pub version: Version,
    pub methods: Vec<AuthMethod>,
}

/// An offer of methods as contracts speak of it.
pub struct AuthMethodsRequestView {
    pub version: Version,
    pub methods: Seq<AuthMethod>,
}

impl View for AuthMethodsRequest {
    type V = AuthMethodsRequestView;

    open spec fn view(&self) -> AuthMethodsRequestView {
        AuthMethodsRequestView { version: self.version, methods: self.methods@ }
    }
}

/// The bytes of the methods, one each.
pub open spec fn method_bytes(methods: Seq<AuthMethod>) -> Seq<u8> {
    Seq::new(methods.len(), |i: int| methods[i].byte())
}

/// The message VER | NMETHODS | METHODS of an offer of at most 255 methods.
pub open spec fn encode_methods_request(m: AuthMethodsRequestView) -> Seq<u8> {
    seq![m.version.byte(), m.methods.len() as u8] + method_bytes(m.methods)
}

/// What reading an offer from the front of `s` gives. The methods are read
/// one by one: the byte 0xFF among those that have arrived is refused as
/// soon as it is met, and only then does a missing byte count.
pub open spec fn parse_methods_request(s: Seq<u8>) -> Result<
    (AuthMethodsRequestView, nat),
    ErrorView,
> {
    if s.len() < 1 {
        Err(short_by(1))
    } else if Version::parse(s[0]) is Err {
        Err(ErrorView::VersionNotSupported(s[0]))
    } else if s.len() < 2 {
        Err(short_by(1))
    } else {
        let n = s[1] as int;
        let arrived = if s.len() - 2 < n {
            s.len() - 2
        } else {
            n
        };
        if exists|k: int| 2 <= k < 2 + arrived && s[k] == 0xff {
            Err(ErrorView::AuthMethodNotSupported(0xff))
        } else if arrived < n {
            Err(short_by(1))
        } else {
            Ok(
                (
                    AuthMethodsRequestView {
                        version: Version::parse(s[0])->Ok_0,
                        methods: Seq::new(n as nat, |i: int| AuthMethod::parse(s[2 + i])->Ok_0),
                    },
                    (2 + n) as nat,
                ),
            )
        }
    }
}

impl AuthMethodsRequest {
    pub fn new(version: Version, methods: Vec<AuthMethod>) -> (request: AuthMethodsRequest)
        ensures
            request.version == version,
            request.methods == methods,
    {
        AuthMethodsRequest { version, methods }
    }

    /// Appends the message to `writer`, or refuses more than 255 methods
    /// and leaves `writer` as it was.
    pub fn write_to(&self, writer: &mut Vec<u8>) -> (r: Result<(), Error>)
        ensures
            self.methods@.len() <= 255 ==> r is Ok && final(writer)@ == old(writer)@
                + encode_methods_request(self@),
            self.methods@.len() > 255 ==> r == Err::<(), Error>(Error::TooManyMethods)
                && final(writer)@ == old(writer)@,
    {
        let method_len = self.methods.len();
        if method_len > 255 {
            return Err(Error::TooManyMethods);
        }
        let mut buf = with_capacity(1 + 1 + method_len);
        put_u8(&mut buf, self.version.byte());
        put_u8(&mut buf, method_len as u8);
        let mut i: usize = 0;
        while i < method_len
            invariant
                i <= method_len,
                method_len == self.methods@.len(),
                method_len <= 255,
                contents(buf) == seq![self.version.byte(), method_len as u8] + method_bytes(
                    self.methods@.take(i as int),
                ),
            decreases method_len - i,
        {
            put_u8(&mut buf, self.methods[i].byte());
            proof {
                assert(method_bytes(self.methods@.take(i + 1)) =~= method_bytes(
                    self.methods@.take(i as int),
                ).push(self.methods@[i as int].byte()));
            }
            i = i + 1;
        }
        proof {
            assert(self.methods@.take(method_len as int) =~= self.methods@);
        }
        let mut bytes = to_vec(&buf);
        writer.append(&mut bytes);
        Ok(())
    }

    /// Reads an offer. A failed read consumes nothing.
    pub fn read_from(reader: &mut ByteReader) -> (r: Result<AuthMethodsRequest, Error>)
        ensures
            reads_as(parse_methods_request(old(reader).unread()), r, *old(reader), *final(reader)),
    {
        let start = reader.position();
        let r = AuthMethodsRequest::read_fields(reader);
        if r.is_err() {
            reader.rewind(start);
        }
        r
    }

    fn read_fields(reader: &mut ByteReader) -> (r: Result<AuthMethodsRequest, Error>)
        ensures
            reads_on(parse_methods_request(old(reader).unread()), r, *old(reader), *final(reader)),
    {
        let ghost s = reader.unread();
        let ghost origin = reader.consumed();
        proof {
            reader.lemma_consumed_in_bounds();
        }
        let version_raw = reader.read_u8()?;
        let version = Version::try_from(version_raw)?;
        let method_len = reader.read_u8()?;
        let mut methods = Vec::<AuthMethod>::new();
        let mut i: u8 = 0;
        while i < method_len
            invariant
                i <= method_len,
                s.len() >= 2,
                Version::parse(s[0]) is Ok,
                method_len == s[1],
                s == old(reader).unread(),
                origin == old(reader).consumed(),
                origin + s.len() == reader.buffer().len(),
                reader.buffer() == old(reader).buffer(),
                reader.consumed() == origin + 2 + i,
                reader.consumed() <= reader.buffer().len(),
                methods@.len() == i,
                forall|k: int| 2 <= k < 2 + i ==> s[k] != 0xff,
                forall|j: int|
                    0 <= j < i ==> #[trigger] methods@[j] == AuthMethod::parse(s[2 + j])->Ok_0,
            decreases method_len - i,
        {
            let method_raw = match reader.read_u8() {
                Ok(b) => b,
                Err(e) => {
                    return Err(e);
                },
            };
            assert(method_raw == s[2 + i]);
            assert(method_raw == 0xff ==> s[2 + i] == 0xff);
            let method = match AuthMethod::try_from(method_raw) {
                Ok(m) => m,
                Err(e) => {
                    return Err(e);
                },
            };
            methods.push(method);
            i = i + 1;
        }
        let request = AuthMethodsRequest { version, methods };
        proof {
            assert(request@.methods =~= Seq::new(
                method_len as nat,
                |i: int| AuthMethod::parse(s[2 + i])->Ok_0,
            ));
        }
        Ok(request)
    }
}

/// A request: what to do, and to which target.
#[derive(Debug, Eq, PartialEq)]
pub struct Request {
    pub version: Version,
    pub command: Command,
    pub addr: Addr,
}

/// A request as contracts speak of it.
pub struct RequestView {
    pub version: Version,
    pub command: Command,
    pub addr: TargetAddrView,
}

impl View for Request {
    type V = RequestView;

    open spec fn view(&self) -> RequestView {
        RequestView { version: self.version, command: self.command, addr: self.addr@ }
    }
}

/// The message VER | CMD | RSV | address triple of a request.
pub open spec fn encode_request(q: RequestView) -> Seq<u8> {
    seq![q.version.byte(), q.command.byte(), 0x00u8] + encode_addr(q.addr)
}

/// What reading a request from the front of `s` gives. The reserved byte
/// is read and ignored.
pub open spec fn parse_request(s: Seq<u8>) -> Result<(RequestView, nat), ErrorView> {
    if s.len() < 1 {
        Err(short_by(1))
    } else if Version::parse(s[0]) is Err {
        Err(ErrorView::VersionNotSupported(s[0]))
    } else if s.len() < 2 {
        Err(short_by(1))
    } else if Command::parse(s[1]) is Err {
        Err(ErrorView::CommandNotSupported(s[1]))
    } else if s.len() < 3 {
        Err(short_by(1))
    } else {
        match parse_addr(s.skip(3)) {
            Err(e) => Err(e),
            Ok((addr, n)) => Ok(
                (
                    RequestView {
                        version: Version::parse(s[0])->Ok_0,
                        command: Command::parse(s[1])->Ok_0,
                        addr,
                    },
                    3 + n,
                ),
            ),
        }
    }
}

impl Request {
    pub fn new(version: Version, command: Command, addr: Addr) -> (request: Request)
        ensures
            request.version == version,
            request.command == command,
            request.addr == addr,
    {
        Request { version, command, addr }
    }

    /// Appends the message to `writer`, or refuses a name of more than 255
    /// bytes and leaves `writer` as it was.
    pub fn write_to(&self, writer: &mut Vec<u8>) -> (r: Result<(), Error>)
        ensures
            encodable(self.addr@) ==> r is Ok && final(writer)@ == old(writer)@ + encode_request(
                self@,
            ),
            !encodable(self.addr@) ==> r == Err::<(), Error>(Error::DomainTooLong)
                && final(writer)@ == old(writer)@,
    {
        let mut buf = with_capacity(3 + MAX_SERIALIZED_ADDR);
        put_u8(&mut buf, self.version.byte());
        put_u8(&mut buf, self.command.byte());
        put_u8(&mut buf, 0x00);
        self.addr.write_to_buf(&mut buf)?;
        proof {
            assert(contents(buf) =~= encode_request(self@));
        }
        let mut bytes = to_vec(&buf);
        writer.append(&mut bytes);
        Ok(())
    }

    /// Reads a request. A failed read consumes nothing.
    pub fn read_from(reader: &mut ByteReader) -> (r: Result<Request, Error>)
        ensures
            reads_as(parse_request(old(reader).unread()), r, *old(reader), *final(reader)),
    {
        let start = reader.position();
        let r = Request::read_fields(reader);
        if r.is_err() {
            reader.rewind(start);
        }
        r
    }

    fn read_fields(reader: &mut ByteReader) -> (r: Result<Request, Error>)
        ensures
            reads_on(parse_request(old(reader).unread()), r, *old(reader), *final(reader)),
    {
        let ghost s = reader.unread();
        proof {
            reader.lemma_consumed_in_bounds();
        }
        let version_raw = reader.read_u8()?;
        let version = Version::try_from(version_raw)?;
        let command_raw = reader.read_u8()?;
        let command = Command::try_from(command_raw)?;
        // Reserved
        let _ = reader.read_u8()?;
        proof {
            assert(reader.unread() =~= s.skip(3));
        }
        let addr = Addr::read_from(reader)?;
        Ok(Request::new(version, command, addr))
    }
}

} // verus!
