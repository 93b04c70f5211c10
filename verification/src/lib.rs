//! A SOCKS5 proxy protocol core: the wire codec of RFC 1928 and RFC 1929,
//! and the client and server handshakes as state machines that never touch
//! a socket. A caller moves the bytes; this crate decides what they mean.

use vstd::prelude::*;

pub mod addr;
pub mod agreement;
pub mod buf;
pub mod client;
pub mod connector;
pub mod error;
pub mod framing;
pub mod reader;
pub mod request;
pub mod response;
pub mod round_trip;
pub mod server;
pub mod subnegotiation;

pub use addr::{Addr, SocketEndpoint, TargetAddr};
pub use error::{Error, ErrorView, IoErrorKind};

verus! {

/// The protocol version that opens every SOCKS message.
#[derive(Debug, Eq, PartialEq, Ord, PartialOrd, Copy, Clone, Structural)]
pub enum Version {
    V4,
    V5,
}

impl Version {
    /// The byte that stands for this version on the wire.
    pub open spec fn spec_byte(self) -> u8 {
        match self {
            Version::V4 => 0x04,
            Version::V5 => 0x05,
        }
    }

    /// The byte that stands for this version on the wire.
    #[verifier::when_used_as_spec(spec_byte)]
    pub fn byte(self) -> (byte: u8)
        ensures
            byte == self.spec_byte(),
    {
        match self {
            Version::V4 => 0x04,
            Version::V5 => 0x05,
        }
    }

    /// The version that a wire byte stands for, if any.
    pub open spec fn parse(value: u8) -> Result<Version, Error> {
        if value == 0x04 {
            Ok(Version::V4)
        } else if value == 0x05 {
            Ok(Version::V5)
        } else {
            Err(Error::VersionNotSupported(value))
        }
    }
}

impl From<Version> for u8 {
    fn from(version: Version) -> (byte: u8) {
        version.byte()
    }
}

impl vstd::std_specs::convert::FromSpecImpl<Version> for u8 {
    open spec fn obeys_from_spec() -> bool {
        true
    }

    open spec fn from_spec(version: Version) -> u8 {
        version.byte()
    }
}

impl TryFrom<u8> for Version {
    type Error = Error;

    fn try_from(value: u8) -> (r: Result<Self, Error>) {
        match value {
            0x04 => Ok(Version::V4),
            0x05 => Ok(Version::V5),
            _ => Err(Error::VersionNotSupported(value)),
        }
    }
}

impl vstd::std_specs::convert::TryFromSpecImpl<u8> for Version {
    open spec fn obeys_try_from_spec() -> bool {
        true
    }

    open spec fn try_from_spec(value: u8) -> Result<Self, Error> {
        Version::parse(value)
    }
}

/// An authentication method, as a client offers it and a server picks it.
///
/// The byte 0xFF, "no acceptable method", is no method: it stands only
/// in a server's reply, where it means that none was chosen.
#[derive(Debug, Eq, PartialEq, Copy, Clone, Structural)]
pub enum AuthMethod {
    /// No authentication required.
    NoAuth,
    /// GSS API.
    GssApi,
    /// A username + password authentication.
    UsernamePassword,
    /// IANA reserved.
    IanaReserved(u8),
    /// A private authentication method.
    Private(u8),
}

impl AuthMethod {
    /// The byte that stands for this method on the wire.
    pub open spec fn spec_byte(self) -> u8 {
        match self {
            AuthMethod::NoAuth => 0x00,
            AuthMethod::GssApi => 0x01,
            AuthMethod::UsernamePassword => 0x02,
            AuthMethod::IanaReserved(v) => v,
            AuthMethod::Private(v) => v,
        }
    }

    /// The byte that stands for this method on the wire.
    #[verifier::when_used_as_spec(spec_byte)]
    pub fn byte(self) -> (byte: u8)
        ensures
            byte == self.spec_byte(),
    {
        match self {
            AuthMethod::NoAuth => 0x00,
            AuthMethod::GssApi => 0x01,
            AuthMethod::UsernamePassword => 0x02,
            AuthMethod::IanaReserved(v) => v,
            AuthMethod::Private(v) => v,
        }
    }

    /// The method that a wire byte stands for, if any.
    pub open spec fn parse(value: u8) -> Result<AuthMethod, Error> {
        if value == 0x00 {
            Ok(AuthMethod::NoAuth)
        } else if value == 0x01 {
            Ok(AuthMethod::GssApi)
        } else if value == 0x02 {
            Ok(AuthMethod::UsernamePassword)
        } else if value <= 0x7f {
            Ok(AuthMethod::IanaReserved(value))
        } else if value <= 0xfe {
            Ok(AuthMethod::Private(value))
        } else {
            Err(Error::AuthMethodNotSupported(value))
        }
    }

    /// Whether the code that a reserved or private method carries lies in
    /// the range of its kind: 0x03 to 0x7f, and 0x80 to 0xfe.
    pub open spec fn valid(self) -> bool {
        match self {
            AuthMethod::IanaReserved(v) => 0x03 <= v <= 0x7f,
            AuthMethod::Private(v) => 0x80 <= v <= 0xfe,
            _ => true,
        }
    }

    /// A valid method is read back from its own byte, and whatever a byte
    /// is read as is valid and has that byte.
    pub proof fn lemma_parse_byte(self, value: u8)
        ensures
            self.valid() ==> AuthMethod::parse(self.byte()) == Ok::<AuthMethod, Error>(self),
            AuthMethod::parse(value) matches Ok(m) ==> m.valid() && m.byte() == value,
            AuthMethod::parse(value) is Err <==> value == 0xff,
    {
    }
}

impl From<AuthMethod> for u8 {
    fn from(method: AuthMethod) -> (byte: u8) {
        method.byte()
    }
}

impl vstd::std_specs::convert::FromSpecImpl<AuthMethod> for u8 {
    open spec fn obeys_from_spec() -> bool {
        true
    }

    open spec fn from_spec(method: AuthMethod) -> u8 {
        method.byte()
    }
}

impl TryFrom<u8> for AuthMethod {
    type Error = Error;

    fn try_from(value: u8) -> (r: Result<Self, Error>) {
        match value {
            0x00 => Ok(AuthMethod::NoAuth),
            0x01 => Ok(AuthMethod::GssApi),
            0x02 => Ok(AuthMethod::UsernamePassword),
            0x03..=0x7f => Ok(AuthMethod::IanaReserved(value)),
            0x80..=0xfe => Ok(AuthMethod::Private(value)),
            _ => Err(Error::AuthMethodNotSupported(value)),
        }
    }
}

impl vstd::std_specs::convert::TryFromSpecImpl<u8> for AuthMethod {
    open spec fn obeys_try_from_spec() -> bool {
        true
    }

    open spec fn try_from_spec(value: u8) -> Result<Self, Error> {
        AuthMethod::parse(value)
    }
}

/// How a client is to authenticate with a proxy, or what a server asks
/// of its clients.
#[derive(Clone, Debug, Eq, PartialEq)]
pub enum ProxyAuthScheme {
    /// No authentication.
    NoAuth,
    /// A username and a password.
    BasicAuth(BasicAuthConfig),
}

/// A username and a password.
#[derive(Clone, Debug, Eq, PartialEq)]
pub struct BasicAuthConfig {
    username: String,
    password: String,
}

impl BasicAuthConfig {
    /// The username, as contracts speak of it.
    pub closed spec fn username_view(&self) -> Seq<char> {
        self.username@
    }

    /// The password, as contracts speak of it.
    pub closed spec fn password_view(&self) -> Seq<char> {
        self.password@
    }

    pub fn new(username: String, password: String) -> (config: BasicAuthConfig)
        ensures
            config.username_view() == username@,
            config.password_view() == password@,
    {
        BasicAuthConfig { username, password }
    }

    pub fn username(&self) -> (name: &str)
        ensures
            name@ == self.username_view(),
    {
        self.username.as_str()
    }

    pub fn password(&self) -> (word: &str)
        ensures
            word@ == self.password_view(),
    {
        self.password.as_str()
    }
}

/// What a client asks a proxy to do.
#[derive(Debug, Eq, PartialEq, Ord, PartialOrd, Copy, Clone, Structural)]
pub enum Command {
    Connect,
    Bind,
    UdpAssociate,
}

impl Command {
    /// The byte that stands for this command on the wire.
    pub open spec fn spec_byte(self) -> u8 {
        match self {
            Command::Connect => 0x01,
            Command::Bind => 0x02,
            Command::UdpAssociate => 0x03,
        }
    }

    /// The byte that stands for this command on the wire.
    #[verifier::when_used_as_spec(spec_byte)]
    pub fn byte(self) -> (byte: u8)
        ensures
            byte == self.spec_byte(),
    {
        match self {
            Command::Connect => 0x01,
            Command::Bind => 0x02,
            Command::UdpAssociate => 0x03,
        }
    }

    /// The command that a wire byte stands for, if any.
    pub open spec fn parse(value: u8) -> Result<Command, Error> {
        if value == 0x01 {
            Ok(Command::Connect)
        } else if value == 0x02 {
            Ok(Command::Bind)
        } else if value == 0x03 {
            Ok(Command::UdpAssociate)
        } else {
            Err(Error::CommandNotSupported(value))
        }
    }
}

impl From<Command> for u8 {
    fn from(command: Command) -> (byte: u8) {
        command.byte()
    }
}

impl vstd::std_specs::convert::FromSpecImpl<Command> for u8 {
    open spec fn obeys_from_spec() -> bool {
        true
    }

    open spec fn from_spec(command: Command) -> u8 {
        command.byte()
    }
}

impl TryFrom<u8> for Command {
    type Error = Error;

    fn try_from(value: u8) -> (r: Result<Self, Error>) {
        match value {
            0x01 => Ok(Command::Connect),
            0x02 => Ok(Command::Bind),
            0x03 => Ok(Command::UdpAssociate),
            _ => Err(Error::CommandNotSupported(value)),
        }
    }
}

impl vstd::std_specs::convert::TryFromSpecImpl<u8> for Command {
    open spec fn obeys_try_from_spec() -> bool {
        true
    }

    open spec fn try_from_spec(value: u8) -> Result<Self, Error> {
        Command::parse(value)
    }
}

} // verus!
