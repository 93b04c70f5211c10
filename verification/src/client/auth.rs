//! How a client offers authentication methods and proves itself by the
//! one that the server picked.

use vstd::prelude::*;
use vstd::utf8::encode_utf8;
use crate::buf::{contents, put_slice, put_u8, to_vec, with_capacity};
use crate::error::{Error, ErrorView};
use crate::reader::ByteReader;
use crate::subnegotiation::{encode_credentials, parse_status, AUTH_SUCCESS, AUTH_VERSION};
use crate::{AuthMethod, ProxyAuthScheme, Version};

verus! {

/// The client's side of authentication.
///
/// `methods` is what the client offers, most preferred first.
/// `authenticate` appends to `writer` what the method's sub-negotiation
/// opens with, and `confirm` reads the server's answer to it from the
/// bytes that have arrived. Both refuse a version other than 5 and a
/// method that is not offered.
pub trait AuthProvider {
    /// What `methods` returns.
    spec fn offered(&self) -> Seq<AuthMethod>;

    /// What `authenticate` sends, or the error it fails with.
    spec fn opening(&self, version: Version, method: AuthMethod) -> Result<Seq<u8>, ErrorView>;

    /// How many bytes of `input` the server's answer takes, or the error
    /// that `confirm` fails with.
    spec fn verdict(&self, version: Version, method: AuthMethod, input: Seq<u8>) -> Result<
        nat,
        ErrorView,
    >;

    fn methods(&self) -> (methods: Vec<AuthMethod>)
        ensures
            methods@ == self.offered(),
    ;

    fn authenticate(&self, version: Version, method: AuthMethod, writer: &mut Vec<u8>) -> (r:
        Result<(), Error>)
        ensures
            match self.opening(version, method) {
                Ok(bytes) => r is Ok && final(writer)@ == old(writer)@ + bytes,
                Err(e) => r matches Err(x) && x@ == e && final(writer)@ == old(writer)@,
            },
            version != Version::V5 ==> (r matches Err(x) && x@
                == ErrorView::VersionNotSupported(version.byte())),
            version == Version::V5 && !self.offered().contains(method) ==> (r matches Err(x) && x@
                == ErrorView::AuthMethodNotSupported(method.byte())),
    ;

    fn confirm(&self, version: Version, method: AuthMethod, reader: &mut ByteReader) -> (r:
        Result<(), Error>)
        ensures
            final(reader).buffer() == old(reader).buffer(),
            match self.verdict(version, method, old(reader).unread()) {
                Ok(taken) => r is Ok && final(reader).consumed() == old(reader).consumed()
                    + taken,
                Err(e) => r matches Err(x) && x@ == e && final(reader).consumed() == old(
                    reader,
                ).consumed(),
            },
    ;
}

/// A client that has nothing to prove.
#[derive(Debug)]
pub struct PlainAuthProvider;

impl PlainAuthProvider {
    pub fn new() -> PlainAuthProvider {
        PlainAuthProvider {  }
    }
}

/// What a client without credentials makes of a version and a method: it
/// goes on with version 5 and no authentication, and with nothing else.
pub open spec fn plain_check(version: Version, method: AuthMethod) -> Result<(), ErrorView> {
    if version != Version::V5 {
        Err(ErrorView::VersionNotSupported(version.byte()))
    } else if method != AuthMethod::NoAuth {
        Err(ErrorView::AuthMethodNotSupported(method.byte()))
    } else {
        Ok(())
    }
}

impl AuthProvider for PlainAuthProvider {
    open spec fn offered(&self) -> Seq<AuthMethod> {
        seq![AuthMethod::NoAuth]
    }

    open spec fn opening(&self, version: Version, method: AuthMethod) -> Result<
        Seq<u8>,
        ErrorView,
    > {
        match plain_check(version, method) {
            Ok(_) => Ok(Seq::empty()),
            Err(e) => Err(e),
        }
    }

    open spec fn verdict(&self, version: Version, method: AuthMethod, input: Seq<u8>) -> Result<
        nat,
        ErrorView,
    > {
        match plain_check(version, method) {
            Ok(_) => Ok(0),
            Err(e) => Err(e),
        }
    }

    fn methods(&self) -> (methods: Vec<AuthMethod>) {
        let mut methods = Vec::new();
        methods.push(AuthMethod::NoAuth);
        assert(methods@ =~= seq![AuthMethod::NoAuth]);
        methods
    }

    fn authenticate(&self, version: Version, method: AuthMethod, writer: &mut Vec<u8>) -> (r:
        Result<(), Error>) {
        proof {
            assert(writer@ =~= writer@ + Seq::<u8>::empty());
            assert(seq![AuthMethod::NoAuth][0] == AuthMethod::NoAuth);
        }
        if version != Version::V5 {
            return Err(Error::VersionNotSupported(version.byte()));
        }
        match method {
            AuthMethod::NoAuth => Ok(()),
            _ => Err(Error::AuthMethodNotSupported(method.byte())),
        }
    }

    fn confirm(&self, version: Version, method: AuthMethod, reader: &mut ByteReader) -> (r:
        Result<(), Error>) {
        if version != Version::V5 {
            return Err(Error::VersionNotSupported(version.byte()));
        }
        match method {
            AuthMethod::NoAuth => Ok(()),
            _ => Err(Error::AuthMethodNotSupported(method.byte())),
        }
    }
}

/// A client with a username and a password. It still offers to go
/// without, should the server not ask for them.
#[derive(Debug)]
pub struct BasicAuthProvider<'a> {
    username: &'a str,
    password: &'a str,
}

/// The reason that goes with a username of more than 255 bytes.
pub open spec fn username_too_long() -> Seq<char> {
    "username is too long"@
}

/// The reason that goes with a password of more than 255 bytes.
pub open spec fn password_too_long() -> Seq<char> {
    "password is too long"@
}

/// The reason that goes with credentials that the server refused.
pub open spec fn incorrect_credential() -> Seq<char> {
    "incorrect credential"@
}

impl<'a> BasicAuthProvider<'a> {
    /// The bytes of the username.
    pub closed spec fn username_bytes(&self) -> Seq<u8> {
        encode_utf8(self.username@)
    }

    /// The bytes of the password.
    pub closed spec fn password_bytes(&self) -> Seq<u8> {
        encode_utf8(self.password@)
    }

    /// A client that proves itself with this username and this password.
    pub fn new(username: &'a str, password: &'a str) -> (provider: BasicAuthProvider<'a>)
        ensures
            provider.username_bytes() == encode_utf8(username@),
            provider.password_bytes() == encode_utf8(password@),
    {
        BasicAuthProvider { username, password }
    }
}

impl<'a> AuthProvider for BasicAuthProvider<'a> {
    open spec fn offered(&self) -> Seq<AuthMethod> {
        seq![AuthMethod::NoAuth, AuthMethod::UsernamePassword]
    }

    open spec fn opening(&self, version: Version, method: AuthMethod) -> Result<
        Seq<u8>,
        ErrorView,
    > {
        if version != Version::V5 {
            Err(ErrorView::VersionNotSupported(version.byte()))
        } else {
            match method {
                AuthMethod::NoAuth => Ok(Seq::empty()),
                AuthMethod::UsernamePassword => if self.username_bytes().len() > 255 {
                    Err(ErrorView::AuthFailed(username_too_long()))
                } else if self.password_bytes().len() > 255 {
                    Err(ErrorView::AuthFailed(password_too_long()))
                } else {
                    Ok(encode_credentials(self.username_bytes(), self.password_bytes()))
                },
                _ => Err(ErrorView::AuthMethodNotSupported(method.byte())),
            }
        }
    }

    open spec fn verdict(&self, version: Version, method: AuthMethod, input: Seq<u8>) -> Result<
        nat,
        ErrorView,
    > {
        if version != Version::V5 {
            Err(ErrorView::VersionNotSupported(version.byte()))
        } else {
            match method {
                AuthMethod::NoAuth => Ok(0),
                AuthMethod::UsernamePassword => match parse_status(input) {
                    Err(e) => Err(e),
                    Ok(true) => Ok(2),
                    Ok(false) => Err(ErrorView::AuthFailed(incorrect_credential())),
                },
                _ => Err(ErrorView::AuthMethodNotSupported(method.byte())),
            }
        }
    }

    fn methods(&self) -> (methods: Vec<AuthMethod>) {
        let mut methods = Vec::new();
        methods.push(AuthMethod::NoAuth);
        methods.push(AuthMethod::UsernamePassword);
        assert(methods@ =~= seq![AuthMethod::NoAuth, AuthMethod::UsernamePassword]);
        methods
    }

    fn authenticate(&self, version: Version, method: AuthMethod, writer: &mut Vec<u8>) -> (r:
        Result<(), Error>) {
        proof {
            assert(writer@ =~= writer@ + Seq::<u8>::empty());
            let offered = seq![AuthMethod::NoAuth, AuthMethod::UsernamePassword];
            assert(offered[0] == AuthMethod::NoAuth);
            assert(offered[1] == AuthMethod::UsernamePassword);
        }
        if version != Version::V5 {
            return Err(Error::VersionNotSupported(version.byte()));
        }
        match method {
            AuthMethod::NoAuth => Ok(()),
            AuthMethod::UsernamePassword => {
                let username_bytes = self.username.as_bytes();
                let ulen = username_bytes.len();
                let password_bytes = self.password.as_bytes();
                let plen = password_bytes.len();
                if ulen > 255 {
                    return Err(Error::AuthFailed("username is too long".to_owned()));
                }
                if plen > 255 {
                    return Err(Error::AuthFailed("password is too long".to_owned()));
                }
                let mut buf = with_capacity(1 + 1 + ulen + 1 + plen);
                put_u8(&mut buf, AUTH_VERSION);
                put_u8(&mut buf, ulen as u8);
                put_slice(&mut buf, username_bytes);
                put_u8(&mut buf, plen as u8);
                put_slice(&mut buf, password_bytes);
                proof {
                    assert(contents(buf) =~= encode_credentials(
                        self.username_bytes(),
                        self.password_bytes(),
                    ));
                }
                let mut bytes = to_vec(&buf);
                writer.append(&mut bytes);
                Ok(())
            },
            _ => Err(Error::AuthMethodNotSupported(method.byte())),
        }
    }

    fn confirm(&self, version: Version, method: AuthMethod, reader: &mut ByteReader) -> (r:
        Result<(), Error>) {
        if version != Version::V5 {
            return Err(Error::VersionNotSupported(version.byte()));
        }
        match method {
            AuthMethod::NoAuth => Ok(()),
            AuthMethod::UsernamePassword => {
                let start = reader.position();
                let r = read_status(reader);
                if r.is_err() {
                    reader.rewind(start);
                }
                r
            },
            _ => Err(Error::AuthMethodNotSupported(method.byte())),
        }
    }
}

/// Reads the message VER | STATUS and takes any status but success as a
/// refusal.
fn read_status(reader: &mut ByteReader) -> (r: Result<(), Error>)
    ensures
        final(reader).buffer() == old(reader).buffer(),
        final(reader).consumed() >= old(reader).consumed(),
        match parse_status(old(reader).unread()) {
            Err(e) => r matches Err(x) && x@ == e,
            Ok(true) => r is Ok && final(reader).consumed() == old(reader).consumed() + 2,
            Ok(false) => r matches Err(x) && x@ == ErrorView::AuthFailed(incorrect_credential()),
        },
{
    proof {
        reader.lemma_consumed_in_bounds();
    }
    let auth_version_raw = reader.read_u8()?;
    if auth_version_raw != AUTH_VERSION {
        return Err(Error::VersionNotSupported(auth_version_raw));
    }
    let res = reader.read_u8()?;
    if res == AUTH_SUCCESS {
        Ok(())
    } else {
        Err(Error::AuthFailed("incorrect credential".to_owned()))
    }
}

/// The provider that a scheme calls for.
#[derive(Debug)]
pub enum SchemeAuthProvider<'a> {
    Plain(PlainAuthProvider),
    Basic(BasicAuthProvider<'a>),
}

impl<'a> SchemeAuthProvider<'a> {
    /// The provider for `scheme`: a plain one where it asks for no
    /// authentication, one with the scheme's credentials where it has some.
    pub fn new(scheme: &'a ProxyAuthScheme) -> (provider: SchemeAuthProvider<'a>)
        ensures
            match *scheme {
                ProxyAuthScheme::NoAuth => provider is Plain,
                ProxyAuthScheme::BasicAuth(config) => provider matches SchemeAuthProvider::Basic(
                    basic,
                ) && basic.username_bytes() == encode_utf8(config.username_view())
                    && basic.password_bytes() == encode_utf8(config.password_view()),
            },
    {
        match scheme {
            ProxyAuthScheme::NoAuth => SchemeAuthProvider::Plain(PlainAuthProvider::new()),
            ProxyAuthScheme::BasicAuth(cfg) => SchemeAuthProvider::Basic(
                BasicAuthProvider::new(cfg.username(), cfg.password()),
            ),
        }
    }
}

impl<'a> AuthProvider for SchemeAuthProvider<'a> {
    open spec fn offered(&self) -> Seq<AuthMethod> {
        match *self {
            SchemeAuthProvider::Plain(plain) => plain.offered(),
            SchemeAuthProvider::Basic(basic) => basic.offered(),
        }
    }

    open spec fn opening(&self, version: Version, method: AuthMethod) -> Result<
        Seq<u8>,
        ErrorView,
    > {
        match *self {
            SchemeAuthProvider::Plain(plain) => plain.opening(version, method),
            SchemeAuthProvider::Basic(basic) => basic.opening(version, method),
        }
    }

    open spec fn verdict(&self, version: Version, method: AuthMethod, input: Seq<u8>) -> Result<
        nat,
        ErrorView,
    > {
        match *self {
            SchemeAuthProvider::Plain(plain) => plain.verdict(version, method, input),
            SchemeAuthProvider::Basic(basic) => basic.verdict(version, method, input),
        }
    }

    fn methods(&self) -> (methods: Vec<AuthMethod>) {
        match self {
            SchemeAuthProvider::Plain(plain) => plain.methods(),
            SchemeAuthProvider::Basic(basic) => basic.methods(),
        }
    }

    fn authenticate(&self, version: Version, method: AuthMethod, writer: &mut Vec<u8>) -> (r:
        Result<(), Error>) {
        match self {
            SchemeAuthProvider::Plain(plain) => plain.authenticate(version, method, writer),
            SchemeAuthProvider::Basic(basic) => basic.authenticate(version, method, writer),
        }
    }

    fn confirm(&self, version: Version, method: AuthMethod, reader: &mut ByteReader) -> (r:
        Result<(), Error>) {
        match self {
            SchemeAuthProvider::Plain(plain) => plain.confirm(version, method, reader),
            SchemeAuthProvider::Basic(basic) => basic.confirm(version, method, reader),
        }
    }
}

} // verus!
