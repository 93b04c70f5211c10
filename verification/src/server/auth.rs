//! How a server picks an authentication method and checks a client by it.

use vstd::prelude::*;
use vstd::utf8::encode_utf8;
use crate::error::{Error, ErrorView, IoErrorKind};
use crate::reader::ByteReader;
use crate::subnegotiation::{
    bytes_eq, credentials_round_trip, encode_credentials, encode_status, parse_credentials,
    AUTH_FAILURE, AUTH_SUCCESS, AUTH_VERSION,
};
use crate::{AuthMethod, Version};

verus! {

/// What a validation does to the connection: how it ends, how many bytes
/// of input it takes and which bytes it sends.
pub struct Validation {
    pub result: Result<(), ErrorView>,
    pub taken: nat,
    pub reply: Seq<u8>,
}

/// Whether a result is the error of an input that ended too soon.
pub open spec fn is_short(result: Result<(), ErrorView>) -> bool {
    result matches Err(ErrorView::IoError(IoErrorKind::UnexpectedEof(_)))
}

/// The server's side of authentication.
///
/// `select` picks one of the methods that a client offers. `validate`
/// then runs the sub-negotiation of that method on the bytes that have
/// arrived, and appends to `writer` what the client is to be sent. Where the
/// input ends too soon, `validate` takes nothing and sends nothing, so that
/// it can be called again when more has arrived.
pub trait AuthProvider {
    /// What `select` returns for an offer.
    spec fn selection(&self, methods: Seq<AuthMethod>) -> Result<AuthMethod, ErrorView>;

    /// What `validate` does on the input `input`.
    spec fn validation(&self, version: Version, method: AuthMethod, input: Seq<u8>) -> Validation;

    fn select(&self, methods: &[AuthMethod]) -> (r: Result<AuthMethod, Error>)
        ensures
            match self.selection(methods@) {
                Ok(method) => r == Ok::<AuthMethod, Error>(method),
                Err(e) => r matches Err(x) && x@ == e,
            },
            r matches Ok(method) ==> methods@.contains(method),
    ;

    fn validate(
        &self,
        version: Version,
        method: AuthMethod,
        reader: &mut ByteReader,
        writer: &mut Vec<u8>,
    ) -> (r: Result<(), Error>)
        ensures
            final(reader).buffer() == old(reader).buffer(),
            final(reader).consumed() == old(reader).consumed() + self.validation(
                version,
                method,
                old(reader).unread(),
            ).taken,
            final(writer)@ == old(writer)@ + self.validation(
                version,
                method,
                old(reader).unread(),
            ).reply,
            match self.validation(version, method, old(reader).unread()).result {
                Ok(_) => r is Ok,
                Err(e) => r matches Err(x) && x@ == e,
            },
            is_short(self.validation(version, method, old(reader).unread()).result)
                ==> final(reader).consumed() == old(reader).consumed() && final(writer)@ == old(
                writer,
            )@,
    ;
}

/// Whether `wanted` is among `methods`.
fn offers(methods: &[AuthMethod], wanted: AuthMethod) -> (found: bool)
    ensures
        found == methods@.contains(wanted),
{
    let mut i: usize = 0;
    while i < methods.len()
        invariant
            i <= methods@.len(),
            forall|j: int| 0 <= j < i ==> methods@[j] != wanted,
        decreases methods@.len() - i,
    {
        if methods[i] == wanted {
            return true;
        }
        i = i + 1;
    }
    false
}

/// A server that asks nothing of its clients.
#[derive(Debug)]
pub struct PlainAuthProvider;

impl PlainAuthProvider {
    pub fn new() -> PlainAuthProvider {
        PlainAuthProvider {  }
    }
}

impl AuthProvider for PlainAuthProvider {
    open spec fn selection(&self, methods: Seq<AuthMethod>) -> Result<AuthMethod, ErrorView> {
        if methods.contains(AuthMethod::NoAuth) {
            Ok(AuthMethod::NoAuth)
        } else {
            Err(ErrorView::AuthMethodNotSupported(0xff))
        }
    }

    open spec fn validation(
        &self,
        version: Version,
        method: AuthMethod,
        input: Seq<u8>,
    ) -> Validation {
        Validation { result: Ok(()), taken: 0, reply: Seq::empty() }
    }

    fn select(&self, methods: &[AuthMethod]) -> (r: Result<AuthMethod, Error>) {
        if offers(methods, AuthMethod::NoAuth) {
            Ok(AuthMethod::NoAuth)
        } else {
            Err(Error::AuthMethodNotSupported(0xff))
        }
    }

    fn validate(
        &self,
        _version: Version,
        _method: AuthMethod,
        _reader: &mut ByteReader,
        _writer: &mut Vec<u8>,
    ) -> (r: Result<(), Error>) {
        assert(_writer@ =~= old(_writer)@ + Seq::<u8>::empty());
        Ok(())
    }
}

/// A server that asks every client for one username and password.
#[derive(Debug)]
pub struct BasicAuthProvider {
    username: String,
    password: String,
}

/// The reason that goes with credentials that do not match.
pub open spec fn incorrect_credentials() -> Seq<char> {
    "incorrect credentials"@
}

/// What checking a pair of credentials against the input `input` does:
/// the pair is read, compared byte for byte with `username` and `password`,
/// and answered with a status; a pair that cannot be read is not answered.
pub open spec fn credential_check(
    username: Seq<u8>,
    password: Seq<u8>,
    input: Seq<u8>,
) -> Validation {
    match parse_credentials(input) {
        Err(e) => Validation { result: Err(e), taken: 0, reply: Seq::empty() },
        Ok((name, word, taken)) => if name == username && word == password {
            Validation { result: Ok(()), taken, reply: encode_status(true) }
        } else {
            Validation {
                result: Err(ErrorView::AuthFailed(incorrect_credentials())),
                taken,
                reply: encode_status(false),
            }
        },
    }
}

impl BasicAuthProvider {
    /// The bytes of the username that this server asks for.
    pub closed spec fn username_bytes(&self) -> Seq<u8> {
        encode_utf8(self.username@)
    }

    /// The bytes of the password that this server asks for.
    pub closed spec fn password_bytes(&self) -> Seq<u8> {
        encode_utf8(self.password@)
    }

    /// A server that asks for this username and this password.
    pub fn new(username: &str, password: &str) -> (provider: BasicAuthProvider)
        ensures
            provider.username_bytes() == encode_utf8(username@),
            provider.password_bytes() == encode_utf8(password@),
    {
        BasicAuthProvider { username: username.to_owned(), password: password.to_owned() }
    }
}

impl AuthProvider for BasicAuthProvider {
    open spec fn selection(&self, methods: Seq<AuthMethod>) -> Result<AuthMethod, ErrorView> {
        if methods.contains(AuthMethod::UsernamePassword) {
            Ok(AuthMethod::UsernamePassword)
        } else {
            Err(ErrorView::AuthMethodNotSupported(0xff))
        }
    }

    open spec fn validation(
        &self,
        version: Version,
        method: AuthMethod,
        input: Seq<u8>,
    ) -> Validation {
        if version != Version::V5 {
            Validation {
                result: Err(ErrorView::VersionNotSupported(version.byte())),
                taken: 0,
                reply: encode_status(false),
            }
        } else if method != AuthMethod::UsernamePassword {
            Validation {
                result: Err(ErrorView::AuthMethodNotSupported(method.byte())),
                taken: 0,
                reply: encode_status(false),
            }
        } else {
            credential_check(self.username_bytes(), self.password_bytes(), input)
        }
    }

    fn select(&self, methods: &[AuthMethod]) -> (r: Result<AuthMethod, Error>) {
        if offers(methods, AuthMethod::UsernamePassword) {
            return Ok(AuthMethod::UsernamePassword);
        }
        Err(Error::AuthMethodNotSupported(0xff))
    }

    fn validate(
        &self,
        version: Version,
        method: AuthMethod,
        reader: &mut ByteReader,
        writer: &mut Vec<u8>,
    ) -> (r: Result<(), Error>) {
        if version != Version::V5 {
            auth_respond(false, writer);
            return Err(Error::VersionNotSupported(version.byte()));
        }
        match method {
            AuthMethod::UsernamePassword => {
                auth_validate(self.username.as_str(), self.password.as_str(), reader, writer)
            },
            _ => {
                auth_respond(false, writer);
                Err(Error::AuthMethodNotSupported(method.byte()))
            },
        }
    }
}

/// Reads a pair of credentials, compares it with the pair asked for and
/// answers it.
fn auth_validate(
    username: &str,
    password: &str,
    inbound: &mut ByteReader,
    outbound: &mut Vec<u8>,
) -> (r: Result<(), Error>)
    ensures
        final(inbound).buffer() == old(inbound).buffer(),
        final(inbound).consumed() == old(inbound).consumed() + credential_check(
            encode_utf8(username@),
            encode_utf8(password@),
            old(inbound).unread(),
        ).taken,
        final(outbound)@ == old(outbound)@ + credential_check(
            encode_utf8(username@),
            encode_utf8(password@),
            old(inbound).unread(),
        ).reply,
        match credential_check(
            encode_utf8(username@),
            encode_utf8(password@),
            old(inbound).unread(),
        ).result {
            Ok(_) => r is Ok,
            Err(e) => r matches Err(x) && x@ == e,
        },
{
    let start = inbound.position();
    match read_credentials(inbound) {
        Err(e) => {
            inbound.rewind(start);
            assert(outbound@ =~= old(outbound)@ + Seq::<u8>::empty());
            Err(e)
        },
        Ok((name, word)) => {
            if bytes_eq(username.as_bytes(), name.as_slice()) && bytes_eq(
                password.as_bytes(),
                word.as_slice(),
            ) {
                auth_respond(true, outbound);
                Ok(())
            } else {
                auth_respond(false, outbound);
                Err(Error::AuthFailed("incorrect credentials".to_owned()))
            }
        },
    }
}

/// Reads the message VER | ULEN | UNAME | PLEN | PASSWD.
fn read_credentials(inbound: &mut ByteReader) -> (r: Result<(Vec<u8>, Vec<u8>), Error>)
    ensures
        final(inbound).buffer() == old(inbound).buffer(),
        final(inbound).consumed() >= old(inbound).consumed(),
        match parse_credentials(old(inbound).unread()) {
            Ok((name, word, taken)) => r matches Ok(pair) && pair.0@ == name && pair.1@ == word
                && final(inbound).consumed() == old(inbound).consumed() + taken,
            Err(e) => r matches Err(x) && x@ == e,
        },
{
    let ghost s = inbound.unread();
    proof {
        inbound.lemma_consumed_in_bounds();
    }
    let auth_version_raw = inbound.read_u8()?;
    if auth_version_raw != AUTH_VERSION {
        return Err(Error::VersionNotSupported(auth_version_raw));
    }
    let ulen = inbound.read_u8()?;
    let name = inbound.read_exact(ulen as usize)?;
    let plen = inbound.read_u8()?;
    let word = inbound.read_exact(plen as usize)?;
    proof {
        assert(name@ =~= s.subrange(2, 2 + ulen));
        assert(word@ =~= s.subrange(3 + ulen, 3 + ulen + plen));
    }
    Ok((name, word))
}

/// Appends the message VER | STATUS.
fn auth_respond(success: bool, outbound: &mut Vec<u8>)
    ensures
        final(outbound)@ == old(outbound)@ + encode_status(success),
{
    let res: u8 = if success {
        AUTH_SUCCESS
    } else {
        AUTH_FAILURE
    };
    outbound.push(AUTH_VERSION);
    outbound.push(res);
    assert(outbound@ =~= old(outbound)@ + encode_status(success));
}

/// A server with credentials accepts a pair of at most 255 bytes each if
/// and only if both the username and the password are, byte for byte, the
/// ones it asks for. It answers a pair that it accepts with the status
/// 0x00 and any other with 0x01, and takes the whole message either way.
pub proof fn accepts_exactly_its_credentials(
    provider: BasicAuthProvider,
    username: Seq<u8>,
    password: Seq<u8>,
)
    requires
        username.len() <= 255,
        password.len() <= 255,
    ensures
        ({
            let validation = provider.validation(
                Version::V5,
                AuthMethod::UsernamePassword,
                encode_credentials(username, password),
            );
            let same = username == provider.username_bytes() && password
                == provider.password_bytes();
            &&& validation.result is Ok <==> same
            &&& same ==> validation.reply == seq![AUTH_VERSION, AUTH_SUCCESS]
            &&& !same ==> validation.reply == seq![AUTH_VERSION, AUTH_FAILURE] && validation.result
                == Err::<(), ErrorView>(ErrorView::AuthFailed(incorrect_credentials()))
            &&& validation.taken == encode_credentials(username, password).len()
        }),
{
    credentials_round_trip(username, password, Seq::empty());
    assert(encode_credentials(username, password) + Seq::<u8>::empty() =~= encode_credentials(
        username,
        password,
    ));
}

} // verus!
