//! The client's side of the handshake, as a state machine.
//!
//! A `SocksClient` never reads or writes a socket. Its owner sends what it
//! appended to the writer, hands it the bytes that arrived, and calls it
//! again until it returns the server's reply or an error.

use vstd::prelude::*;
use vstd::utf8::encode_utf8;
use crate::addr::{encodable, Addr, TargetAddr, TargetAddrView};
use crate::client::auth::{AuthProvider, SchemeAuthProvider};
use crate::error::{Error, ErrorView, IoErrorKind};
use crate::reader::ByteReader;
use crate::request::{
    encode_methods_request, encode_request, AuthMethodsRequest, AuthMethodsRequestView, Request,
    RequestView,
};
use crate::response::{
    parse_methods_response, parse_response, AuthMethodsResponse, Response, ResponseCode,
    ResponseView,
};
use crate::{AuthMethod, BasicAuthConfig, Command, ProxyAuthScheme, Version};

pub mod auth;

verus! {

/// A proxy to go through: where it is, which version it speaks and how to
/// authenticate with it.
#[derive(Clone, Debug, Eq, PartialEq)]
pub struct ProxyScheme {
    version: Version,
    addr: TargetAddr,
    auth: ProxyAuthScheme,
}

impl ProxyScheme {
    /// The version that the proxy speaks.
    pub closed spec fn version_view(&self) -> Version {
        self.version
    }

    /// Where the proxy is.
    pub closed spec fn addr_view(&self) -> TargetAddrView {
        self.addr@
    }

    /// How to authenticate with the proxy.
    pub closed spec fn auth_view(&self) -> ProxyAuthScheme {
        self.auth
    }

    /// A proxy that asks for no authentication.
    pub fn new(version: Version, addr: TargetAddr) -> (scheme: ProxyScheme)
        ensures
            scheme.version_view() == version,
            scheme.addr_view() == addr@,
            scheme.auth_view() is NoAuth,
    {
        ProxyScheme { version, addr, auth: ProxyAuthScheme::NoAuth }
    }

    /// A proxy that asks for a username and a password.
    pub fn new_with_basic_auth(
        version: Version,
        addr: TargetAddr,
        username: String,
        password: String,
    ) -> (scheme: ProxyScheme)
        ensures
            scheme.version_view() == version,
            scheme.addr_view() == addr@,
            scheme.auth_view() matches ProxyAuthScheme::BasicAuth(config)
                && config.username_view() == username@ && config.password_view() == password@,
    {
        ProxyScheme {
            version,
            addr,
            auth: ProxyAuthScheme::BasicAuth(BasicAuthConfig::new(username, password)),
        }
    }

    pub fn addr(&self) -> (addr: &TargetAddr)
        ensures
            addr@ == self.addr_view(),
    {
        &self.addr
    }

    pub fn version(&self) -> (version: Version)
        ensures
            version == self.version_view(),
    {
        self.version
    }

    pub fn auth(&self) -> (auth: &ProxyAuthScheme)
        ensures
            *auth == self.auth_view(),
    {
        &self.auth
    }
}

/// Where a client stands in the handshake.
#[derive(Debug, Eq, PartialEq, Copy, Clone, Structural)]
pub enum ClientState {
    /// Nothing has been sent yet.
    Start,
    /// The methods have been offered; the server's choice is still to be read.
    MethodsSent,
    /// The sub-negotiation of this method has been opened; the server's
    /// answer to it is still to be read.
    Authenticating(AuthMethod),
    /// The request has been sent; the reply is still to be read.
    RequestSent,
    /// The server has granted the request.
    Done,
    /// The handshake has failed.
    Closed,
}

/// What the owner of a client is to do next.
#[derive(Debug, Eq, PartialEq)]
pub enum Progress {
    /// Send what was written, feed the reader this many more bytes, then
    /// call `handshake` again.
    Read(usize),
    /// Send what was written, then call `handshake` again.
    Proceed,
    /// The handshake is over: this is the server's reply, and the stream is
    /// the tunnel.
    Done(Response),
}

/// Progress as contracts speak of it.
pub enum ProgressView {
    Read(usize),
    Proceed,
    Done(ResponseView),
}

impl View for Progress {
    type V = ProgressView;

    open spec fn view(&self) -> ProgressView {
        match *self {
            Progress::Read(n) => ProgressView::Read(n),
            Progress::Proceed => ProgressView::Proceed,
            Progress::Done(response) => ProgressView::Done(response@),
        }
    }
}

/// One step of a client: the state it leads to, the number of bytes of
/// input it takes, the bytes it sends, and the progress or the error.
pub struct Step {
    pub next: ClientState,
    pub taken: nat,
    pub sent: Seq<u8>,
    pub outcome: Result<ProgressView, ErrorView>,
}

/// A step that waits for `missing` more bytes and changes nothing.
pub open spec fn wait(state: ClientState, missing: usize) -> Step {
    Step { next: state, taken: 0, sent: Seq::empty(), outcome: Ok(ProgressView::Read(missing)) }
}

/// A step that gives the handshake up with `error`.
pub open spec fn close(taken: nat, error: ErrorView) -> Step {
    Step { next: ClientState::Closed, taken, sent: Seq::empty(), outcome: Err(error) }
}

/// A step that sends `sent` and goes on in state `next`.
pub open spec fn go_on(next: ClientState, taken: nat, sent: Seq<u8>) -> Step {
    Step { next, taken, sent, outcome: Ok(ProgressView::Proceed) }
}

/// What `handshake` does in `state` on the input `input`, for a client
/// that asks a proxy of version `version` to run `command` on `target` and
/// authenticates as `provider` does.
pub open spec fn handshake_step<AU: AuthProvider>(
    provider: AU,
    version: Version,
    command: Command,
    target: TargetAddrView,
    state: ClientState,
    input: Seq<u8>,
) -> Step {
    match state {
        ClientState::Start => if provider.offered().len() > 255 {
            close(0, ErrorView::TooManyMethods)
        } else {
            go_on(
                ClientState::MethodsSent,
                0,
                encode_methods_request(
                    AuthMethodsRequestView { version, methods: provider.offered() },
                ),
            )
        },
        ClientState::MethodsSent => match parse_methods_response(input) {
            Err(ErrorView::IoError(IoErrorKind::UnexpectedEof(missing))) => wait(state, missing),
            Err(e) => close(0, e),
            Ok((choice, taken)) => match choice.method {
                None => close(taken, ErrorView::NoAuthMethodSupported),
                Some(method) => match provider.opening(version, method) {
                    Err(e) => close(taken, e),
                    Ok(sent) => go_on(ClientState::Authenticating(method), taken, sent),
                },
            },
        },
        ClientState::Authenticating(method) => match provider.verdict(version, method, input) {
            Err(ErrorView::IoError(IoErrorKind::UnexpectedEof(missing))) => wait(state, missing),
            Err(e) => close(0, e),
            Ok(taken) => if !encodable(target) {
                close(taken, ErrorView::DomainTooLong)
            } else {
                go_on(
                    ClientState::RequestSent,
                    taken,
                    encode_request(RequestView { version, command, addr: target }),
                )
            },
        },
        ClientState::RequestSent => match parse_response(input) {
            Err(ErrorView::IoError(IoErrorKind::UnexpectedEof(missing))) => wait(state, missing),
            Err(e) => close(0, e),
            Ok((response, taken)) => if response.code != ResponseCode::Success {
                close(taken, ErrorView::ConnectionFailed(response.code))
            } else {
                Step {
                    next: ClientState::Done,
                    taken,
                    sent: Seq::empty(),
                    outcome: Ok(ProgressView::Done(response)),
                }
            },
        },
        ClientState::Done => close(0, ErrorView::IoError(IoErrorKind::InvalidInput)),
        ClientState::Closed => close(0, ErrorView::IoError(IoErrorKind::NotConnected)),
    }
}

/// An error ends the handshake, in whichever state it comes, and a
/// handshake that has ended takes no input and sends nothing.
pub proof fn error_closes<AU: AuthProvider>(
    provider: AU,
    version: Version,
    command: Command,
    target: TargetAddrView,
    state: ClientState,
    input: Seq<u8>,
)
    ensures
        handshake_step(provider, version, command, target, state, input).outcome is Err
            ==> handshake_step(provider, version, command, target, state, input).next
            == ClientState::Closed,
        handshake_step(provider, version, command, target, ClientState::Closed, input) == close(
            0,
            ErrorView::IoError(IoErrorKind::NotConnected),
        ),
{
}

/// Whether what a step returned is what it was to return.
pub open spec fn yields(
    r: Result<Progress, Error>,
    outcome: Result<ProgressView, ErrorView>,
) -> bool {
    match outcome {
        Ok(progress) => r matches Ok(p) && p@ == progress,
        Err(error) => r matches Err(e) && e@ == error,
    }
}

/// A client's handshake with a proxy: what it asks for, how it
/// authenticates, and how far it has come.
pub struct SocksClient<AU: AuthProvider> {
    version: Version,
    command: Command,
    target: Addr,
    auth_provider: AU,
    state: ClientState,
}

impl<'a> SocksClient<SchemeAuthProvider<'a>> {
    /// The handshake that asks the proxy of `scheme` to run `command` on
    /// `target`, with the provider that the scheme calls for.
    pub fn connect(scheme: &'a ProxyScheme, target: TargetAddr, command: Command) -> (client:
        SocksClient<SchemeAuthProvider<'a>>)
        ensures
            client.state_view() == ClientState::Start,
            client.version_view() == scheme.version_view(),
            client.command_view() == command,
            client.target_view() == target@,
            match scheme.auth_view() {
                ProxyAuthScheme::NoAuth => client.provider() is Plain,
                ProxyAuthScheme::BasicAuth(config) => {
                    &&& client.provider() matches SchemeAuthProvider::Basic(basic)
                    &&& basic.username_bytes() == encode_utf8(config.username_view())
                    &&& basic.password_bytes() == encode_utf8(config.password_view())
                },
            },
    {
        let target = Addr::new(target);
        SocksClient::connect_inner(scheme, target, command, SchemeAuthProvider::new(scheme.auth()))
    }
}

impl<AU: AuthProvider> SocksClient<AU> {
    /// How far the handshake has come.
    pub closed spec fn state_view(&self) -> ClientState {
        self.state
    }

    /// The version that the client speaks.
    pub closed spec fn version_view(&self) -> Version {
        self.version
    }

    /// What the client asks the proxy to do.
    pub closed spec fn command_view(&self) -> Command {
        self.command
    }

    /// The target of the request.
    pub closed spec fn target_view(&self) -> TargetAddrView {
        self.target@
    }

    /// The provider that the client authenticates with.
    pub closed spec fn provider(&self) -> AU {
        self.auth_provider
    }

    /// What never changes in a handshake.
    pub open spec fn same_setup(&self, other: &Self) -> bool {
        &&& self.version_view() == other.version_view()
        &&& self.command_view() == other.command_view()
        &&& self.target_view() == other.target_view()
        &&& self.provider() == other.provider()
    }

    /// The handshake that asks the proxy of `scheme` to run `command` on
    /// `target` and authenticates with `auth_provider`.
    pub fn connect_inner(
        scheme: &ProxyScheme,
        target: Addr,
        command: Command,
        auth_provider: AU,
    ) -> (client: SocksClient<AU>)
        ensures
            client.state_view() == ClientState::Start,
            client.version_view() == scheme.version_view(),
            client.command_view() == command,
            client.target_view() == target@,
            client.provider() == auth_provider,
    {
        SocksClient {
            version: scheme.version(),
            command,
            target,
            auth_provider,
            state: ClientState::Start,
        }
    }

    pub fn state(&self) -> (state: ClientState)
        ensures
            state == self.state_view(),
    {
        self.state
    }

    /// Takes the handshake one step further on the bytes that have arrived.
    pub fn handshake(&mut self, reader: &mut ByteReader, writer: &mut Vec<u8>) -> (r: Result<
        Progress,
        Error,
    >)
        ensures
            final(self).same_setup(old(self)),
            final(reader).buffer() == old(reader).buffer(),
            ({
                let step = handshake_step(
                    old(self).provider(),
                    old(self).version_view(),
                    old(self).command_view(),
                    old(self).target_view(),
                    old(self).state_view(),
                    old(reader).unread(),
                );
                &&& final(self).state_view() == step.next
                &&& final(reader).consumed() == old(reader).consumed() + step.taken
                &&& final(writer)@ == old(writer)@ + step.sent
                &&& yields(r, step.outcome)
            }),
    {
        proof {
            assert(writer@ =~= writer@ + Seq::<u8>::empty());
        }
        let version = self.version;
        match self.state {
            ClientState::Start => {
                let methods = self.auth_provider.methods();
                let auth_methods_request = AuthMethodsRequest::new(version, methods);
                match auth_methods_request.write_to(writer) {
                    Ok(()) => {
                        self.state = ClientState::MethodsSent;
                        Ok(Progress::Proceed)
                    },
                    Err(e) => {
                        self.state = ClientState::Closed;
                        Err(e)
                    },
                }
            },
            ClientState::MethodsSent => {
                let auth_methods_response = match AuthMethodsResponse::read_from(reader) {
                    Ok(response) => response,
                    Err(Error::IoError(IoErrorKind::UnexpectedEof(missing))) => {
                        return Ok(Progress::Read(missing));
                    },
                    Err(e) => {
                        self.state = ClientState::Closed;
                        return Err(e);
                    },
                };
                let method = match auth_methods_response.method {
                    Some(method) => method,
                    None => {
                        self.state = ClientState::Closed;
                        return Err(Error::NoAuthMethodSupported);
                    },
                };
                match self.auth_provider.authenticate(version, method, writer) {
                    Ok(()) => {
                        self.state = ClientState::Authenticating(method);
                        Ok(Progress::Proceed)
                    },
                    Err(e) => {
                        self.state = ClientState::Closed;
                        Err(e)
                    },
                }
            },
            ClientState::Authenticating(method) => {
                match self.auth_provider.confirm(version, method, reader) {
                    Ok(()) => {},
                    Err(Error::IoError(IoErrorKind::UnexpectedEof(missing))) => {
                        return Ok(Progress::Read(missing));
                    },
                    Err(e) => {
                        self.state = ClientState::Closed;
                        return Err(e);
                    },
                }
                let request = Request::new(version, self.command, self.target.clone());
                match request.write_to(writer) {
                    Ok(()) => {
                        self.state = ClientState::RequestSent;
                        Ok(Progress::Proceed)
                    },
                    Err(e) => {
                        self.state = ClientState::Closed;
                        Err(e)
                    },
                }
            },
            ClientState::RequestSent => {
                let response = match Response::read_from(reader) {
                    Ok(response) => response,
                    Err(Error::IoError(IoErrorKind::UnexpectedEof(missing))) => {
                        return Ok(Progress::Read(missing));
                    },
                    Err(e) => {
                        self.state = ClientState::Closed;
                        return Err(e);
                    },
                };
                if response.code != ResponseCode::Success {
                    self.state = ClientState::Closed;
                    return Err(Error::ConnectionFailed(response.code));
                }
                self.state = ClientState::Done;
                Ok(Progress::Done(response))
            },
            ClientState::Done => {
                self.state = ClientState::Closed;
                Err(Error::IoError(IoErrorKind::InvalidInput))
            },
            ClientState::Closed => Err(Error::IoError(IoErrorKind::NotConnected)),
        }
    }
}

} // verus!
