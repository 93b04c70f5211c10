//! The server's side of the handshake, as a state machine.
//!
//! A `SocksConnection` never reads or writes a socket. Its owner hands it
//! the bytes that arrived, sends what it appended to the writer, and does
//! what the returned directive says: read more, call again, open the
//! upstream connection, or start to relay. An error closes the connection;
//! what was appended before the error is still to be sent.

use std::sync::Arc;
use vstd::prelude::*;
use crate::addr::{Addr, SocketEndpoint, TargetAddr, TargetAddrView};
use crate::error::{Error, ErrorView, IoErrorKind};
use crate::reader::ByteReader;
use crate::request::{parse_methods_request, parse_request, AuthMethodsRequest, Request};
use crate::response::{
    encode_methods_response, encode_response, AuthMethodsResponse, Response, ResponseCode,
    ResponseView,
};
use crate::server::auth::AuthProvider;
use crate::{AuthMethod, Command, Version};

pub mod auth;

verus! {

/// Where a connection stands in the handshake.
#[derive(Debug, Eq, PartialEq, Copy, Clone, Structural)]
pub enum ServerState {
    /// Nothing has been read yet.
    Start,
    /// The method has been chosen and announced; its sub-negotiation is
    /// still to be run.
    MethodSelected(Version, AuthMethod),
    /// The client is authenticated; its request is still to be read.
    AuthDone(Version),
    /// A CONNECT request of this version has been read; the upstream
    /// connection is still to be opened.
    RequestRead(Version),
    /// The request has been granted: what follows is relayed.
    Relaying,
    /// The handshake has failed.
    Closed,
}

/// What the owner of a connection is to do next.
#[derive(Debug, Eq, PartialEq)]
pub enum Directive {
    /// Feed the reader this many more bytes, then call `handshake` again.
    Read(usize),
    /// Send what was written, then call `handshake` again.
    Proceed,
    /// Connect to this target, then report through `handle_connect_command`.
    Connect(TargetAddr),
    /// Send what was written, then relay between the client and upstream.
    Relay,
}

/// A directive as contracts speak of it.
pub enum DirectiveView {
    Read(usize),
    Proceed,
    Connect(TargetAddrView),
    Relay,
}

impl View for Directive {
    type V = DirectiveView;

    open spec fn view(&self) -> DirectiveView {
        match *self {
            Directive::Read(n) => DirectiveView::Read(n),
            Directive::Proceed => DirectiveView::Proceed,
            Directive::Connect(target) => DirectiveView::Connect(target@),
            Directive::Relay => DirectiveView::Relay,
        }
    }
}

/// One step of a connection: the state it leads to, the number of bytes of
/// input it takes, the bytes it sends, and the directive or the error.
pub struct Step {
    pub next: ServerState,
    pub taken: nat,
    pub reply: Seq<u8>,
    pub outcome: Result<DirectiveView, ErrorView>,
}

/// The address 0.0.0.0:0, which a reply carries where the server has no
/// bound address to report.
pub open spec fn dummy_addr() -> TargetAddrView {
    TargetAddrView::Addr(SocketEndpoint::V4([0u8, 0u8, 0u8, 0u8], 0))
}

/// The reply with the given code and the dummy address.
pub open spec fn reply_bytes(version: Version, code: ResponseCode) -> Seq<u8> {
    encode_response(ResponseView { version, code, addr: dummy_addr() })
}

/// A step that waits for `missing` more bytes and changes nothing.
pub open spec fn wait(state: ServerState, missing: usize) -> Step {
    Step { next: state, taken: 0, reply: Seq::empty(), outcome: Ok(DirectiveView::Read(missing)) }
}

/// A step that closes the connection with `error` after sending `reply`.
pub open spec fn close(taken: nat, reply: Seq<u8>, error: ErrorView) -> Step {
    Step { next: ServerState::Closed, taken, reply, outcome: Err(error) }
}

/// What `handshake` does in `state` on the input `input`, with a provider
/// that selects and validates as `provider` does.
pub open spec fn handshake_step<T: AuthProvider>(
    provider: T,
    state: ServerState,
    input: Seq<u8>,
) -> Step {
    match state {
        ServerState::Start => match parse_methods_request(input) {
            Err(ErrorView::IoError(IoErrorKind::UnexpectedEof(missing))) => wait(state, missing),
            Err(e) => close(0, Seq::empty(), e),
            Ok((offer, taken)) => if offer.version != Version::V5 {
                close(taken, Seq::empty(), ErrorView::VersionNotSupported(offer.version.byte()))
            } else {
                match provider.selection(offer.methods) {
                    Err(e) => close(
                        taken,
                        encode_methods_response(
                            AuthMethodsResponse { version: offer.version, method: None },
                        ),
                        e,
                    ),
                    Ok(method) => Step {
                        next: ServerState::MethodSelected(offer.version, method),
                        taken,
                        reply: encode_methods_response(
                            AuthMethodsResponse { version: offer.version, method: Some(method) },
                        ),
                        outcome: Ok(DirectiveView::Proceed),
                    },
                }
            },
        },
        ServerState::MethodSelected(version, method) => {
            let validation = provider.validation(version, method, input);
            match validation.result {
                Err(ErrorView::IoError(IoErrorKind::UnexpectedEof(missing))) => wait(
                    state,
                    missing,
                ),
                Err(e) => close(validation.taken, validation.reply, e),
                Ok(_) => Step {
                    next: ServerState::AuthDone(version),
                    taken: validation.taken,
                    reply: validation.reply,
                    outcome: Ok(DirectiveView::Proceed),
                },
            }
        },
        ServerState::AuthDone(version) => match parse_request(input) {
            Err(ErrorView::IoError(IoErrorKind::UnexpectedEof(missing))) => wait(state, missing),
            Err(ErrorView::CommandNotSupported(raw)) => close(
                0,
                reply_bytes(version, ResponseCode::CommandNotSupported),
                ErrorView::CommandNotSupported(raw),
            ),
            Err(e) => close(0, Seq::empty(), e),
            Ok((request, taken)) => match request.command {
                Command::Connect => Step {
                    next: ServerState::RequestRead(request.version),
                    taken,
                    reply: Seq::empty(),
                    outcome: Ok(DirectiveView::Connect(request.addr)),
                },
                _ => close(
                    taken,
                    reply_bytes(request.version, ResponseCode::CommandNotSupported),
                    ErrorView::CommandNotSupported(request.command.byte()),
                ),
            },
        },
        ServerState::RequestRead(_) => close(
            0,
            Seq::empty(),
            ErrorView::IoError(IoErrorKind::InvalidInput),
        ),
        ServerState::Relaying => Step {
            next: state,
            taken: 0,
            reply: Seq::empty(),
            outcome: Ok(DirectiveView::Relay),
        },
        ServerState::Closed => close(
            0,
            Seq::empty(),
            ErrorView::IoError(IoErrorKind::NotConnected),
        ),
    }
}

/// What `handle_connect_command` does in `state` when told how the
/// attempt to connect upstream ended.
pub open spec fn connect_step(state: ServerState, attempt: Result<(), IoErrorKind>) -> Step {
    match state {
        ServerState::RequestRead(version) => match attempt {
            Ok(_) => Step {
                next: ServerState::Relaying,
                taken: 0,
                reply: reply_bytes(version, ResponseCode::Success),
                outcome: Ok(DirectiveView::Relay),
            },
            Err(kind) => close(
                0,
                reply_bytes(version, ResponseCode::NetworkUnreachable),
                ErrorView::IoError(kind),
            ),
        },
        ServerState::Closed => close(
            0,
            Seq::empty(),
            ErrorView::IoError(IoErrorKind::NotConnected),
        ),
        _ => close(0, Seq::empty(), ErrorView::IoError(IoErrorKind::InvalidInput)),
    }
}

/// An error closes the connection, in whichever state it comes.
pub proof fn error_closes<T: AuthProvider>(
    provider: T,
    state: ServerState,
    input: Seq<u8>,
    attempt: Result<(), IoErrorKind>,
)
    ensures
        handshake_step(provider, state, input).outcome is Err ==> handshake_step(
            provider,
            state,
            input,
        ).next == ServerState::Closed,
        connect_step(state, attempt).outcome is Err ==> connect_step(state, attempt).next
            == ServerState::Closed,
{
}

/// A closed connection stays closed, takes no input and sends nothing.
pub proof fn closed_is_silent<T: AuthProvider>(
    provider: T,
    input: Seq<u8>,
    attempt: Result<(), IoErrorKind>,
)
    ensures
        handshake_step(provider, ServerState::Closed, input) == close(
            0,
            Seq::empty(),
            ErrorView::IoError(IoErrorKind::NotConnected),
        ),
        connect_step(ServerState::Closed, attempt) == close(
            0,
            Seq::empty(),
            ErrorView::IoError(IoErrorKind::NotConnected),
        ),
{
}

/// A step that asks for more input takes none of what has arrived,
/// sends nothing and leaves the connection in the state it was in.
pub proof fn waiting_changes_nothing<T: AuthProvider>(
    provider: T,
    state: ServerState,
    input: Seq<u8>,
)
    ensures
        handshake_step(provider, state, input).outcome matches Ok(DirectiveView::Read(_))
            ==> handshake_step(provider, state, input) == wait(
            state,
            handshake_step(provider, state, input).outcome->Ok_0->Read_0,
        ),
{
}

/// Whether what a step returned is what it was to return.
pub open spec fn yields(
    r: Result<Directive, Error>,
    outcome: Result<DirectiveView, ErrorView>,
) -> bool {
    match outcome {
        Ok(directive) => r matches Ok(d) && d@ == directive,
        Err(error) => r matches Err(e) && e@ == error,
    }
}

/// One client's session on the server: who it is, how it is to
/// authenticate, and how far the handshake has come.
pub struct SocksConnection<T: AuthProvider> {
    identifier: String,
    auth_provider: Arc<T>,
    state: ServerState,
}

impl<T: AuthProvider> SocksConnection<T> {
    /// How far the handshake has come.
    pub closed spec fn state_view(&self) -> ServerState {
        self.state
    }

    /// The provider that this connection authenticates with.
    pub closed spec fn provider(&self) -> T {
        *self.auth_provider
    }

    /// The name that this connection was given.
    pub closed spec fn identifier_view(&self) -> Seq<char> {
        self.identifier@
    }

    /// A connection on which nothing has happened yet.
    pub fn new(identifier: String, auth_provider: Arc<T>) -> (connection: SocksConnection<T>)
        ensures
            connection.state_view() == ServerState::Start,
            connection.provider() == *auth_provider,
            connection.identifier_view() == identifier@,
    {
        SocksConnection { identifier, auth_provider, state: ServerState::Start }
    }

    pub fn identifier(&self) -> (name: &str)
        ensures
            name@ == self.identifier_view(),
    {
        self.identifier.as_str()
    }

    pub fn state(&self) -> (state: ServerState)
        ensures
            state == self.state_view(),
    {
        self.state
    }

    /// Takes the handshake one step further on the bytes that have arrived.
    pub fn handshake(&mut self, reader: &mut ByteReader, writer: &mut Vec<u8>) -> (r: Result<
        Directive,
        Error,
    >)
        ensures
            final(self).provider() == old(self).provider(),
            final(self).identifier_view() == old(self).identifier_view(),
            final(reader).buffer() == old(reader).buffer(),
            ({
                let step = handshake_step(
                    old(self).provider(),
                    old(self).state_view(),
                    old(reader).unread(),
                );
                &&& final(self).state_view() == step.next
                &&& final(reader).consumed() == old(reader).consumed() + step.taken
                &&& final(writer)@ == old(writer)@ + step.reply
                &&& yields(r, step.outcome)
            }),
    {
        proof {
            assert(writer@ =~= writer@ + Seq::<u8>::empty());
        }
        match self.state {
            ServerState::Start => {
                let auth_method_request = match AuthMethodsRequest::read_from(reader) {
                    Ok(request) => request,
                    Err(Error::IoError(IoErrorKind::UnexpectedEof(missing))) => {
                        return Ok(Directive::Read(missing));
                    },
                    Err(e) => {
                        self.state = ServerState::Closed;
                        return Err(e);
                    },
                };
                let version = auth_method_request.version;
                if version != Version::V5 {
                    self.state = ServerState::Closed;
                    return Err(Error::VersionNotSupported(version.byte()));
                }
                let methods = auth_method_request.methods;
                match self.auth_provider.select(methods.as_slice()) {
                    Err(e) => {
                        let response = AuthMethodsResponse::new(version, None);
                        let _ = response.write_to(writer);
                        self.state = ServerState::Closed;
                        Err(e)
                    },
                    Ok(method) => {
                        let response = AuthMethodsResponse::new(version, Some(method));
                        let _ = response.write_to(writer);
                        self.state = ServerState::MethodSelected(version, method);
                        Ok(Directive::Proceed)
                    },
                }
            },
            ServerState::MethodSelected(version, method) => {
                match self.auth_provider.validate(version, method, reader, writer) {
                    Ok(()) => {
                        self.state = ServerState::AuthDone(version);
                        Ok(Directive::Proceed)
                    },
                    Err(Error::IoError(IoErrorKind::UnexpectedEof(missing))) => {
                        Ok(Directive::Read(missing))
                    },
                    Err(e) => {
                        self.state = ServerState::Closed;
                        Err(e)
                    },
                }
            },
            ServerState::AuthDone(version) => {
                let request = match Request::read_from(reader) {
                    Ok(request) => request,
                    Err(Error::IoError(IoErrorKind::UnexpectedEof(missing))) => {
                        return Ok(Directive::Read(missing));
                    },
                    Err(Error::CommandNotSupported(raw)) => {
                        self.refuse(version, ResponseCode::CommandNotSupported, writer);
                        return Err(Error::CommandNotSupported(raw));
                    },
                    Err(e) => {
                        self.state = ServerState::Closed;
                        return Err(e);
                    },
                };
                match request.command {
                    Command::Connect => {
                        self.state = ServerState::RequestRead(request.version);
                        Ok(Directive::Connect(request.addr.inner().clone()))
                    },
                    Command::Bind => self.handle_bind_command(request, writer),
                    Command::UdpAssociate => self.handle_udp_associate_command(request, writer),
                }
            },
            ServerState::RequestRead(_) => {
                self.state = ServerState::Closed;
                Err(Error::IoError(IoErrorKind::InvalidInput))
            },
            ServerState::Relaying => Ok(Directive::Relay),
            ServerState::Closed => Err(Error::IoError(IoErrorKind::NotConnected)),
        }
    }

    /// Answers a CONNECT request once the attempt to connect upstream has
    /// ended: with success, after which the connection relays, or with
    /// "network unreachable", after which it is closed.
    pub fn handle_connect_command(
        &mut self,
        attempt: Result<(), IoErrorKind>,
        writer: &mut Vec<u8>,
    ) -> (r: Result<Directive, Error>)
        ensures
            final(self).provider() == old(self).provider(),
            final(self).identifier_view() == old(self).identifier_view(),
            ({
                let step = connect_step(old(self).state_view(), attempt);
                &&& final(self).state_view() == step.next
                &&& final(writer)@ == old(writer)@ + step.reply
                &&& yields(r, step.outcome)
            }),
    {
        proof {
            assert(writer@ =~= writer@ + Seq::<u8>::empty());
        }
        match self.state {
            ServerState::RequestRead(version) => match attempt {
                Ok(()) => {
                    self.refuse(version, ResponseCode::Success, writer);
                    self.state = ServerState::Relaying;
                    Ok(Directive::Relay)
                },
                Err(kind) => {
                    self.refuse(version, ResponseCode::NetworkUnreachable, writer);
                    Err(Error::IoError(kind))
                },
            },
            ServerState::Closed => Err(Error::IoError(IoErrorKind::NotConnected)),
            _ => {
                self.state = ServerState::Closed;
                Err(Error::IoError(IoErrorKind::InvalidInput))
            },
        }
    }

    fn handle_bind_command(&mut self, request: Request, writer: &mut Vec<u8>) -> (r: Result<
        Directive,
        Error,
    >)
        ensures
            final(self).provider() == old(self).provider(),
            final(self).identifier_view() == old(self).identifier_view(),
            final(self).state_view() == ServerState::Closed,
            final(writer)@ == old(writer)@ + reply_bytes(
                request.version,
                ResponseCode::CommandNotSupported,
            ),
            r matches Err(e) && e@ == ErrorView::CommandNotSupported(request.command.byte()),
    {
        self.refuse(request.version, ResponseCode::CommandNotSupported, writer);
        Err(Error::CommandNotSupported(request.command.byte()))
    }

    fn handle_udp_associate_command(&mut self, request: Request, writer: &mut Vec<u8>) -> (r:
        Result<Directive, Error>)
        ensures
            final(self).provider() == old(self).provider(),
            final(self).identifier_view() == old(self).identifier_view(),
            final(self).state_view() == ServerState::Closed,
            final(writer)@ == old(writer)@ + reply_bytes(
                request.version,
                ResponseCode::CommandNotSupported,
            ),
            r matches Err(e) && e@ == ErrorView::CommandNotSupported(request.command.byte()),
    {
        self.refuse(request.version, ResponseCode::CommandNotSupported, writer);
        Err(Error::CommandNotSupported(request.command.byte()))
    }

    /// Appends the reply with the given code and the dummy address, and
    /// closes the connection.
    fn refuse(&mut self, version: Version, code: ResponseCode, writer: &mut Vec<u8>)
        ensures
            final(self).provider() == old(self).provider(),
            final(self).identifier_view() == old(self).identifier_view(),
            final(self).state_view() == ServerState::Closed,
            final(writer)@ == old(writer)@ + reply_bytes(version, code),
    {
        let addr = SocketEndpoint::V4([0, 0, 0, 0], 0);
        let response = Response::new(version, code, Addr::new(TargetAddr::Addr(addr)));
        let _ = response.write_to(writer);
        self.state = ServerState::Closed;
    }
}

} // verus!
