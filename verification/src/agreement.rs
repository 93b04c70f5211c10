//! What a client and a server with credentials make of each other.

use vstd::prelude::*;
use crate::client::auth::{
    incorrect_credential, AuthProvider as ClientAuthProvider,
    BasicAuthProvider as ClientCredentials,
};
use crate::error::ErrorView;
use crate::server::auth::{
    accepts_exactly_its_credentials, AuthProvider as ServerAuthProvider,
    BasicAuthProvider as ServerCredentials,
};
use crate::{AuthMethod, Version};

verus! {

/// Whether a client holds the username and the password that a server
/// asks for.
pub open spec fn same_credentials(client: ClientCredentials, server: ServerCredentials) -> bool {
    client.username_bytes() == server.username_bytes() && client.password_bytes()
        == server.password_bytes()
}

/// A client whose username and password fit their length bytes opens the
/// sub-negotiation with a message that the server reads whole and answers,
/// and the client reads that answer whole. The server accepts and the
/// client goes on if and only if the client holds the server's credentials;
/// otherwise the server fails and the client fails with it.
pub proof fn credentials_decide(client: ClientCredentials, server: ServerCredentials)
    requires
        client.username_bytes().len() <= 255,
        client.password_bytes().len() <= 255,
    ensures
        ({
            let opening = client.opening(Version::V5, AuthMethod::UsernamePassword);
            let validation = server.validation(
                Version::V5,
                AuthMethod::UsernamePassword,
                opening->Ok_0,
            );
            let verdict = client.verdict(
                Version::V5,
                AuthMethod::UsernamePassword,
                validation.reply,
            );
            &&& opening is Ok
            &&& validation.taken == opening->Ok_0.len()
            &&& validation.result is Ok <==> same_credentials(client, server)
            &&& verdict is Ok <==> same_credentials(client, server)
            &&& verdict matches Ok(taken) ==> taken == validation.reply.len()
            &&& verdict matches Err(e) ==> e == ErrorView::AuthFailed(incorrect_credential())
        }),
{
    accepts_exactly_its_credentials(server, client.username_bytes(), client.password_bytes());
}

} // verus!
