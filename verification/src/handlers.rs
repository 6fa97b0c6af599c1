//! What the ends that take connections decide before a session starts.

use vstd::prelude::*;
use vstd::string::StrSliceExecFns;
use axum::http::HeaderMap;
use crate::address::server_query;
use crate::address;
use crate::bytes;
use crate::bytes::state_to_bytes;
use crate::bytes::MessageState;
use crate::connections;
use crate::connections::PeripheryConnection;
use crate::connections::PeripheryConnections;
use crate::identifiers;
use crate::identifiers::HeaderError;
use crate::identifiers::ServerHeaderIdentifiers;
use crate::manage::optional_string;
use crate::manage::private_key_for;
use crate::manage::Server;
use crate::session::SessionKind;
use crate::text;
use crate::websocket::RawMessage;

verus! {

/// Why a core refuses the connection of a periphery.
#[derive(Debug, Clone, Copy, PartialEq, Eq, Structural)]
pub enum HandlerError {
    /// The upgrade does not identify the connection.
    Identifiers(HeaderError),
    /// There is no such server.
    NoServer,
    /// Server is Disabled.
    Disabled,
    /// Server is configured to use a Core -> Periphery connection.
    Outbound,
    /// The server is already connected.
    AlreadyConnected,
    /// Must either configure the public key of the server or a default.
    NoPublicKey,
}

/// The HTTP status of a refusal.
pub open spec fn refusal_status(e: HandlerError) -> u16 {
    match e {
        HandlerError::Identifiers(_) => 401,
        HandlerError::NoServer => 400,
        HandlerError::Disabled => 400,
        HandlerError::Outbound => 400,
        HandlerError::AlreadyConnected => 401,
        HandlerError::NoPublicKey => 500,
    }
}

impl HandlerError {
    /// The HTTP status of the refusal.
    pub fn status(&self) -> (r: u16)
        ensures
            r == refusal_status(*self),
    {
        match self {
            HandlerError::Identifiers(_) => 401,
            HandlerError::NoServer => 400,
            HandlerError::Disabled => 400,
            HandlerError::Outbound => 400,
            HandlerError::AlreadyConnected => 401,
            HandlerError::NoPublicKey => 500,
        }
    }
}

/// What a connection of a periphery is logged in with.
pub struct Admission {
    pub identifiers: ServerHeaderIdentifiers,
    /// The query that the periphery must have connected with.
    pub query: String,
    /// The private key of the core.
    pub private_key: String,
    /// The public key that the periphery must prove.
    pub expected_public_key: String,
}

/// Why the headers of an upgrade do not identify a connection, if they do not.
pub open spec fn header_error(headers: Map<Seq<char>, Seq<Seq<u8>>>) -> Option<HeaderError> {
    if identifiers::header_host(headers) is None {
        Some(HeaderError::NoHost)
    } else if !headers.contains_key("sec-websocket-key"@) {
        Some(HeaderError::NoKey)
    } else {
        None
    }
}

/// The public key that a core expects of a periphery that connects to it: that
/// of the server, or the default, if there is one.
pub open spec fn expected_key(server: Server, default: Option<&str>) -> Option<Seq<char>> {
    if server.config.public_key@.len() > 0 {
        Some(server.config.public_key@)
    } else {
        match default {
            Some(key) => Some(key@),
            None => None,
        }
    }
}

/// Why a core refuses the connection of a periphery, if it does.
pub open spec fn refusal(
    headers: Map<Seq<char>, Seq<Seq<u8>>>,
    server: Option<&Server>,
    already_connected: bool,
    default_public_key: Option<&str>,
) -> Option<HandlerError> {
    if header_error(headers) is Some {
        Some(HandlerError::Identifiers(header_error(headers)->0))
    } else {
        match server {
            None => Some(HandlerError::NoServer),
            Some(server) => if !server.config.enabled {
                Some(HandlerError::Disabled)
            } else if server.config.address@.len() > 0 {
                Some(HandlerError::Outbound)
            } else if already_connected {
                Some(HandlerError::AlreadyConnected)
            } else if expected_key(*server, default_public_key) is None {
                Some(HandlerError::NoPublicKey)
            } else {
                None
            },
        }
    }
}

/// Whether `admission` is what the connection of `server`, which presents itself
/// as `name`, is logged in with.
pub open spec fn is_admission(
    headers: Map<Seq<char>, Seq<Seq<u8>>>,
    name: Seq<char>,
    server: Server,
    default_private_key: Seq<char>,
    default_public_key: Option<&str>,
    admission: Admission,
) -> bool {
    &&& identifiers::header_host(headers) == Some(admission.identifiers.host@)
    &&& admission.identifiers.accept@ == identifiers::accept_text(headers["sec-websocket-key"@][0])
    &&& admission.query@ == address::server_query_text(name)
    &&& admission.private_key@ == (if server.config.private_key@.len() == 0 {
        default_private_key
    } else {
        server.config.private_key@
    })
    &&& expected_key(server, default_public_key) == Some(admission.expected_public_key@)
}

/// The public key that a core expects of a periphery that connects to it.
fn expected_public_key(server: &Server, default: Option<&str>) -> (r: Option<String>)
    ensures
        match r {
            Some(key) => expected_key(*server, default) == Some(key@),
            None => expected_key(*server, default) is None,
        },
{
    match optional_string(server.config.public_key.as_str()) {
        Some(key) => Some(key),
        None => match default {
            Some(key) => Some(key.to_owned()),
            None => None,
        },
    }
}

/// What the connection of `server`, which presents itself as `name`, is logged in
/// with.
fn admission_of(
    identifiers: ServerHeaderIdentifiers,
    name: &str,
    server: &Server,
    default_private_key: &str,
    default_public_key: Option<&str>,
) -> (r: Result<Admission, HandlerError>)
    ensures
        match r {
            Err(e) => e == HandlerError::NoPublicKey && expected_key(*server, default_public_key) is None,
            Ok(admission) => {
                &&& admission.identifiers == identifiers
                &&& admission.query@ == address::server_query_text(name@)
                &&& admission.private_key@ == (if server.config.private_key@.len() == 0 {
                    default_private_key@
                } else {
                    server.config.private_key@
                })
                &&& expected_key(*server, default_public_key) == Some(admission.expected_public_key@)
            },
        },
{
    let expected_public_key: String = match expected_public_key(server, default_public_key) {
        Some(key) => key,
        None => return Err(HandlerError::NoPublicKey),
    };
    let private_key: String = private_key_for(server.config.private_key.as_str(), default_private_key).to_owned();
    Ok(Admission { identifiers, query: server_query(name), private_key, expected_public_key })
}

/// A connection that a core took.
pub struct Admitted<L> {
    pub admission: Admission,
    /// The link of the connection that was replaced, which is to be cancelled.
    pub replaced: Option<L>,
}

/// Whether `admitted` is the connection of `server` that a core took, and `after`
/// what its connections became.
pub open spec fn is_admitted<L, C, E>(
    headers: Map<Seq<char>, Seq<Seq<u8>>>,
    name: Seq<char>,
    server: Server,
    default_private_key: Seq<char>,
    default_public_key: Option<&str>,
    before: Map<Seq<char>, PeripheryConnection<L, C, E>>,
    link: L,
    channels: C,
    admitted: Admitted<L>,
    after: Map<Seq<char>, PeripheryConnection<L, C, E>>,
) -> bool {
    &&& is_admission(headers, name, server, default_private_key, default_public_key, admitted.admission)
    &&& admitted.replaced == (if before.contains_key(server.id@) {
        Some(before[server.id@].link)
    } else {
        None
    })
    &&& after == connections::inserted(before, server.id@, None, link, channels)
}

/// Whether `server` has a connection that is connected.
pub open spec fn is_connected<L, C, E>(
    connections: Map<Seq<char>, PeripheryConnection<L, C, E>>,
    server: Option<&Server>,
) -> bool {
    match server {
        Some(server) => connections.contains_key(server.id@) && connections[server.id@].connected,
        None => false,
    }
}

/// Takes the connection of a periphery that presents itself as `name`, or
/// refuses it; a refusal changes no connection. `server` is the server of that
/// name, if there is one.
pub fn handler<L, C, E>(
    headers: &mut HeaderMap,
    name: &str,
    server: Option<&Server>,
    connections: &mut PeripheryConnections<L, C, E>,
    default_private_key: &str,
    default_public_key: Option<&str>,
    link: L,
    channels: C,
) -> (r: Result<Admitted<L>, HandlerError>)
    requires
        old(connections).wf(),
    ensures
        final(connections).wf(),
        match refusal(
            identifiers::header_values(*old(headers)),
            server,
            is_connected(old(connections)@, server),
            default_public_key,
        ) {
            Some(e) => r == Err::<Admitted<L>, HandlerError>(e) && final(connections)@ == old(connections)@,
            None => r matches Ok(admitted) && is_admitted(
                identifiers::header_values(*old(headers)),
                name@,
                *server->0,
                default_private_key@,
                default_public_key,
                old(connections)@,
                link,
                channels,
                admitted,
                final(connections)@,
            ),
        },
{
    let identifiers: ServerHeaderIdentifiers = match ServerHeaderIdentifiers::extract(headers) {
        Ok(identifiers) => identifiers,
        Err(e) => return Err(HandlerError::Identifiers(e)),
    };
    let server: &Server = match server {
        Some(server) => server,
        None => return Err(HandlerError::NoServer),
    };
    if !server.config.enabled {
        return Err(HandlerError::Disabled);
    }
    if !text::is_empty(server.config.address.as_str()) {
        return Err(HandlerError::Outbound);
    }
    // Ensure connected server can't get bumped off the connection.
    // Treat this as authorization issue.
    if let Some(existing) = connections.get(server.id.as_str()) {
        if existing.connected() {
            return Err(HandlerError::AlreadyConnected);
        }
    }
    let admission: Admission = match admission_of(identifiers, name, server, default_private_key, default_public_key) {
        Ok(admission) => admission,
        Err(e) => return Err(e),
    };
    let replaced: Option<L> = connections.insert(server.id.as_str().to_owned(), None, link, channels);
    Ok(Admitted { admission, replaced })
}

/// Takes the connection of a periphery of which all but its identifiers and its
/// public key were looked into before, or refuses it; a refusal changes no
/// connection.
pub fn client_handler<L, C, E>(
    headers: &mut HeaderMap,
    name: &str,
    server: &Server,
    connections: &mut PeripheryConnections<L, C, E>,
    default_private_key: &str,
    default_public_key: Option<&str>,
    link: L,
    channels: C,
) -> (r: Result<Admitted<L>, HandlerError>)
    requires
        old(connections).wf(),
    ensures
        final(connections).wf(),
        match header_error(identifiers::header_values(*old(headers))) {
            Some(e) => r == Err::<Admitted<L>, HandlerError>(HandlerError::Identifiers(e)) && final(connections)@
                == old(connections)@,
            None => match expected_key(*server, default_public_key) {
                None => r == Err::<Admitted<L>, HandlerError>(HandlerError::NoPublicKey) && final(connections)@
                    == old(connections)@,
                Some(_) => r matches Ok(admitted) && is_admitted(
                    identifiers::header_values(*old(headers)),
                    name@,
                    *server,
                    default_private_key@,
                    default_public_key,
                    old(connections)@,
                    link,
                    channels,
                    admitted,
                    final(connections)@,
                ),
            },
        },
{
    let identifiers: ServerHeaderIdentifiers = match ServerHeaderIdentifiers::extract(headers) {
        Ok(identifiers) => identifiers,
        Err(e) => return Err(HandlerError::Identifiers(e)),
    };
    let admission: Admission = match admission_of(identifiers, name, server, default_private_key, default_public_key) {
        Ok(admission) => admission,
        Err(e) => return Err(e),
    };
    let replaced: Option<L> = connections.insert(server.id.as_str().to_owned(), None, link, channels);
    Ok(Admitted { admission, replaced })
}

/// A connected server cannot be bumped off its connection, and one that the core
/// connects to cannot connect itself.
pub proof fn law_connected_server_is_not_replaced(
    headers: Map<Seq<char>, Seq<Seq<u8>>>,
    server: Option<&Server>,
    default_public_key: Option<&str>,
)
    ensures
        refusal(headers, server, true, default_public_key) is Some,
        server is Some && server->0.config.address@.len() > 0 ==> refusal(headers, server, false, default_public_key)
            is Some,
        server is Some && !server->0.config.enabled ==> refusal(headers, server, false, default_public_key) is Some,
{
}

/// Limits a periphery to one active connection: `free` tells whether there is
/// none. Gives how its session runs, or the HTTP status of the refusal.
pub fn handle_server_connection(free: bool) -> (r: Result<SessionKind, u16>)
    ensures
        r == (if free {
            Ok::<SessionKind, u16>(SessionKind::Periphery)
        } else {
            Err::<SessionKind, u16>(403)
        }),
{
    if !free {
        return Err(403);
    }
    Ok(SessionKind::Periphery)
}

/// Why a login with credentials failed.
#[derive(Debug, Clone, Copy, PartialEq, Eq, Structural)]
pub enum CredentialsError {
    /// Failed to receive login credentials.
    Receive,
    /// Stream broken before login credentials received.
    Broken,
    /// Websocket close frame received during login.
    Close,
    /// The outcome could not be sent.
    Send,
    /// Received invalid credentials.
    Invalid,
}

/// How far a login with credentials is.
#[derive(Debug, Clone, Copy, PartialEq, Eq, Structural)]
pub enum CredentialsLogin {
    Receiving,
    Validating,
    Confirming,
    Refusing,
    Closing,
    Done(Option<CredentialsError>),
}

/// What happened in a login with credentials.
pub enum CredentialsEvent<CloseFrame> {
    /// A message came, or none will, or none could be received.
    Received(Result<Option<RawMessage<CloseFrame>>, ()>),
    /// Whether the credentials are valid.
    Validated(bool),
    /// The outcome was sent, or could not be.
    Sent(bool),
    /// The socket was closed.
    Closed,
}

/// What is to be done next in a login with credentials.
pub enum CredentialsAction {
    /// Receive a message.
    Receive,
    /// Validate the credentials.
    Validate(Vec<u8>),
    /// Send a message.
    Send(Vec<u8>),
    /// Close the socket.
    Close,
    /// The login is over.
    Finish,
}

/// The contents of a `CredentialsAction`.
pub enum CredentialsActionView {
    Receive,
    Validate(Seq<u8>),
    Send(Seq<u8>),
    Close,
    Finish,
}

impl View for CredentialsAction {
    type V = CredentialsActionView;

    open spec fn view(&self) -> CredentialsActionView {
        match self {
            CredentialsAction::Receive => CredentialsActionView::Receive,
            CredentialsAction::Validate(data) => CredentialsActionView::Validate(data@),
            CredentialsAction::Send(data) => CredentialsActionView::Send(data@),
            CredentialsAction::Close => CredentialsActionView::Close,
            CredentialsAction::Finish => CredentialsActionView::Finish,
        }
    }
}

impl CredentialsLogin {
    /// Whether the login waits for `event`.
    pub open spec fn expects<CloseFrame>(self, event: CredentialsEvent<CloseFrame>) -> bool {
        match self {
            CredentialsLogin::Receiving => event is Received,
            CredentialsLogin::Validating => event is Validated,
            CredentialsLogin::Confirming => event is Sent,
            CredentialsLogin::Refusing => event is Sent,
            CredentialsLogin::Closing => event is Closed,
            CredentialsLogin::Done(_) => false,
        }
    }
}

/// The end of a login with credentials.
pub open spec fn login_over(outcome: Option<CredentialsError>) -> (CredentialsLogin, CredentialsActionView) {
    (CredentialsLogin::Done(outcome), CredentialsActionView::Finish)
}

/// What becomes of a login with credentials, and what is to be done.
pub open spec fn credentials_step<CloseFrame>(login: CredentialsLogin, event: CredentialsEvent<CloseFrame>) -> (
    CredentialsLogin,
    CredentialsActionView,
) {
    match event {
        CredentialsEvent::Received(Err(())) => login_over(Some(CredentialsError::Receive)),
        CredentialsEvent::Received(Ok(None)) => login_over(Some(CredentialsError::Broken)),
        CredentialsEvent::Received(Ok(Some(message))) => match message {
            // Treat first message as credentials
            RawMessage::Text(text) => (
                CredentialsLogin::Validating,
                CredentialsActionView::Validate(vstd::utf8::encode_utf8(text@)),
            ),
            RawMessage::Binary(data) => (CredentialsLogin::Validating, CredentialsActionView::Validate(data@)),
            RawMessage::Close(_) => login_over(Some(CredentialsError::Close)),
            RawMessage::Other => (CredentialsLogin::Receiving, CredentialsActionView::Receive),
        },
        CredentialsEvent::Validated(valid) => if valid {
            (
                CredentialsLogin::Confirming,
                CredentialsActionView::Send(seq![bytes::state_byte(MessageState::Successful)]),
            )
        } else {
            (
                CredentialsLogin::Refusing,
                CredentialsActionView::Send(seq![bytes::state_byte(MessageState::Failed)]),
            )
        },
        CredentialsEvent::Sent(sent) => if !sent {
            login_over(Some(CredentialsError::Send))
        } else if login is Confirming {
            login_over(None)
        } else {
            (CredentialsLogin::Closing, CredentialsActionView::Close)
        },
        CredentialsEvent::Closed => login_over(Some(CredentialsError::Invalid)),
    }
}

/// Takes a login with credentials one step further.
pub fn handle_login<CloseFrame>(login: CredentialsLogin, event: CredentialsEvent<CloseFrame>) -> (r: (
    CredentialsLogin,
    CredentialsAction,
))
    requires
        login.expects(event),
    ensures
        (r.0, r.1@) == credentials_step(login, event),
{
    match event {
        CredentialsEvent::Received(Err(())) => (
            CredentialsLogin::Done(Some(CredentialsError::Receive)),
            CredentialsAction::Finish,
        ),
        CredentialsEvent::Received(Ok(None)) => (
            CredentialsLogin::Done(Some(CredentialsError::Broken)),
            CredentialsAction::Finish,
        ),
        CredentialsEvent::Received(Ok(Some(message))) => match message {
            RawMessage::Text(text) => (
                CredentialsLogin::Validating,
                CredentialsAction::Validate(text.as_str().as_bytes_vec()),
            ),
            RawMessage::Binary(data) => (CredentialsLogin::Validating, CredentialsAction::Validate(data)),
            RawMessage::Close(_) => (
                CredentialsLogin::Done(Some(CredentialsError::Close)),
                CredentialsAction::Finish,
            ),
            // Ignore others
            RawMessage::Other => (CredentialsLogin::Receiving, CredentialsAction::Receive),
        },
        CredentialsEvent::Validated(valid) => {
            if valid {
                (CredentialsLogin::Confirming, CredentialsAction::Send(state_to_bytes(MessageState::Successful)))
            } else {
                (CredentialsLogin::Refusing, CredentialsAction::Send(state_to_bytes(MessageState::Failed)))
            }
        },
        CredentialsEvent::Sent(sent) => {
            if !sent {
                (CredentialsLogin::Done(Some(CredentialsError::Send)), CredentialsAction::Finish)
            } else {
                match login {
                    CredentialsLogin::Confirming => (CredentialsLogin::Done(None), CredentialsAction::Finish),
                    _ => (CredentialsLogin::Closing, CredentialsAction::Close),
                }
            }
        },
        CredentialsEvent::Closed => (
            CredentialsLogin::Done(Some(CredentialsError::Invalid)),
            CredentialsAction::Finish,
        ),
    }
}

/// A login with credentials succeeds only where the credentials are valid and
/// the client was told so; a client whose credentials are not valid is told
/// that the login failed, and its socket is closed.
pub proof fn law_credentials_decide<CloseFrame>(login: CredentialsLogin, event: CredentialsEvent<CloseFrame>)
    requires
        login.expects(event),
    ensures
        credentials_step(login, event).0 == CredentialsLogin::Done(None) ==> login is Confirming,
        credentials_step(login, event).0 is Confirming ==> event == CredentialsEvent::<CloseFrame>::Validated(true),
        event == CredentialsEvent::<CloseFrame>::Validated(false) ==> credentials_step(login, event) == (
            CredentialsLogin::Refusing,
            CredentialsActionView::Send(seq![bytes::state_byte(MessageState::Failed)]),
        ),
        login is Refusing && event == CredentialsEvent::<CloseFrame>::Sent(true) ==> credentials_step(login, event)
            == (CredentialsLogin::Closing, CredentialsActionView::Close),
{
}

/// A core takes the connection of a periphery whose upgrade names a host and a
/// key, whose server is there, is enabled, has no address of its own and is not
/// connected yet, and for which a public key is expected; and it takes no other.
pub proof fn law_which_peripheries_are_taken(
    headers: Map<Seq<char>, Seq<Seq<u8>>>,
    server: Option<&Server>,
    already_connected: bool,
    default_public_key: Option<&str>,
)
    ensures
        refusal(headers, server, already_connected, default_public_key) is None <==> {
            &&& headers.contains_key("x-forwarded-host"@) || headers.contains_key("host"@)
            &&& headers.contains_key("sec-websocket-key"@)
            &&& server is Some
            &&& server->0.config.enabled
            &&& server->0.config.address@.len() == 0
            &&& !already_connected
            &&& server->0.config.public_key@.len() > 0 || default_public_key is Some
        },
{
}

/// Each refusal of a core has its own cause, of which the first counts: the
/// upgrade, the server, whether it is enabled, its address, its connection, its
/// key. Its status says whose fault it is.
pub proof fn law_refusals_have_their_cause(
    headers: Map<Seq<char>, Seq<Seq<u8>>>,
    server: Option<&Server>,
    already_connected: bool,
    default_public_key: Option<&str>,
)
    ensures
        !headers.contains_key("x-forwarded-host"@) && !headers.contains_key("host"@) ==> refusal(
            headers,
            server,
            already_connected,
            default_public_key,
        ) == Some(HandlerError::Identifiers(HeaderError::NoHost)),
        (headers.contains_key("x-forwarded-host"@) || headers.contains_key("host"@)) && !headers.contains_key(
            "sec-websocket-key"@,
        ) ==> refusal(headers, server, already_connected, default_public_key) == Some(
            HandlerError::Identifiers(HeaderError::NoKey),
        ),
        (headers.contains_key("x-forwarded-host"@) || headers.contains_key("host"@)) && headers.contains_key(
            "sec-websocket-key"@,
        ) ==> {
            let r = refusal(headers, server, already_connected, default_public_key);
            &&& server is None ==> r == Some(HandlerError::NoServer)
            &&& server matches Some(s) ==> {
                &&& !s.config.enabled ==> r == Some(HandlerError::Disabled)
                &&& s.config.enabled && s.config.address@.len() > 0 ==> r == Some(HandlerError::Outbound)
                &&& s.config.enabled && s.config.address@.len() == 0 && already_connected ==> r == Some(
                    HandlerError::AlreadyConnected,
                )
                &&& s.config.enabled && s.config.address@.len() == 0 && !already_connected
                    && s.config.public_key@.len() == 0 && default_public_key is None ==> r == Some(
                    HandlerError::NoPublicKey,
                )
            }
        },
        forall|e: HandlerError| #[trigger]
            refusal_status(e) == (if e is Identifiers || e is AlreadyConnected {
                401u16
            } else if e is NoPublicKey {
                500u16
            } else {
                400u16
            }),
{
}

/// A periphery must prove the public key of its server, or the default where the
/// server has none; and it logs in with the private key of its server, or the
/// default where the server has none. It is expected to have connected under its
/// name.
pub proof fn law_admission_takes_the_keys_of_the_server(
    headers: Map<Seq<char>, Seq<Seq<u8>>>,
    name: Seq<char>,
    server: Server,
    default_private_key: Seq<char>,
    default_public_key: Option<&str>,
    admission: Admission,
)
    requires
        is_admission(headers, name, server, default_private_key, default_public_key, admission),
    ensures
        server.config.public_key@.len() > 0 ==> admission.expected_public_key@ == server.config.public_key@,
        server.config.public_key@.len() == 0 ==> default_public_key is Some && admission.expected_public_key@
            == default_public_key->0@,
        server.config.private_key@.len() > 0 ==> admission.private_key@ == server.config.private_key@,
        server.config.private_key@.len() == 0 ==> admission.private_key@ == default_private_key,
        admission.query@ == address::server_query_text(name),
        headers.contains_key("x-forwarded-host"@) ==> admission.identifiers.host@ == headers["x-forwarded-host"@][0],
        !headers.contains_key("x-forwarded-host"@) ==> headers.contains_key("host"@) && admission.identifiers.host@
            == headers["host"@][0],
        admission.identifiers.accept@ == identifiers::accept_text(headers["sec-websocket-key"@][0]),
{
}

/// Taking the connection of a periphery puts a fresh one in the place of the one
/// that its server had, whose link is given back, and touches no other. Only a
/// connection that is connected counts as one.
pub proof fn law_taken_connection_replaces_the_old_one<L, C, E>(
    headers: Map<Seq<char>, Seq<Seq<u8>>>,
    name: Seq<char>,
    server: Server,
    default_private_key: Seq<char>,
    default_public_key: Option<&str>,
    before: Map<Seq<char>, PeripheryConnection<L, C, E>>,
    link: L,
    channels: C,
    admitted: Admitted<L>,
    after: Map<Seq<char>, PeripheryConnection<L, C, E>>,
)
    requires
        is_admitted(
            headers,
            name,
            server,
            default_private_key,
            default_public_key,
            before,
            link,
            channels,
            admitted,
            after,
        ),
    ensures
        is_admission(headers, name, server, default_private_key, default_public_key, admitted.admission),
        before.contains_key(server.id@) ==> admitted.replaced == Some(before[server.id@].link),
        !before.contains_key(server.id@) ==> admitted.replaced is None,
        after.contains_key(server.id@),
        after[server.id@].link == link,
        after[server.id@].address is None,
        !after[server.id@].connected,
        after[server.id@].channels == (if before.contains_key(server.id@) {
            before[server.id@].channels
        } else {
            channels
        }),
        after.remove(server.id@) == before.remove(server.id@),
        is_connected(before, Some(&server)) <==> before.contains_key(server.id@) && before[server.id@].connected,
        !is_connected(before, None),
{
    connections::law_started_connection_is_fresh(before, server.id@, None, link, channels);
}

/// How a login with credentials goes: the first message with data is the
/// credentials, as they came; other messages are passed over; the end of the
/// socket, a close frame and a failure end the login.
pub proof fn law_first_message_holds_the_credentials<CloseFrame>(
    login: CredentialsLogin,
    text: String,
    data: Vec<u8>,
    frame: Option<CloseFrame>,
)
    ensures
        credentials_step(login, CredentialsEvent::<CloseFrame>::Received(Ok(Some(RawMessage::Text(text))))) == (
            CredentialsLogin::Validating,
            CredentialsActionView::Validate(vstd::utf8::encode_utf8(text@)),
        ),
        credentials_step(login, CredentialsEvent::<CloseFrame>::Received(Ok(Some(RawMessage::Binary(data))))) == (
            CredentialsLogin::Validating,
            CredentialsActionView::Validate(data@),
        ),
        credentials_step(login, CredentialsEvent::<CloseFrame>::Received(Ok(Some(RawMessage::Other)))) == (
            CredentialsLogin::Receiving,
            CredentialsActionView::Receive,
        ),
        credentials_step(login, CredentialsEvent::Received(Ok(Some(RawMessage::Close(frame))))).0
            == CredentialsLogin::Done(Some(CredentialsError::Close)),
        credentials_step(login, CredentialsEvent::<CloseFrame>::Received(Ok(None))).0 == CredentialsLogin::Done(
            Some(CredentialsError::Broken),
        ),
        credentials_step(login, CredentialsEvent::<CloseFrame>::Received(Err(()))).0 == CredentialsLogin::Done(
            Some(CredentialsError::Receive),
        ),
        credentials_step(login, CredentialsEvent::<CloseFrame>::Validated(true)) == (
            CredentialsLogin::Confirming,
            CredentialsActionView::Send(seq![2u8]),
        ),
        credentials_step(login, CredentialsEvent::<CloseFrame>::Validated(false)) == (
            CredentialsLogin::Refusing,
            CredentialsActionView::Send(seq![3u8]),
        ),
        credentials_step(CredentialsLogin::Confirming, CredentialsEvent::<CloseFrame>::Sent(true)).0
            == CredentialsLogin::Done(None),
        credentials_step(login, CredentialsEvent::<CloseFrame>::Sent(false)).0 == CredentialsLogin::Done(
            Some(CredentialsError::Send),
        ),
        credentials_step(login, CredentialsEvent::<CloseFrame>::Closed).0 == CredentialsLogin::Done(
            Some(CredentialsError::Invalid),
        ),
{
}

/// The contents of an action tell what it is, and hold all of it.
pub proof fn law_contents_of_an_action(action: CredentialsAction)
    ensures
        action is Receive <==> action@ is Receive,
        action is Validate <==> action@ is Validate,
        action is Validate ==> action@->Validate_0 == action->Validate_0@,
        action is Send <==> action@ is Send,
        action is Send ==> action@->Send_0 == action->Send_0@,
        action is Close <==> action@ is Close,
        action is Finish <==> action@ is Finish,
{
}

} // verus!
