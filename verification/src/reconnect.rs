//! The loops that keep connections up.

use vstd::prelude::*;
use crate::address;
use crate::address::address_host;
use crate::address::AddressError;
use crate::connections;
use crate::connections::PeripheryConnection;
use crate::connections::PeripheryConnections;
use crate::manage::expected_public_key_for;
use crate::manage::private_key_for;
use crate::text;

verus! {

/// How many seconds pass before a connection is tried again.
pub const RETRY_SECONDS: u64 = 5;

/// What happened in a loop that keeps a connection up. `E` is an error.
pub enum LoopEvent<E> {
    /// The loop starts.
    Start,
    /// The connection was cancelled while it was tried.
    Cancelled,
    /// The connection could not be made.
    ConnectFailed(E),
    /// The connection was made.
    Connected,
    /// The websocket was handled, up to the end of its session.
    Handled,
    /// The websocket could not be handled: the login failed.
    HandleFailed(E),
    /// The pause is over.
    Slept,
}

/// What is to be done next in a loop that keeps a connection up.
#[derive(Debug, Clone, Copy, PartialEq, Eq, Structural)]
pub enum LoopAction {
    /// Make the connection.
    Connect,
    /// Pause.
    Sleep { seconds: u64 },
    /// Handle the websocket.
    Handle,
    /// The loop is over.
    Stop,
}

/// The state of a connection of a client that reconnects. `E` is an error.
pub struct ClientConnection<E> {
    pub connected: bool,
    pub error: Option<E>,
    pub cancelled: bool,
}

impl<E> ClientConnection<E> {
    pub fn new() -> (r: ClientConnection<E>)
        ensures
            r == (ClientConnection::<E> { connected: false, error: None, cancelled: false }),
    {
        ClientConnection { connected: false, error: None, cancelled: false }
    }

    pub fn connected(&self) -> (r: bool)
        ensures
            r == self.connected,
    {
        self.connected
    }

    pub fn set_connected(&mut self, connected: bool)
        ensures
            *final(self) == (ClientConnection { connected, ..*old(self) }),
    {
        self.connected = connected;
    }

    pub fn error(&self) -> (r: &Option<E>)
        ensures
            *r == self.error,
    {
        &self.error
    }

    pub fn set_error(&mut self, e: E)
        ensures
            *final(self) == (ClientConnection { error: Some(e), ..*old(self) }),
    {
        self.error = Some(e);
    }

    pub fn clear_error(&mut self)
        ensures
            *final(self) == (ClientConnection { error: None, ..*old(self) }),
    {
        self.error = None;
    }

    pub fn cancel(&mut self)
        ensures
            *final(self) == (ClientConnection { cancelled: true, ..*old(self) }),
    {
        self.cancelled = true;
    }
}

/// What becomes of the connection of a client that needs no login, and what is
/// to be done.
pub open spec fn reconnecting_step<E>(connection: ClientConnection<E>, event: LoopEvent<E>) -> (
    ClientConnection<E>,
    LoopAction,
) {
    match event {
        LoopEvent::ConnectFailed(e) => (
            ClientConnection { error: Some(e), ..connection },
            LoopAction::Sleep { seconds: RETRY_SECONDS },
        ),
        LoopEvent::Connected => (
            ClientConnection { connected: true, error: None, ..connection },
            LoopAction::Handle,
        ),
        LoopEvent::Handled => (
            ClientConnection { connected: false, cancelled: true, ..connection },
            LoopAction::Connect,
        ),
        _ => (connection, LoopAction::Connect),
    }
}

/// Keeps up the connection of a client that needs no login. The loop never
/// stops, though the end of a session cancels the connection: later sessions
/// then find it cancelled.
pub fn handle_reconnecting_websocket<E>(connection: &mut ClientConnection<E>, event: LoopEvent<E>) -> (r: LoopAction)
    requires
        !(event is Cancelled),
        !(event is HandleFailed),
    ensures
        (*final(connection), r) == reconnecting_step(*old(connection), event),
{
    match event {
        LoopEvent::ConnectFailed(e) => {
            connection.set_error(e);
            LoopAction::Sleep { seconds: RETRY_SECONDS }
        },
        LoopEvent::Connected => {
            connection.set_connected(true);
            connection.clear_error();
            LoopAction::Handle
        },
        LoopEvent::Handled => {
            connection.cancel();
            connection.set_connected(false);
            LoopAction::Connect
        },
        _ => LoopAction::Connect,
    }
}

/// The end of a session leaves the connection of a client that needs no login
/// cancelled and not connected, and nothing that happens later takes the
/// cancelling back.
pub proof fn law_session_end_cancels_the_client<E>(connection: ClientConnection<E>, event: LoopEvent<E>)
    ensures
        reconnecting_step(connection, LoopEvent::Handled).0.cancelled,
        !reconnecting_step(connection, LoopEvent::Handled).0.connected,
        connection.cancelled ==> reconnecting_step(connection, event).0.cancelled,
{
}

/// What the loop of a connection of a core to a periphery starts with.
pub struct Started<L> {
    /// The host of the address.
    pub host: Vec<u8>,
    /// The link of the connection that was replaced, which is to be cancelled.
    pub replaced: Option<L>,
    /// The private key of the core.
    pub private_key: String,
    /// The public key that the periphery must prove. If None, ignore public key.
    pub expected_public_key: Option<String>,
}

/// Whether `started` is what the loop of the connection of `server_id` to
/// `address` starts with, among `connections`.
pub open spec fn is_started<L, C, E>(
    connections: Map<Seq<char>, PeripheryConnection<L, C, E>>,
    server_id: Seq<char>,
    address: Seq<char>,
    private_key: Seq<char>,
    expected_public_key: Option<Seq<char>>,
    default_private_key: Seq<char>,
    default_public_key: Option<Seq<char>>,
    started: Started<L>,
) -> bool {
    &&& address::host_result(address, Ok(started.host))
    &&& started.replaced == (if connections.contains_key(server_id) {
        Some(connections[server_id].link)
    } else {
        None
    })
    &&& started.private_key@ == (if private_key.len() == 0 {
        default_private_key
    } else {
        private_key
    })
    &&& text::optional_view(started.expected_public_key) == (if expected_public_key is Some {
        expected_public_key
    } else {
        default_public_key
    })
}

/// Starts the connection of a core to the periphery at `address`, which must be
/// a websocket address. It takes the place of the connection that the server
/// has. Where the address has no host, nothing changes.
pub fn start_client_connection<L, C, E>(
    connections: &mut PeripheryConnections<L, C, E>,
    server_id: String,
    address: String,
    private_key: &str,
    expected_public_key: Option<&str>,
    default_private_key: &str,
    default_public_key: Option<&str>,
    link: L,
    channels: C,
) -> (r: Result<Started<L>, AddressError>)
    requires
        old(connections).wf(),
    ensures
        final(connections).wf(),
        r is Ok <==> address::has_host(address@),
        match r {
            Err(e) => address::host_result(address@, Err(e)) && final(connections)@ == old(connections)@,
            Ok(started) => is_started(
                old(connections)@,
                server_id@,
                address@,
                private_key@,
                text::optional_text(expected_public_key),
                default_private_key@,
                text::optional_text(default_public_key),
                started,
            ) && final(connections)@ == connections::inserted(
                old(connections)@,
                server_id@,
                Some(address),
                link,
                channels,
            ),
        },
{
    let host: Vec<u8> = match address_host(address.as_str()) {
        Ok(host) => host,
        Err(e) => return Err(e),
    };
    let replaced: Option<L> = connections.insert(server_id, Some(address), link, channels);
    let private_key: String = private_key_for(private_key, default_private_key).to_owned();
    let expected_public_key: Option<String> = match expected_public_key_for(expected_public_key, default_public_key) {
        Some(key) => Some(key.to_owned()),
        None => None,
    };
    Ok(Started { host, replaced, private_key, expected_public_key })
}

/// What becomes of the connection of a core to a periphery, and what is to be
/// done to keep it up.
pub open spec fn client_step<L, C, E>(connection: PeripheryConnection<L, C, E>, event: LoopEvent<E>) -> (
    PeripheryConnection<L, C, E>,
    LoopAction,
) {
    match event {
        LoopEvent::Start => (connection, LoopAction::Connect),
        LoopEvent::Cancelled => (connection, LoopAction::Stop),
        LoopEvent::ConnectFailed(e) => (
            PeripheryConnection { error: Some(e), ..connection },
            LoopAction::Sleep { seconds: RETRY_SECONDS },
        ),
        LoopEvent::Connected => (connection, LoopAction::Handle),
        LoopEvent::Handled => (connection, LoopAction::Connect),
        LoopEvent::HandleFailed(e) => if connection.cancelled {
            (connection, LoopAction::Stop)
        } else {
            (
                PeripheryConnection { error: Some(e), ..connection },
                LoopAction::Sleep { seconds: RETRY_SECONDS },
            )
        },
        LoopEvent::Slept => (connection, LoopAction::Connect),
    }
}

/// Keeps up the connection of a core to a periphery, once it was started with
/// `start_client_connection`, until it is cancelled.
pub fn spawn_client_connection<L, C, E>(connection: &mut PeripheryConnection<L, C, E>, event: LoopEvent<E>) -> (r:
    LoopAction)
    ensures
        (*final(connection), r) == client_step(*old(connection), event),
{
    match event {
        LoopEvent::Start => LoopAction::Connect,
        LoopEvent::Cancelled => LoopAction::Stop,
        LoopEvent::ConnectFailed(e) => {
            connection.set_error(e);
            LoopAction::Sleep { seconds: RETRY_SECONDS }
        },
        LoopEvent::Connected => LoopAction::Handle,
        LoopEvent::Handled => LoopAction::Connect,
        LoopEvent::HandleFailed(e) => {
            if connection.cancelled {
                return LoopAction::Stop;
            }
            connection.set_error(e);
            LoopAction::Sleep { seconds: RETRY_SECONDS }
        },
        LoopEvent::Slept => LoopAction::Connect,
    }
}

/// The loop that keeps up the connection of a core to a periphery stops when
/// the connection was cancelled, and for no other reason.
pub proof fn law_only_cancelling_stops_the_loop<L, C, E>(
    connection: PeripheryConnection<L, C, E>,
    event: LoopEvent<E>,
)
    ensures
        client_step(connection, event).1 == LoopAction::Stop <==> event is Cancelled || event is HandleFailed
            && connection.cancelled,
{
}

/// A failure of the connection of a core to a periphery is stored as its error
/// before the pause, unless the connection was cancelled; nothing else about
/// the connection changes.
pub proof fn law_failures_are_stored<L, C, E>(connection: PeripheryConnection<L, C, E>, event: LoopEvent<E>, e: E)
    requires
        event == LoopEvent::ConnectFailed(e) || event == LoopEvent::HandleFailed(e) && !connection.cancelled,
    ensures
        client_step(connection, event) == (
            PeripheryConnection { error: Some(e), ..connection },
            LoopAction::Sleep { seconds: RETRY_SECONDS },
        ),
{
}

/// Tries a connection again and again until it cannot be made.
pub fn spawn_connection(connected: bool) -> (r: LoopAction)
    ensures
        r == (if connected {
            LoopAction::Connect
        } else {
            LoopAction::Stop
        }),
{
    if connected {
        LoopAction::Connect
    } else {
        LoopAction::Stop
    }
}

/// What a periphery that connects to its core has logged already.
#[derive(Debug, Clone, Copy, PartialEq, Eq, Structural)]
pub struct OutboundLoop {
    pub already_logged_connection_error: bool,
    pub already_logged_login_error: bool,
}

/// What happened in the loop of a periphery that connects to its core.
#[derive(Debug, Clone, Copy, PartialEq, Eq, Structural)]
pub enum OutboundEvent {
    /// The connection could not be made.
    ConnectFailed,
    /// The connection was made.
    Connected,
    /// The login succeeded.
    LoggedIn,
    /// The login failed.
    LoginFailed,
    /// The session is over.
    SessionOver,
    /// The pause is over.
    Slept,
}

/// What is to be done next in the loop of a periphery that connects to its core.
#[derive(Debug, Clone, Copy, PartialEq, Eq, Structural)]
pub enum OutboundAction {
    /// Make the connection.
    Connect,
    /// Log the error where `log` says so, then pause.
    Sleep { log: bool, seconds: u64 },
    /// Log the connection where `log` says so, then log in.
    Login { log: bool },
    /// Run a session.
    RunSession,
}

/// What becomes of the loop, and what is to be done.
pub open spec fn outbound_step(state: OutboundLoop, event: OutboundEvent) -> (OutboundLoop, OutboundAction) {
    match event {
        OutboundEvent::ConnectFailed => (
            OutboundLoop {
                already_logged_connection_error: true,
                already_logged_login_error: state.already_logged_login_error
                    && state.already_logged_connection_error,
            },
            OutboundAction::Sleep { log: !state.already_logged_connection_error, seconds: RETRY_SECONDS },
        ),
        OutboundEvent::Connected => (
            OutboundLoop { already_logged_connection_error: false, ..state },
            OutboundAction::Login { log: !state.already_logged_login_error },
        ),
        OutboundEvent::LoggedIn => (
            OutboundLoop { already_logged_login_error: false, ..state },
            OutboundAction::RunSession,
        ),
        OutboundEvent::LoginFailed => (
            OutboundLoop { already_logged_login_error: true, ..state },
            OutboundAction::Sleep { log: !state.already_logged_login_error, seconds: RETRY_SECONDS },
        ),
        OutboundEvent::SessionOver => (state, OutboundAction::Connect),
        OutboundEvent::Slept => (state, OutboundAction::Connect),
    }
}

impl OutboundLoop {
    pub fn new() -> (r: OutboundLoop)
        ensures
            r == (OutboundLoop { already_logged_connection_error: false, already_logged_login_error: false }),
    {
        OutboundLoop { already_logged_connection_error: false, already_logged_login_error: false }
    }

    /// Keeps up the connection of a periphery to its core.
    pub fn handler(&mut self, event: OutboundEvent) -> (r: OutboundAction)
        ensures
            (*final(self), r) == outbound_step(*old(self), event),
    {
        match event {
            OutboundEvent::ConnectFailed => {
                let log: bool = !self.already_logged_connection_error;
                if log {
                    self.already_logged_connection_error = true;
                    // If error transitions from login to connection,
                    // set to false to see login error after reconnect.
                    self.already_logged_login_error = false;
                }
                OutboundAction::Sleep { log, seconds: RETRY_SECONDS }
            },
            OutboundEvent::Connected => {
                self.already_logged_connection_error = false;
                OutboundAction::Login { log: !self.already_logged_login_error }
            },
            OutboundEvent::LoggedIn => {
                self.already_logged_login_error = false;
                OutboundAction::RunSession
            },
            OutboundEvent::LoginFailed => {
                let log: bool = !self.already_logged_login_error;
                self.already_logged_login_error = true;
                OutboundAction::Sleep { log, seconds: RETRY_SECONDS }
            },
            OutboundEvent::SessionOver => OutboundAction::Connect,
            OutboundEvent::Slept => OutboundAction::Connect,
        }
    }
}

/// An error is logged once: a second failure of the same sort in a row is not
/// logged again, and a failed login is logged again after the connection failed.
pub proof fn law_errors_are_logged_once(state: OutboundLoop)
    ensures
        outbound_step(
            outbound_step(state, OutboundEvent::ConnectFailed).0,
            OutboundEvent::ConnectFailed,
        ).1 == (OutboundAction::Sleep { log: false, seconds: RETRY_SECONDS }),
        outbound_step(
            outbound_step(outbound_step(state, OutboundEvent::LoginFailed).0, OutboundEvent::Connected).0,
            OutboundEvent::LoginFailed,
        ).1 == (OutboundAction::Sleep { log: false, seconds: RETRY_SECONDS }),
        !state.already_logged_connection_error ==> outbound_step(
            outbound_step(outbound_step(state, OutboundEvent::ConnectFailed).0, OutboundEvent::Connected).0,
            OutboundEvent::LoginFailed,
        ).1 == (OutboundAction::Sleep { log: true, seconds: RETRY_SECONDS }),
{
}

/// What the loop of a connection starts with: the host of the address, the link
/// of the connection that the server had, the private key of the server or else
/// the default, and the public key of the server or else the default.
pub proof fn law_start_takes_the_keys_of_the_server<L, C, E>(
    connections: Map<Seq<char>, PeripheryConnection<L, C, E>>,
    server_id: Seq<char>,
    address: Seq<char>,
    private_key: Seq<char>,
    expected_public_key: Option<Seq<char>>,
    default_private_key: Seq<char>,
    default_public_key: Option<Seq<char>>,
    started: Started<L>,
)
    requires
        is_started(
            connections,
            server_id,
            address,
            private_key,
            expected_public_key,
            default_private_key,
            default_public_key,
            started,
        ),
    ensures
        private_key.len() > 0 ==> started.private_key@ == private_key,
        private_key.len() == 0 ==> started.private_key@ == default_private_key,
        expected_public_key matches Some(key) ==> started.expected_public_key is Some
            && started.expected_public_key->0@ == key,
        expected_public_key is None && default_public_key is None ==> started.expected_public_key is None,
        expected_public_key is None ==> (default_public_key matches Some(key) ==> started.expected_public_key is Some
            && started.expected_public_key->0@ == key),
        connections.contains_key(server_id) ==> started.replaced == Some(connections[server_id].link),
        !connections.contains_key(server_id) ==> started.replaced is None,
        address::parsed_url(address) is Some && address::url_host_text(address::parsed_url(address)->0) is Some
            && started.host@ == vstd::utf8::encode_utf8(address::url_host_text(address::parsed_url(address)->0)->0),
{
}

/// The loop of a connection of a core tries to connect again after every pause
/// and every session, handles what it connected, and changes nothing of the
/// connection but its error.
pub proof fn law_core_loop_goes_on<L, C, E>(connection: PeripheryConnection<L, C, E>, event: LoopEvent<E>)
    ensures
        client_step(connection, LoopEvent::Start).1 == LoopAction::Connect,
        client_step(connection, LoopEvent::Slept).1 == LoopAction::Connect,
        client_step(connection, LoopEvent::Handled).1 == LoopAction::Connect,
        client_step(connection, LoopEvent::Connected).1 == LoopAction::Handle,
        client_step(connection, LoopEvent::Cancelled).1 == LoopAction::Stop,
        client_step(connection, event).0 == (PeripheryConnection {
            error: client_step(connection, event).0.error,
            ..connection
        }),
        client_step(connection, event).0.error == connection.error || event is ConnectFailed || event is HandleFailed,
        client_step(connection, event).1 matches LoopAction::Sleep { seconds } ==> seconds == 5,
{
}

/// The loop of a client that needs no login never stops: it pauses after a
/// connection that could not be made, whose error it stores; it handles one that
/// was made, which is then connected and has no error; and it connects again
/// after a session.
pub proof fn law_client_loop_never_stops<E>(connection: ClientConnection<E>, event: LoopEvent<E>, e: E)
    ensures
        reconnecting_step(connection, event).1 != LoopAction::Stop,
        reconnecting_step(connection, LoopEvent::ConnectFailed(e)) == (
            ClientConnection { connected: connection.connected, error: Some(e), cancelled: connection.cancelled },
            (LoopAction::Sleep { seconds: 5 }),
        ),
        reconnecting_step(connection, LoopEvent::Connected) == (
            ClientConnection::<E> { connected: true, error: None, cancelled: connection.cancelled },
            LoopAction::Handle,
        ),
        reconnecting_step(connection, LoopEvent::Handled).1 == LoopAction::Connect,
        reconnecting_step(connection, LoopEvent::Handled).0.error == connection.error,
        reconnecting_step(connection, LoopEvent::Start) == (connection, LoopAction::Connect),
        reconnecting_step(connection, LoopEvent::Slept) == (connection, LoopAction::Connect),
{
}

/// The loop of a periphery never stops: it pauses five seconds after a
/// connection or a login that failed, and connects again after every pause and
/// every session; it logs in on each connection, and runs a session after each
/// login. The first failure of a sort is logged; a login that succeeded, and for
/// connections one that was made, has later failures logged again.
pub proof fn law_periphery_loop_goes_on(state: OutboundLoop)
    ensures
        outbound_step(state, OutboundEvent::Slept) == (state, OutboundAction::Connect),
        outbound_step(state, OutboundEvent::SessionOver) == (state, OutboundAction::Connect),
        outbound_step(state, OutboundEvent::LoggedIn).1 == OutboundAction::RunSession,
        outbound_step(state, OutboundEvent::Connected).1 == (OutboundAction::Login {
            log: !state.already_logged_login_error,
        }),
        outbound_step(state, OutboundEvent::ConnectFailed).1 == (OutboundAction::Sleep {
            log: !state.already_logged_connection_error,
            seconds: 5,
        }),
        outbound_step(state, OutboundEvent::LoginFailed).1 == (OutboundAction::Sleep {
            log: !state.already_logged_login_error,
            seconds: 5,
        }),
        outbound_step(outbound_step(state, OutboundEvent::LoggedIn).0, OutboundEvent::LoginFailed).1 == (
        OutboundAction::Sleep { log: true, seconds: 5 }),
        outbound_step(outbound_step(state, OutboundEvent::Connected).0, OutboundEvent::ConnectFailed).1 == (
        OutboundAction::Sleep { log: true, seconds: 5 }),
        outbound_step(outbound_step(state, OutboundEvent::ConnectFailed).0, OutboundEvent::LoginFailed).1 == (
        OutboundAction::Sleep {
            log: !(state.already_logged_connection_error && state.already_logged_login_error),
            seconds: 5,
        }),
        outbound_step(state, OutboundEvent::LoginFailed).0.already_logged_connection_error
            == state.already_logged_connection_error,
        outbound_step(state, OutboundEvent::LoggedIn).0.already_logged_connection_error
            == state.already_logged_connection_error,
        outbound_step(state, OutboundEvent::Connected).0.already_logged_login_error
            == state.already_logged_login_error,
{
}

} // verus!
