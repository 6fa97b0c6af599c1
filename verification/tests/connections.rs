use axum::http::{HeaderMap, HeaderValue};
use transport::address::AddressError;
use transport::auth::{LoginAction, LoginError, LoginEvent, ServerLoginFlow};
use transport::bytes::{to_transport_bytes, MessageState};
use transport::channel::BufferedReceiver;
use transport::connections::{
    client_address, AnyPublicKeyValidator, ClientError, ConnectedPoll, PeripheryConnection, PeripheryConnections,
};
use transport::handlers::{
    client_handler, handle_login, handle_server_connection, handler, CredentialsAction, CredentialsError,
    CredentialsEvent, CredentialsLogin, HandlerError,
};
use transport::identifiers::{ConnectionIdentifiers, HeaderError};
use transport::manage::{
    expected_public_key_for, manage_client_connections, manage_outbound_connections, optional_string, private_key_for,
    Server, ServerConfig,
};
use transport::reconnect::{
    handle_reconnecting_websocket, spawn_client_connection, spawn_connection, start_client_connection,
    ClientConnection, LoopAction, LoopEvent, OutboundAction, OutboundEvent, OutboundLoop,
};
use transport::request::{
    RequestAction, RequestError, RequestEvent, RequestKind, RequestResult, RequestState, RESPONSE_CHANNEL_LEN,
    RESPONSE_TIMEOUT_SECONDS,
};
use transport::session::{CancelScope, Session, SessionAction, SessionError, SessionEvent, SessionKind};
use transport::startup::{connection_mode, ConnectionMode, MissingConnectAs};
use transport::text_map::TextMap;
use transport::websocket::{recv_bytes, try_next, RawMessage, RecvError, WebsocketMessage};
use transport::websocket_handler::{update_connection, HandlerAction, HandlerEvent, WebsocketHandler};
use uuid::Uuid;

#[test]
fn websocket_messages_are_flattened() {
    assert!(matches!(
        try_next::<u8>(Some(RawMessage::Binary(vec![1]))),
        Some(WebsocketMessage::Binary(b)) if b == vec![1]
    ));
    assert!(matches!(
        try_next::<u8>(Some(RawMessage::Text("é".to_string()))),
        Some(WebsocketMessage::Binary(b)) if b == "é".as_bytes()
    ));
    assert!(matches!(try_next(Some(RawMessage::Close(Some(4u8)))), Some(WebsocketMessage::Close(Some(4)))));
    assert!(matches!(try_next::<u8>(None), Some(WebsocketMessage::Closed)));
    assert!(try_next::<u8>(Some(RawMessage::Other)).is_none());
}

#[test]
fn only_binary_messages_give_bytes() {
    assert!(matches!(recv_bytes::<u8, u8>(Ok(WebsocketMessage::Binary(vec![1]))), Ok(b) if b == vec![1]));
    assert!(matches!(
        recv_bytes::<u8, u8>(Ok(WebsocketMessage::Close(Some(3)))),
        Err(RecvError::Close(Some(3)))
    ));
    assert!(matches!(recv_bytes::<u8, u8>(Ok(WebsocketMessage::Closed)), Err(RecvError::Closed)));
    assert!(matches!(recv_bytes::<u8, u8>(Err(9)), Err(RecvError::Failed(9))));
}

#[test]
fn sessions_send_again_what_was_not_sent() {
    let policy = SessionKind::Core.policy();
    let mut receiver = BufferedReceiver::new();
    let session = Session::new(&policy);
    let (session, action) = policy.handle(session, &mut receiver, SessionEvent::Next(Some(vec![1])));
    assert!(matches!(action, SessionAction::Send(m) if m == vec![1]));
    let (session, action) = policy.handle(session, &mut receiver, SessionEvent::Sent(true));
    assert!(matches!(action, SessionAction::Receive));
    assert!(receiver.is_empty());
    let (session, _) = policy.handle(session, &mut receiver, SessionEvent::Next(Some(vec![2])));
    let (session, action) = policy.handle(session, &mut receiver, SessionEvent::Sent(false));
    assert!(matches!(
        action,
        SessionAction::Stop { store: Some(SessionError::Websocket), close: true, cancel: Some(CancelScope::Session), over: false }
    ));
    let (session, action) = policy.handle(session, &mut receiver, SessionEvent::ReadCancelled);
    assert!(matches!(
        action,
        SessionAction::Stop { store: None, close: false, cancel: Some(CancelScope::Session), over: true }
    ));
    assert!(session.over);
    // The next session starts with the message.
    assert!(!receiver.is_empty());
    let session = Session::new(&policy);
    let (_, action) = policy.handle(session, &mut receiver, SessionEvent::Next(None));
    assert!(matches!(action, SessionAction::Send(m) if m == vec![2]));
}

fn read(kind: SessionKind, event: SessionEvent) -> SessionAction {
    let policy = kind.policy();
    policy.handle(Session::new(&policy), &mut BufferedReceiver::new(), event).1
}

#[test]
fn ends_of_sessions() {
    assert!(matches!(
        read(SessionKind::Core, SessionEvent::Close),
        SessionAction::Stop {
            store: Some(SessionError::ConnectionClosed),
            close: false,
            cancel: Some(CancelScope::Session),
            over: false
        }
    ));
    assert!(matches!(
        read(SessionKind::Core, SessionEvent::Closed),
        SessionAction::Stop { store: Some(SessionError::ConnectionClosed), .. }
    ));
    assert!(matches!(
        read(SessionKind::Core, SessionEvent::ReadFailed),
        SessionAction::Read { store: Some(SessionError::Websocket) }
    ));
    assert!(matches!(
        read(SessionKind::PeripheryClient, SessionEvent::Closed),
        SessionAction::Read { store: None }
    ));
    assert!(matches!(
        read(SessionKind::PeripheryClient, SessionEvent::ReadFailed),
        SessionAction::Stop { store: None, close: false, cancel: Some(CancelScope::Connection), over: false }
    ));
    assert!(matches!(
        read(SessionKind::ReconnectingClient, SessionEvent::Closed),
        SessionAction::Stop { store: None, close: false, cancel: Some(CancelScope::Connection), over: false }
    ));
    assert!(matches!(
        read(SessionKind::ReconnectingClient, SessionEvent::Ignored),
        SessionAction::Read { store: None }
    ));
    assert!(matches!(
        read(SessionKind::Periphery, SessionEvent::Close),
        SessionAction::Stop { store: None, close: false, cancel: None, over: true }
    ));
    assert!(matches!(
        read(SessionKind::Periphery, SessionEvent::Next(None)),
        SessionAction::Stop { store: None, close: false, cancel: None, over: true }
    ));
    assert!(matches!(
        read(SessionKind::ReconnectingClient, SessionEvent::Next(None)),
        SessionAction::Stop { store: None, close: true, cancel: Some(CancelScope::Connection), over: false }
    ));
    assert!(matches!(
        read(SessionKind::Core, SessionEvent::WriteCancelled),
        SessionAction::Stop { store: None, close: true, cancel: Some(CancelScope::Session), over: false }
    ));
    assert!(matches!(
        read(SessionKind::Periphery, SessionEvent::Binary(vec![5])),
        SessionAction::Deliver(m) if m == vec![5]
    ));
}

#[test]
fn websocket_handler_logs_in_first() {
    let policy = SessionKind::Core.policy();
    let ids = ConnectionIdentifiers { host: b"h", query: b"q", accept: b"a" };
    let mut receiver = BufferedReceiver::new();
    let key = "BwcHBwcHBwcHBwcHBwcHBwcHBwcHBwcHBwcHBwcHBwc=";
    let handler: WebsocketHandler<ServerLoginFlow> = WebsocketHandler::new();
    let (handler, action) = handler.handle(
        &policy,
        &ids,
        key,
        &AnyPublicKeyValidator,
        &mut receiver,
        HandlerEvent::Login(LoginEvent::Start),
    );
    assert!(matches!(action, HandlerAction::Login(LoginAction::Send(nonce)) if nonce.len() == 32));
    let (handler, _) = handler.handle(
        &policy,
        &ids,
        key,
        &AnyPublicKeyValidator,
        &mut receiver,
        HandlerEvent::Login(LoginEvent::Sent(false)),
    );
    let (handler, action) = handler.handle(
        &policy,
        &ids,
        key,
        &AnyPublicKeyValidator,
        &mut receiver,
        HandlerEvent::Login(LoginEvent::Sent(true)),
    );
    assert!(matches!(action, HandlerAction::Fail(_)));
    assert!(matches!(handler, WebsocketHandler::Done(Some(_))));
    let handler: WebsocketHandler<ServerLoginFlow> = WebsocketHandler::Running(Session::new(&policy));
    let (handler, _) = handler.handle(
        &policy,
        &ids,
        key,
        &AnyPublicKeyValidator,
        &mut receiver,
        HandlerEvent::Session(SessionEvent::Close),
    );
    let (handler, action) = handler.handle(
        &policy,
        &ids,
        key,
        &AnyPublicKeyValidator,
        &mut receiver,
        HandlerEvent::Session(SessionEvent::WriteCancelled),
    );
    assert!(matches!(action, HandlerAction::Session(SessionAction::Stop { over: true, .. })));
    assert!(matches!(handler, WebsocketHandler::Done(None)));
}

/// The state of a connection after a session in which the websocket was closed.
fn connection_after_a_session(kind: SessionKind) -> PeripheryConnection<(), (), &'static str> {
    let policy = kind.policy();
    let ids = ConnectionIdentifiers { host: b"h", query: b"q", accept: b"a" };
    let mut receiver = BufferedReceiver::new();
    let mut connection = PeripheryConnection::new(None, (), ());
    connection.set_error("old");
    update_connection(&mut connection, &HandlerAction::Begin, None);
    assert!(connection.connected() && connection.error().is_none());
    let mut handler: WebsocketHandler<ServerLoginFlow> = WebsocketHandler::Running(Session::new(&policy));
    for event in [SessionEvent::Close, SessionEvent::WriteCancelled] {
        let (next, action) =
            handler.handle(&policy, &ids, "", &AnyPublicKeyValidator, &mut receiver, HandlerEvent::Session(event));
        handler = next;
        update_connection(&mut connection, &action, Some("closed"));
        if matches!(action, HandlerAction::Session(SessionAction::Stop { over: true, .. })) {
            break;
        }
        assert!(connection.connected());
    }
    assert!(matches!(handler, WebsocketHandler::Done(None)));
    connection
}

#[test]
fn connections_follow_their_websocket() {
    let core = connection_after_a_session(SessionKind::Core);
    assert!(!core.connected() && !core.cancelled);
    assert_eq!(core.error(), &Some("closed"));
    for kind in [SessionKind::PeripheryClient, SessionKind::ReconnectingClient] {
        let client = connection_after_a_session(kind);
        assert!(!client.connected() && client.cancelled);
        assert_eq!(client.error(), &None);
    }
    let periphery = connection_after_a_session(SessionKind::Periphery);
    assert!(!periphery.connected() && !periphery.cancelled);

    // A read that failed is stored, and the session goes on.
    let mut connection: PeripheryConnection<(), (), &str> = PeripheryConnection::new(None, (), ());
    connection.set_connected(true);
    let action = HandlerAction::Session(read(SessionKind::Core, SessionEvent::ReadFailed));
    update_connection(&mut connection, &action, Some("broken"));
    assert_eq!(connection.error(), &Some("broken"));
    assert!(connection.connected());
    // A login that failed changes nothing.
    update_connection(&mut connection, &HandlerAction::Fail(LoginError::SendNonce), Some("login"));
    assert_eq!(connection.error(), &Some("broken"));
    assert!(connection.connected() && !connection.cancelled);
}

#[test]
fn text_maps() {
    let mut map = TextMap::new();
    assert_eq!(map.insert("a".to_string(), 1), None);
    assert_eq!(map.insert("b".to_string(), 2), None);
    assert_eq!(map.insert("a".to_string(), 3), Some(1));
    assert_eq!(map.get("a"), Some(&3));
    assert_eq!(map.get("c"), None);
    assert!(map.contains_key("b"));
    assert_eq!(map.remove("b"), Some(2));
    assert_eq!(map.remove("b"), None);
    assert_eq!(map.get_keys(), vec!["a".to_string()]);
}

#[test]
fn replaced_connections_keep_their_channels() {
    let mut connections: PeripheryConnections<&str, u32, &str> = PeripheryConnections::new();
    assert_eq!(connections.insert("one".to_string(), None, "first", 11), None);
    assert_eq!(connections.insert("two".to_string(), Some("wss://x".to_string()), "second", 22), None);
    assert_eq!(connections.insert("one".to_string(), None, "third", 33), Some("first"));
    let one = connections.get("one").unwrap();
    assert_eq!(one.link, "third");
    assert_eq!(one.channels, 11);
    assert!(!one.connected() && one.error().is_none() && !one.cancelled);
    assert_eq!(connections.get("two").unwrap().channels, 22);
    let removed = connections.remove("two").unwrap();
    assert!(removed.cancelled);
    assert!(connections.get("two").is_none());
    assert_eq!(connections.get_keys(), vec!["one".to_string()]);
    let mut one = connections.remove("one").unwrap();
    one.set_connected(true);
    assert!(connections.update("one".to_string(), one).is_none());
    assert!(connections.get("one").unwrap().connected());
}

#[test]
fn connection_state() {
    let mut connection: PeripheryConnection<(), (), &str> = PeripheryConnection::new(None, (), ());
    assert_eq!(connection.bail_if_not_connected(0), ConnectedPoll::Sleep { seconds: 1 });
    assert_eq!(connection.bail_if_not_connected(1), ConnectedPoll::Sleep { seconds: 1 });
    assert_eq!(connection.bail_if_not_connected(2), ConnectedPoll::NotConnected);
    connection.set_error("bad");
    assert_eq!(connection.error(), &Some("bad"));
    assert_eq!(connection.bail_if_not_connected(2), ConnectedPoll::StoredError);
    connection.set_connected(true);
    assert_eq!(connection.bail_if_not_connected(2), ConnectedPoll::Connected);
    connection.clear_error();
    assert_eq!(connection.error(), &None);
    connection.cancel();
    assert!(connection.cancelled);
}

#[test]
fn client_addresses() {
    assert_eq!(client_address(""), Err(ClientError::EmptyAddress));
    assert_eq!(client_address("http://a"), Ok("ws://a".to_string()));
}

fn server(id: &str, enabled: bool, address: &str) -> Server {
    Server {
        id: id.to_string(),
        name: format!("name of {id}"),
        config: ServerConfig {
            enabled,
            address: address.to_string(),
            private_key: "private".to_string(),
            public_key: "public".to_string(),
        },
    }
}

#[test]
fn connections_are_managed() {
    let servers = vec![
        server("spawned", true, "http://overridden"),
        server("inbound", true, ""),
        server("cancelled", true, ""),
        server("kept", true, "https://kept"),
        server("moved", true, "https://new"),
        server("disabled", false, "https://disabled"),
        server("spawned", true, "spawned.domain"),
        server("absent", true, ""),
    ];
    let mut connections = TextMap::new();
    connections.insert("inbound".to_string(), None);
    connections.insert("cancelled".to_string(), Some("wss://old".to_string()));
    connections.insert("kept".to_string(), Some("wss://kept".to_string()));
    connections.insert("moved".to_string(), Some("wss://old".to_string()));
    connections.insert("disabled".to_string(), Some("wss://disabled".to_string()));
    connections.insert("unknown".to_string(), None);
    let plan = manage_client_connections(&servers, &connections);
    assert_eq!(plan.remove, vec!["disabled".to_string(), "unknown".to_string()]);
    assert_eq!(plan.cancel, vec!["cancelled".to_string()]);
    let spawned: Vec<(String, String)> =
        plan.spawn.iter().map(|s| (s.server_id.clone(), s.address.clone())).collect();
    assert_eq!(
        spawned,
        vec![
            ("moved".to_string(), "wss://new".to_string()),
            ("spawned".to_string(), "wss://spawned.domain".to_string())
        ]
    );
    assert_eq!(plan.spawn[0].name, "name of moved");
    assert_eq!(plan.spawn[0].private_key, "private");
    assert_eq!(plan.spawn[0].expected_public_key, Some("public".to_string()));

    // Managing again changes nothing but what is cancelled still.
    for id in &plan.remove {
        connections.remove(id);
    }
    for spec in plan.spawn {
        connections.insert(spec.server_id, Some(spec.address));
    }
    let again = manage_client_connections(&servers, &connections);
    assert!(again.remove.is_empty());
    assert!(again.spawn.is_empty());
    assert_eq!(again.cancel, vec!["cancelled".to_string()]);
}

#[test]
fn outbound_connections_are_managed() {
    let servers = vec![server("a", false, "https://a"), server("b", true, "")];
    let mut connections = TextMap::new();
    connections.insert("b".to_string(), Some("wss://b".to_string()));
    let plan = manage_outbound_connections(&servers, &connections);
    assert_eq!(plan.remove, vec!["b".to_string()]);
    assert!(plan.cancel.is_empty());
    assert_eq!(plan.spawn.len(), 1);
    assert_eq!(plan.spawn[0].address, "wss://a");
}

#[test]
fn default_keys() {
    assert_eq!(private_key_for("", "default"), "default");
    assert_eq!(private_key_for("own", "default"), "own");
    assert_eq!(expected_public_key_for(None, Some("default")), Some("default"));
    assert_eq!(expected_public_key_for(Some("own"), Some("default")), Some("own"));
    assert_eq!(expected_public_key_for(None, None), None);
    assert_eq!(optional_string(""), None);
    assert_eq!(optional_string("x"), Some("x".to_string()));
}

#[test]
fn reconnecting_loop_of_a_client() {
    let mut connection: ClientConnection<&str> = ClientConnection::new();
    assert_eq!(handle_reconnecting_websocket(&mut connection, LoopEvent::Start), LoopAction::Connect);
    assert_eq!(
        handle_reconnecting_websocket(&mut connection, LoopEvent::ConnectFailed("refused")),
        LoopAction::Sleep { seconds: 5 }
    );
    assert_eq!(connection.error(), &Some("refused"));
    assert_eq!(handle_reconnecting_websocket(&mut connection, LoopEvent::Slept), LoopAction::Connect);
    assert_eq!(handle_reconnecting_websocket(&mut connection, LoopEvent::Connected), LoopAction::Handle);
    assert!(connection.connected() && connection.error().is_none());
    assert_eq!(handle_reconnecting_websocket(&mut connection, LoopEvent::Handled), LoopAction::Connect);
    assert!(!connection.connected() && connection.cancelled);
    handle_reconnecting_websocket(&mut connection, LoopEvent::Connected);
    assert!(connection.connected() && connection.cancelled);
}

#[test]
fn client_connections_start() {
    let mut connections: PeripheryConnections<u8, &str, &str> = PeripheryConnections::new();
    let mut start = |connections: &mut PeripheryConnections<u8, &'static str, &'static str>, address: &str, key, link| {
        let id = "s1".to_string();
        start_client_connection(connections, id, address.to_string(), key, None, "core", Some("public"), link, "fresh")
    };
    // Nothing is there that an address without a host could replace, or start.
    assert_eq!(start(&mut connections, "not a url", "", 1).err(), Some(AddressError::InvalidUrl));
    assert!(connections.get("s1").is_none());
    let started = start(&mut connections, "wss://periphery.domain:8120", "", 2).ok().unwrap();
    assert_eq!(started.host, b"periphery.domain".to_vec());
    assert_eq!(started.replaced, None);
    assert_eq!(started.private_key, "core");
    assert_eq!(started.expected_public_key, Some("public".to_string()));
    // A failed start leaves the connection that is there.
    assert_eq!(start(&mut connections, "data:text", "", 3).err(), Some(AddressError::NoHost));
    let connection = connections.get("s1").unwrap();
    assert_eq!((connection.link, connection.cancelled), (2, false));
    assert_eq!(connection.address, Some("wss://periphery.domain:8120".to_string()));
    let started = start(&mut connections, "ws://other", "own", 4).ok().unwrap();
    assert_eq!(started.replaced, Some(2));
    assert_eq!(started.private_key, "own");
    let connection = connections.get("s1").unwrap();
    assert_eq!((connection.link, connection.channels), (4, "fresh"));
    let started = start_client_connection(
        &mut connections,
        "s2".to_string(),
        "wss://a".to_string(),
        "own",
        Some("expected"),
        "core",
        None,
        5,
        "fresh",
    );
    assert_eq!(started.ok().unwrap().expected_public_key, Some("expected".to_string()));
}

#[test]
fn loop_of_a_core_connection() {
    let mut connection: PeripheryConnection<(), (), &str> = PeripheryConnection::new(None, (), ());
    let sleep = LoopAction::Sleep { seconds: 5 };
    assert_eq!(spawn_client_connection(&mut connection, LoopEvent::Start), LoopAction::Connect);
    assert_eq!(spawn_client_connection(&mut connection, LoopEvent::ConnectFailed("refused")), sleep);
    assert_eq!(connection.error(), &Some("refused"));
    assert_eq!(spawn_client_connection(&mut connection, LoopEvent::Slept), LoopAction::Connect);
    assert_eq!(spawn_client_connection(&mut connection, LoopEvent::Connected), LoopAction::Handle);
    assert_eq!(spawn_client_connection(&mut connection, LoopEvent::HandleFailed("login")), sleep);
    assert_eq!(connection.error(), &Some("login"));
    assert_eq!(spawn_client_connection(&mut connection, LoopEvent::Handled), LoopAction::Connect);
    connection.cancel();
    assert_eq!(spawn_client_connection(&mut connection, LoopEvent::HandleFailed("late")), LoopAction::Stop);
    assert_eq!(connection.error(), &Some("login"));
    assert_eq!(spawn_client_connection(&mut connection, LoopEvent::Cancelled), LoopAction::Stop);
    assert_eq!(spawn_connection(true), LoopAction::Connect);
    assert_eq!(spawn_connection(false), LoopAction::Stop);
}

#[test]
fn client_connection_state() {
    let mut connection: ClientConnection<u8> = ClientConnection::new();
    assert!(!connection.connected());
    connection.set_connected(true);
    connection.set_error(3);
    assert_eq!(connection.error(), &Some(3));
    connection.clear_error();
    connection.cancel();
    assert!(connection.connected() && connection.error().is_none() && connection.cancelled);
}

#[test]
fn outbound_errors_are_logged_once() {
    let mut outbound = OutboundLoop::new();
    let logged = OutboundAction::Sleep { log: true, seconds: 5 };
    let silent = OutboundAction::Sleep { log: false, seconds: 5 };
    assert_eq!(outbound.handler(OutboundEvent::ConnectFailed), logged);
    assert_eq!(outbound.handler(OutboundEvent::Slept), OutboundAction::Connect);
    assert_eq!(outbound.handler(OutboundEvent::ConnectFailed), silent);
    assert_eq!(outbound.handler(OutboundEvent::Connected), OutboundAction::Login { log: true });
    assert_eq!(outbound.handler(OutboundEvent::LoginFailed), logged);
    assert_eq!(outbound.handler(OutboundEvent::Connected), OutboundAction::Login { log: false });
    assert_eq!(outbound.handler(OutboundEvent::LoginFailed), silent);
    assert_eq!(outbound.handler(OutboundEvent::ConnectFailed), logged);
    assert_eq!(outbound.handler(OutboundEvent::Connected), OutboundAction::Login { log: true });
    assert_eq!(outbound.handler(OutboundEvent::LoggedIn), OutboundAction::RunSession);
    assert_eq!(outbound.handler(OutboundEvent::SessionOver), OutboundAction::Connect);
}

fn upgrade() -> HeaderMap {
    let mut headers = HeaderMap::new();
    headers.insert("host", HeaderValue::from_static("core.domain"));
    headers.insert("sec-websocket-key", HeaderValue::from_static("dGhlIHNhbXBsZSBub25jZQ=="));
    headers
}

#[test]
fn peripheries_are_admitted() {
    let mut inbound = server("one", true, "");
    let mut connections: PeripheryConnections<u8, u8, u8> = PeripheryConnections::new();
    connections.insert("one".to_string(), None, 1, 11);
    let admitted = handler(&mut upgrade(), "my one", Some(&inbound), &mut connections, "default", None, 2, 22);
    let admitted = admitted.ok().unwrap();
    assert_eq!(admitted.replaced, Some(1));
    assert_eq!(connections.get("one").map(|c| (c.link, c.channels)), Some((2, 11)));
    let admission = admitted.admission;
    assert_eq!(admission.identifiers.host, b"core.domain".to_vec());
    assert_eq!(admission.identifiers.accept, "s3pPLMBiTxaQ9kYGzzhZRbK+xOo=");
    assert_eq!(admission.query, "server=my%20one");
    assert_eq!(admission.private_key, "private");
    assert_eq!(admission.expected_public_key, "public");
    inbound.config.private_key = String::new();
    inbound.config.public_key = String::new();
    let mut client = |headers: &mut HeaderMap, key, link| {
        client_handler(headers, "one", &inbound, &mut connections, "default", key, link, 0)
    };
    assert_eq!(client(&mut upgrade(), None, 3).err(), Some(HandlerError::NoPublicKey));
    assert_eq!(
        client(&mut HeaderMap::new(), None, 4).err(),
        Some(HandlerError::Identifiers(HeaderError::NoHost))
    );
    let admitted = client(&mut upgrade(), Some("default public"), 5).ok().unwrap();
    assert_eq!(admitted.replaced, Some(2));
    assert_eq!(admitted.admission.private_key, "default");
    assert_eq!(admitted.admission.expected_public_key, "default public");
    assert_eq!(connections.get("one").map(|c| c.link), Some(5));
}

#[test]
fn peripheries_are_refused() {
    let inbound = server("one", true, "");
    let refused = |mut headers: HeaderMap, server: Option<&Server>, connected| {
        let mut connections: PeripheryConnections<u8, u8, u8> = PeripheryConnections::new();
        let mut existing = PeripheryConnection::new(None, 1, 11);
        existing.set_connected(connected);
        connections.update("one".to_string(), existing);
        let r = handler(&mut headers, "one", server, &mut connections, "default", None, 2, 22);
        // A refusal changes no connection.
        assert_eq!(connections.get("one").map(|c| (c.link, c.connected())), Some((1, connected)));
        r.err().unwrap()
    };
    assert_eq!(refused(upgrade(), None, false), HandlerError::NoServer);
    assert_eq!(refused(upgrade(), Some(&server("one", false, "")), false), HandlerError::Disabled);
    assert_eq!(refused(upgrade(), Some(&server("one", true, "https://x")), false), HandlerError::Outbound);
    assert_eq!(refused(upgrade(), Some(&inbound), true), HandlerError::AlreadyConnected);
    let mut keyless = server("one", true, "");
    keyless.config.public_key = String::new();
    assert_eq!(refused(upgrade(), Some(&keyless), false), HandlerError::NoPublicKey);
    let mut headers = upgrade();
    headers.remove("sec-websocket-key");
    assert_eq!(refused(headers, Some(&inbound), false), HandlerError::Identifiers(HeaderError::NoKey));
    assert_eq!(HandlerError::Identifiers(HeaderError::NoKey).status(), 401);
    assert_eq!(HandlerError::NoServer.status(), 400);
    assert_eq!(HandlerError::Disabled.status(), 400);
    assert_eq!(HandlerError::Outbound.status(), 400);
    assert_eq!(HandlerError::AlreadyConnected.status(), 401);
    assert_eq!(HandlerError::NoPublicKey.status(), 500);
    assert_eq!(handle_server_connection(true), Ok(SessionKind::Periphery));
    assert_eq!(handle_server_connection(false), Err(403));
}

#[test]
fn logins_with_credentials() {
    let receive = |message: Result<Option<RawMessage<u8>>, ()>| {
        handle_login(CredentialsLogin::Receiving, CredentialsEvent::Received(message))
    };
    let (login, action) = receive(Ok(Some(RawMessage::Text("pass".to_string()))));
    assert!(matches!(action, CredentialsAction::Validate(c) if c == b"pass"));
    let (accepted, action) = handle_login(login, CredentialsEvent::<u8>::Validated(true));
    assert!(matches!(action, CredentialsAction::Send(m) if m == vec![2]));
    assert_eq!(
        handle_login(accepted, CredentialsEvent::<u8>::Sent(true)).0,
        CredentialsLogin::Done(None)
    );
    let (refused, action) = handle_login(login, CredentialsEvent::<u8>::Validated(false));
    assert!(matches!(action, CredentialsAction::Send(m) if m == vec![3]));
    let (closing, action) = handle_login(refused, CredentialsEvent::<u8>::Sent(true));
    assert!(matches!(action, CredentialsAction::Close));
    assert_eq!(
        handle_login(closing, CredentialsEvent::<u8>::Closed).0,
        CredentialsLogin::Done(Some(CredentialsError::Invalid))
    );
    assert_eq!(
        handle_login(refused, CredentialsEvent::<u8>::Sent(false)).0,
        CredentialsLogin::Done(Some(CredentialsError::Send))
    );
    assert_eq!(receive(Err(())).0, CredentialsLogin::Done(Some(CredentialsError::Receive)));
    assert_eq!(receive(Ok(None)).0, CredentialsLogin::Done(Some(CredentialsError::Broken)));
    assert_eq!(
        receive(Ok(Some(RawMessage::Close(None)))).0,
        CredentialsLogin::Done(Some(CredentialsError::Close))
    );
    assert_eq!(receive(Ok(Some(RawMessage::Other))).0, CredentialsLogin::Receiving);
    assert_eq!(receive(Ok(Some(RawMessage::Binary(vec![1])))).0, CredentialsLogin::Validating);
}

fn id() -> Uuid {
    Uuid::from_u128(3)
}

#[test]
fn requests_get_their_response() {
    let kind = RequestKind::Core;
    let (state, action) = kind.request(RequestState::Start, id(), RequestEvent::Connection(true));
    assert!(matches!(action, RequestAction::Poll));
    let (state, action) = kind.request(state, id(), RequestEvent::Polled { connected: false, has_error: true });
    assert!(matches!(action, RequestAction::Sleep { seconds: 1 }));
    let (state, _) = kind.request(state, id(), RequestEvent::Slept);
    let (state, action) = kind.request(state, id(), RequestEvent::Polled { connected: true, has_error: true });
    assert!(matches!(action, RequestAction::OpenAndSerialize));
    let (state, action) = kind.request(state, id(), RequestEvent::Serialized(Some(b"{}".to_vec())));
    assert!(matches!(
        action,
        RequestAction::Send(frame) if frame == to_transport_bytes(b"{}".to_vec(), id(), MessageState::Request)
    ));
    let (state, action) = kind.request(state, id(), RequestEvent::Sent(true));
    assert!(matches!(action, RequestAction::Receive { timeout: Some(10) }));
    // Pings, frames without data and other frames are passed over.
    let ignored = [
        to_transport_bytes(vec![], id(), MessageState::InProgress),
        to_transport_bytes(vec![], id(), MessageState::Successful),
        to_transport_bytes(vec![1], id(), MessageState::InProgress),
        to_transport_bytes(vec![1], id(), MessageState::Terminal),
        vec![1],
    ];
    for frame in ignored {
        let (same, action) = kind.request(state, id(), RequestEvent::Received(Some(frame)));
        assert_eq!(same, RequestState::Waiting);
        assert!(matches!(action, RequestAction::Receive { timeout: Some(10) }));
    }
    let response = to_transport_bytes(b"ok".to_vec(), id(), MessageState::Successful);
    let (done, action) = kind.request(state, id(), RequestEvent::Received(Some(response)));
    assert_eq!(done, RequestState::Done);
    assert!(matches!(
        action,
        RequestAction::Finish { close: true, result: RequestResult::Response(data) } if data == b"ok"
    ));
    let refusal = to_transport_bytes(b"no".to_vec(), id(), MessageState::Failed);
    let (_, action) = kind.request(state, id(), RequestEvent::Received(Some(refusal)));
    assert!(matches!(
        action,
        RequestAction::Finish { close: true, result: RequestResult::Refusal(data) } if data == b"no"
    ));
    assert_eq!(RESPONSE_TIMEOUT_SECONDS, 10);
    assert_eq!(RESPONSE_CHANNEL_LEN, 1000);
}

fn fails(kind: RequestKind, state: RequestState, event: RequestEvent, closes: bool) -> RequestError {
    match kind.request(state, id(), event) {
        (RequestState::Done, RequestAction::Finish { close, result: RequestResult::Error(e) }) => {
            assert_eq!(close, closes);
            e
        }
        _ => panic!(),
    }
}

#[test]
fn requests_fail() {
    let core = RequestKind::Core;
    let client = RequestKind::Client;
    let patient = RequestKind::Patient;
    assert_eq!(
        fails(core, RequestState::Start, RequestEvent::Connection(false), false),
        RequestError::NoConnection
    );
    let polled = |has_error| RequestEvent::Polled { connected: false, has_error };
    assert_eq!(
        fails(core, RequestState::Polling { poll: 2 }, polled(true), false),
        RequestError::StoredError
    );
    assert_eq!(
        fails(client, RequestState::Polling { poll: 0 }, polled(false), false),
        RequestError::NotConnected
    );
    let (state, action) = patient.request(
        RequestState::Polling { poll: 0 },
        id(),
        RequestEvent::Polled { connected: true, has_error: false },
    );
    assert!(matches!(action, RequestAction::FindChannels));
    assert_eq!(fails(patient, state, RequestEvent::Channels(false), false), RequestError::NoChannels);
    assert!(matches!(
        patient.request(state, id(), RequestEvent::Channels(true)).1,
        RequestAction::OpenAndSerialize
    ));
    assert_eq!(
        fails(core, RequestState::Serializing, RequestEvent::Serialized(None), false),
        RequestError::Serialize
    );
    assert_eq!(fails(core, RequestState::Sending, RequestEvent::Sent(false), true), RequestError::Send);
    assert!(matches!(
        patient.request(RequestState::Sending, id(), RequestEvent::Sent(true)).1,
        RequestAction::Receive { timeout: None }
    ));
    assert_eq!(
        fails(core, RequestState::Waiting, RequestEvent::Received(None), false),
        RequestError::SenderDropped
    );
    assert_eq!(fails(core, RequestState::Waiting, RequestEvent::TimedOut, false), RequestError::TimedOut);
}

#[test]
fn connection_modes() {
    assert!(matches!(
        connection_mode(Some("host"), Some("name")),
        Ok(ConnectionMode::Outbound { core_host: "host", connect_as: "name" })
    ));
    assert!(matches!(connection_mode(None, Some("name")), Ok(ConnectionMode::Inbound)));
    assert!(matches!(connection_mode(None, None), Ok(ConnectionMode::Inbound)));
    assert!(matches!(connection_mode(Some("host"), None), Err(MissingConnectAs)));
}
