use transport::auth::{
    ClientLoginFlow, InvalidPublicKey, LoginAction, LoginError, LoginEvent, LoginFlow, PublicKeyValidator,
    ServerLoginFlow,
};
use transport::connections::{AnyPublicKeyValidator, CorePublicKeyValidator, PeripheryPublicKeyValidator};
use transport::identifiers::ConnectionIdentifiers;
use transport::keys::{handle, KeyCommand, KeyError, KeyOutputFormat, KeyReport, BASE64_PREFIX};
use transport::noise::{
    compute_public_key, private_key_fits, Base64KeyPair, ComputeKeyError, NoiseError, NoiseHandshake,
};
use transport::raw_auth::{
    handle_client_side_login, handle_server_side_login, AuthType, ClientSide, HandshakeAction, HandshakeEvent,
    ServerSide,
};

const KEY_A: &str = "AAECAwQFBgcICQoLDA0ODxAREhMUFRYXGBkaGxwdHh8=";
const PUBLIC_A: &str = "j0DFrbaPJWJK5bIU6nZ6bslNgp09e14a0bpvPiE4KF8=";
const KEY_B: &str = "BwcHBwcHBwcHBwcHBwcHBwcHBwcHBwcHBwcHBwcHBwc=";
const PUBLIC_B: &str = "E75P6uryBMf9M1j8nAByGIHRdCeBKCJ+xnTzf3/pe20=";

fn ids(accept: &'static [u8]) -> ConnectionIdentifiers<'static> {
    ConnectionIdentifiers { host: b"host", query: b"server=one", accept }
}

/// Runs a server and a client against each other, with every message delivered.
fn run<S: PublicKeyValidator, C: PublicKeyValidator>(
    server_ids: &ConnectionIdentifiers<'_>,
    client_ids: &ConnectionIdentifiers<'_>,
    server_key: &str,
    client_key: &str,
    server_validator: &S,
    client_validator: &C,
) -> (Option<Result<(), LoginError>>, Option<Result<(), LoginError>>, Vec<Vec<u8>>) {
    let mut to_client: Vec<Vec<u8>> = Vec::new();
    let mut sent_by_server: Vec<Vec<u8>> = Vec::new();
    let mut to_server: Vec<Vec<u8>> = Vec::new();
    let mut server = ServerLoginFlow::new();
    let mut client = ClientLoginFlow::new();
    let mut server_event = Some(LoginEvent::Start);
    let mut client_event = Some(LoginEvent::Start);
    let mut server_waits = false;
    let mut client_waits = false;
    loop {
        let mut progress = false;
        if server_waits && !to_server.is_empty() {
            server_event = Some(LoginEvent::Received(Some(to_server.remove(0))));
            server_waits = false;
        }
        if let Some(event) = server_event.take() {
            progress = true;
            let (next, action) = server.login(server_ids, server_key, server_validator, event);
            server = next;
            match action {
                LoginAction::Send(message) => {
                    sent_by_server.push(message.clone());
                    to_client.push(message);
                    server_event = Some(LoginEvent::Sent(true));
                }
                LoginAction::Receive => server_waits = true,
                LoginAction::Close => server_event = Some(LoginEvent::Closed),
                LoginAction::Finish => {}
            }
        }
        if client_waits && !to_client.is_empty() {
            client_event = Some(LoginEvent::Received(Some(to_client.remove(0))));
            client_waits = false;
        }
        if let Some(event) = client_event.take() {
            progress = true;
            let (next, action) = client.login(client_ids, client_key, client_validator, event);
            client = next;
            match action {
                LoginAction::Send(message) => {
                    to_server.push(message);
                    client_event = Some(LoginEvent::Sent(true));
                }
                LoginAction::Receive => client_waits = true,
                LoginAction::Close => client_event = Some(LoginEvent::Closed),
                LoginAction::Finish => {}
            }
        }
        if !progress {
            if server_waits && client.result().is_some() {
                server_event = Some(LoginEvent::Received(None));
                server_waits = false;
            } else if client_waits && server.result().is_some() {
                client_event = Some(LoginEvent::Received(None));
                client_waits = false;
            } else {
                return (server.result(), client.result(), sent_by_server);
            }
        }
    }
}

#[test]
fn honest_login_succeeds() {
    let (server, client, sent) = run(
        &ids(b"a"),
        &ids(b"a"),
        KEY_A,
        KEY_B,
        &PeripheryPublicKeyValidator { expected: Some(PUBLIC_B) },
        &CorePublicKeyValidator { expected: Some(PUBLIC_A) },
    );
    assert_eq!(server, Some(Ok(())));
    assert_eq!(client, Some(Ok(())));
    assert_eq!(sent.len(), 3);
    assert_eq!(sent[0].len(), 32);
    assert_eq!(sent[1].len(), 96);
    assert_eq!(sent[2], vec![2]);
}

#[test]
fn login_without_expectations_succeeds() {
    let (server, client, _) =
        run(&ids(b"a"), &ids(b"a"), KEY_A, KEY_B, &AnyPublicKeyValidator, &CorePublicKeyValidator { expected: None });
    assert_eq!(server, Some(Ok(())));
    assert_eq!(client, Some(Ok(())));
}

#[test]
fn server_refuses_an_unexpected_key() {
    let (server, client, sent) = run(
        &ids(b"a"),
        &ids(b"a"),
        KEY_A,
        KEY_B,
        &PeripheryPublicKeyValidator { expected: Some(PUBLIC_A) },
        &AnyPublicKeyValidator,
    );
    assert_eq!(server, Some(Err(LoginError::Validate)));
    // The answer is that of a login that succeeded.
    assert_eq!(sent[2], vec![2]);
    assert_eq!(client, Some(Ok(())));
}

#[test]
fn client_refuses_an_unexpected_key() {
    let (server, client, sent) = run(
        &ids(b"a"),
        &ids(b"a"),
        KEY_A,
        KEY_B,
        &AnyPublicKeyValidator,
        &CorePublicKeyValidator { expected: Some(PUBLIC_B) },
    );
    assert_eq!(client, Some(Err(LoginError::Validate)));
    assert_eq!(server, Some(Err(LoginError::ReceiveThird)));
    assert_eq!(sent[2], vec![2]);
}

#[test]
fn login_is_bound_to_the_connection() {
    let (server, client, _) =
        run(&ids(b"a"), &ids(b"b"), KEY_A, KEY_B, &AnyPublicKeyValidator, &AnyPublicKeyValidator);
    assert_eq!(client, Some(Err(LoginError::ReadSecond)));
    assert_eq!(server, Some(Err(LoginError::ReceiveThird)));
}

#[test]
fn server_with_a_bad_key_fails() {
    let (server, client, sent) =
        run(&ids(b"a"), &ids(b"a"), "abc", KEY_B, &AnyPublicKeyValidator, &AnyPublicKeyValidator);
    assert_eq!(server, Some(Err(LoginError::Handshake(NoiseError::KeyTooShort))));
    assert_eq!(sent.len(), 2);
    assert_eq!(client, Some(Err(LoginError::ReadSecond)));
}

#[test]
fn client_with_a_bad_key_fails() {
    let (server, client, _) =
        run(&ids(b"a"), &ids(b"a"), KEY_A, "!!!!", &AnyPublicKeyValidator, &AnyPublicKeyValidator);
    assert_eq!(client, Some(Err(LoginError::Handshake(NoiseError::InvalidBase64))));
    assert_eq!(server, Some(Err(LoginError::ReceiveFirst)));
}

fn server_step(flow: ServerLoginFlow, event: LoginEvent) -> (ServerLoginFlow, LoginAction) {
    flow.login(&ids(b"a"), KEY_A, &AnyPublicKeyValidator, event)
}

fn client_step(flow: ClientLoginFlow, event: LoginEvent) -> (ClientLoginFlow, LoginAction) {
    flow.login(&ids(b"a"), KEY_B, &AnyPublicKeyValidator, event)
}

#[test]
fn server_socket_failures() {
    // The nonce cannot be sent, and neither can the answer: the socket is closed.
    let (flow, _) = server_step(ServerLoginFlow::new(), LoginEvent::Start);
    let (flow, action) = server_step(flow, LoginEvent::Sent(false));
    assert!(matches!(action, LoginAction::Send(message) if message == vec![2]));
    assert_eq!(flow.result(), None);
    let (flow, action) = server_step(flow, LoginEvent::Sent(false));
    assert!(matches!(action, LoginAction::Close));
    let (flow, action) = server_step(flow, LoginEvent::Closed);
    assert!(matches!(action, LoginAction::Finish));
    assert_eq!(flow.result(), Some(Err(LoginError::SendNonce)));

    // The first message cannot be read.
    let (flow, _) = server_step(ServerLoginFlow::new(), LoginEvent::Start);
    let (flow, _) = server_step(flow, LoginEvent::Sent(true));
    let (flow, _) = server_step(flow, LoginEvent::Received(Some(vec![0; 31])));
    let (flow, _) = server_step(flow, LoginEvent::Sent(true));
    assert_eq!(flow.result(), Some(Err(LoginError::ReadFirst)));

    // The second message cannot be sent.
    let (flow, _) = server_step(ServerLoginFlow::new(), LoginEvent::Start);
    let (flow, _) = server_step(flow, LoginEvent::Sent(true));
    let (flow, _) = server_step(flow, LoginEvent::Received(Some(vec![9; 32])));
    let (flow, _) = server_step(flow, LoginEvent::Sent(false));
    let (flow, _) = server_step(flow, LoginEvent::Sent(true));
    assert_eq!(flow.result(), Some(Err(LoginError::SendSecond)));

    // The third message cannot be read.
    let (flow, _) = server_step(ServerLoginFlow::new(), LoginEvent::Start);
    let (flow, _) = server_step(flow, LoginEvent::Sent(true));
    let (flow, _) = server_step(flow, LoginEvent::Received(Some(vec![9; 32])));
    let (flow, _) = server_step(flow, LoginEvent::Sent(true));
    let (flow, _) = server_step(flow, LoginEvent::Received(Some(vec![9; 64])));
    let (flow, _) = server_step(flow, LoginEvent::Sent(true));
    assert_eq!(flow.result(), Some(Err(LoginError::ReadThird)));
}

#[test]
fn client_socket_failures() {
    let (flow, action) = client_step(ClientLoginFlow::new(), LoginEvent::Start);
    assert!(matches!(action, LoginAction::Receive));
    let (flow, _) = client_step(flow, LoginEvent::Received(None));
    assert_eq!(flow.result(), Some(Err(LoginError::ReceiveNonce)));

    let (flow, _) = client_step(ClientLoginFlow::new(), LoginEvent::Start);
    let (flow, action) = client_step(flow, LoginEvent::Received(Some(vec![1, 2, 3])));
    assert!(matches!(action, LoginAction::Send(message) if message.len() == 32));
    let (flow, _) = client_step(flow, LoginEvent::Sent(false));
    assert_eq!(flow.result(), Some(Err(LoginError::SendFirst)));

    let (flow, _) = client_step(ClientLoginFlow::new(), LoginEvent::Start);
    let (flow, _) = client_step(flow, LoginEvent::Received(Some(vec![])));
    let (flow, _) = client_step(flow, LoginEvent::Sent(true));
    let (flow, _) = client_step(flow, LoginEvent::Received(None));
    assert_eq!(flow.result(), Some(Err(LoginError::ReceiveSecond)));
}

/// A client that got as far as the third message.
fn client_after_third() -> (ClientLoginFlow, ServerLoginFlow) {
    let (server, action) = server_step(ServerLoginFlow::new(), LoginEvent::Start);
    let LoginAction::Send(nonce) = action else { panic!() };
    let (server, _) = server_step(server, LoginEvent::Sent(true));
    let (client, _) = client_step(ClientLoginFlow::new(), LoginEvent::Start);
    let (client, action) = client_step(client, LoginEvent::Received(Some(nonce)));
    let LoginAction::Send(first) = action else { panic!() };
    let (client, _) = client_step(client, LoginEvent::Sent(true));
    let (server, action) = server_step(server, LoginEvent::Received(Some(first)));
    let LoginAction::Send(second) = action else { panic!() };
    let (client, action) = client_step(client, LoginEvent::Received(Some(second)));
    assert!(matches!(action, LoginAction::Send(third) if third.len() == 64));
    (client, server)
}

#[test]
fn client_and_the_state_message() {
    let (client, _) = client_after_third();
    let (client, _) = client_step(client, LoginEvent::Sent(false));
    assert_eq!(client.result(), Some(Err(LoginError::SendThird)));

    let outcomes = [
        (None, Err(LoginError::ReceiveState)),
        (Some(vec![]), Err(LoginError::NoState)),
        (Some(vec![3]), Err(LoginError::Rejected)),
        (Some(vec![2, 9]), Ok(())),
    ];
    for (message, outcome) in outcomes {
        let (client, _) = client_after_third();
        let (client, _) = client_step(client, LoginEvent::Sent(true));
        let (client, action) = client_step(client, LoginEvent::Received(message));
        assert!(matches!(action, LoginAction::Finish));
        assert_eq!(client.result(), Some(outcome));
    }
}

#[test]
fn server_that_cannot_tell_of_a_success_fails() {
    let (server, action) = server_step(ServerLoginFlow::new(), LoginEvent::Start);
    let LoginAction::Send(nonce) = action else { panic!() };
    let (server, _) = server_step(server, LoginEvent::Sent(true));
    let (client, _) = client_step(ClientLoginFlow::new(), LoginEvent::Start);
    let (client, action) = client_step(client, LoginEvent::Received(Some(nonce)));
    let LoginAction::Send(first) = action else { panic!() };
    let (client, _) = client_step(client, LoginEvent::Sent(true));
    let (server, action) = server_step(server, LoginEvent::Received(Some(first)));
    let LoginAction::Send(second) = action else { panic!() };
    let (server, _) = server_step(server, LoginEvent::Sent(true));
    let (_, action) = client_step(client, LoginEvent::Received(Some(second)));
    let LoginAction::Send(third) = action else { panic!() };
    let (server, action) = server_step(server, LoginEvent::Received(Some(third)));
    assert!(matches!(action, LoginAction::Send(message) if message == vec![2]));
    let (server, action) = server_step(server, LoginEvent::Sent(false));
    assert!(matches!(action, LoginAction::Finish));
    assert_eq!(server.result(), Some(Err(LoginError::SendOutcome)));
}

#[test]
fn validators() {
    let some = PeripheryPublicKeyValidator { expected: Some("key") };
    assert_eq!(some.validate("key".to_string()), Ok(()));
    assert_eq!(some.validate("other".to_string()), Err(InvalidPublicKey));
    assert_eq!(PeripheryPublicKeyValidator { expected: None }.validate("other".to_string()), Ok(()));
    let core = CorePublicKeyValidator { expected: Some("key") };
    assert_eq!(core.validate("key".to_string()), Ok(()));
    assert_eq!(core.validate("other".to_string()), Err(InvalidPublicKey));
    assert_eq!(CorePublicKeyValidator { expected: None }.validate("other".to_string()), Ok(()));
    assert_eq!(AnyPublicKeyValidator.validate("other".to_string()), Ok(()));
}

#[test]
fn handshake_between_two_ends() {
    let mut initiator = NoiseHandshake::new_initiator(KEY_A, b"prologue").ok().unwrap();
    let mut responder = NoiseHandshake::new_responder(KEY_B, b"prologue").ok().unwrap();
    assert_eq!(initiator.remote_public_key(), Err(NoiseError::NoRemoteKey));
    assert_eq!(responder.next_message(), Err(NoiseError::Write));
    let first = initiator.next_message().unwrap();
    assert_eq!(first.len(), 32);
    assert_eq!(initiator.next_message(), Err(NoiseError::Write));
    assert_eq!(responder.read_message(&first), Ok(()));
    let second = responder.next_message().unwrap();
    assert_eq!(second.len(), 96);
    assert_eq!(initiator.read_message(&second), Ok(()));
    assert_eq!(initiator.remote_public_key().unwrap(), PUBLIC_B);
    assert_eq!(responder.remote_public_key(), Err(NoiseError::NoRemoteKey));
    let third = initiator.next_message().unwrap();
    assert_eq!(third.len(), 64);
    assert_eq!(responder.read_message(&third), Ok(()));
    assert_eq!(responder.remote_public_key().unwrap(), PUBLIC_A);
}

#[test]
fn handshake_refuses_what_was_not_written_for_it() {
    let mut initiator = NoiseHandshake::new_initiator(KEY_A, b"prologue").ok().unwrap();
    let mut responder = NoiseHandshake::new_responder(KEY_B, b"other prologue").ok().unwrap();
    let first = initiator.next_message().unwrap();
    assert_eq!(initiator.read_message(&first), Err(NoiseError::Read));
    assert_eq!(responder.read_message(&first), Ok(()));
    let second = responder.next_message().unwrap();
    assert_eq!(initiator.read_message(&second), Err(NoiseError::Read));
}

#[test]
fn keys_that_cannot_be_used() {
    assert_eq!(NoiseHandshake::new_initiator("abc", b"").err(), Some(NoiseError::KeyTooShort));
    assert_eq!(NoiseHandshake::new_responder("", b"").err(), Some(NoiseError::KeyTooShort));
    assert_eq!(NoiseHandshake::new_initiator("abc.", b"").err(), Some(NoiseError::InvalidBase64));
    assert_eq!(NoiseHandshake::new_responder("abcde", b"").err(), Some(NoiseError::InvalidBase64));
    assert!(private_key_fits(KEY_A));
    assert!(private_key_fits("no base64"));
    assert!(!private_key_fits("AAECAwQFBgcICQoLDA0ODxAREhMUFRYXGBkaGxwdHh8g"));
}

#[test]
fn public_keys() {
    assert_eq!(compute_public_key(KEY_A).unwrap(), PUBLIC_A);
    assert_eq!(compute_public_key(KEY_B).unwrap(), PUBLIC_B);
    // A short key is padded with zeros.
    assert_eq!(compute_public_key("YWJj").unwrap(), "0IFtfpEKYOySNMw2mWHIJvXdnpjkDbioInGl58MZvEI=");
    assert_eq!(compute_public_key("ab"), Err(ComputeKeyError::Server(NoiseError::KeyTooShort)));
    assert_eq!(compute_public_key("????"), Err(ComputeKeyError::Server(NoiseError::InvalidBase64)));
}

#[test]
fn key_pairs_are_encoded() {
    let pair = Base64KeyPair::from_bytes(&[7; 32], &[0xff; 2]);
    assert_eq!(pair.private_key, KEY_B);
    assert_eq!(pair.public_key, "//8=");
}

#[test]
fn generated_keys_belong_together() {
    let pair = Base64KeyPair::generate().ok().unwrap();
    assert_eq!(pair.private_key.len(), 44);
    assert_eq!(pair.public_key.len(), 44);
    assert!(private_key_fits(&pair.private_key));
    assert_eq!(compute_public_key(&pair.private_key).unwrap(), pair.public_key);
    assert_eq!(compute_public_key(&pair.private_key).unwrap(), pair.public_key);
    let other = Base64KeyPair::generate().ok().unwrap();
    assert_ne!(pair.private_key, other.private_key);
}

#[test]
fn key_command() {
    let compute = |format| handle(&KeyCommand::Compute { private_key: KEY_A.to_string(), format }).ok().unwrap();
    match compute(KeyOutputFormat::default()) {
        KeyReport::Standard { public_key, shown_private_key } => {
            assert_eq!(public_key, PUBLIC_A);
            assert_eq!(shown_private_key, None);
        }
        _ => panic!(),
    }
    for (format, expected) in [(KeyOutputFormat::Json, false), (KeyOutputFormat::JsonPretty, true)] {
        let report = compute(format);
        let pair = report.key_pair().unwrap();
        assert_eq!(pair.private_key, KEY_A);
        assert_eq!(pair.public_key, PUBLIC_A);
        assert!(matches!(&report, KeyReport::Json { pretty, .. } if *pretty == expected));
    }
    match handle(&KeyCommand::Generate { format: KeyOutputFormat::Standard }).ok().unwrap() {
        KeyReport::Standard { public_key, shown_private_key } => {
            assert_eq!(compute_public_key(&shown_private_key.unwrap()).unwrap(), public_key);
        }
        _ => panic!(),
    }
    let bad = KeyCommand::Compute { private_key: "a".to_string(), format: KeyOutputFormat::Json };
    assert_eq!(
        handle(&bad).err(),
        Some(KeyError::Compute(ComputeKeyError::Server(NoiseError::KeyTooShort)))
    );
    assert_eq!(BASE64_PREFIX, "base64:");
}

#[test]
fn raw_login_reports_the_keys() {
    assert_ne!(AuthType::Passkey, AuthType::Noise);
    let server_key = [7u8; 32];
    let client_key: Vec<u8> = (0..32).collect();
    let id = ids(b"a");
    let server = |flow, event| handle_server_side_login(flow, &id, &server_key, event);
    let client = |flow, event| handle_client_side_login(flow, &id, &client_key, event);

    let (s, action) = server(ServerSide::Start, HandshakeEvent::Start);
    let HandshakeAction::Send(nonce) = action else { panic!() };
    let (s, _) = server(s, HandshakeEvent::Sent(true));
    let (c, _) = client(ClientSide::Start, HandshakeEvent::Start);
    let (c, action) = client(c, HandshakeEvent::Received(Some(nonce)));
    let HandshakeAction::Send(first) = action else { panic!() };
    let (c, _) = client(c, HandshakeEvent::Sent(true));
    let (s, action) = server(s, HandshakeEvent::Received(Some(first)));
    let HandshakeAction::Send(second) = action else { panic!() };
    let (s, _) = server(s, HandshakeEvent::Sent(true));
    let (c, action) = client(c, HandshakeEvent::Received(Some(second)));
    assert!(matches!(action, HandshakeAction::Report(key) if key == PUBLIC_B));
    let (c, action) = client(c, HandshakeEvent::Reported);
    let HandshakeAction::Send(third) = action else { panic!() };
    let (c, _) = client(c, HandshakeEvent::Sent(true));
    assert!(matches!(c, ClientSide::Done(None)));
    let (s, action) = server(s, HandshakeEvent::Received(Some(third)));
    assert!(matches!(action, HandshakeAction::Report(key) if key == PUBLIC_A));
    let (s, _) = server(s, HandshakeEvent::Reported);
    assert!(matches!(s, ServerSide::Done(None)));
}

#[test]
fn raw_login_failures() {
    let key = [1u8; 32];
    let id = ids(b"a");
    let (s, _) = handle_server_side_login(ServerSide::Start, &id, &key, HandshakeEvent::Start);
    let (s, _) = handle_server_side_login(s, &id, &key, HandshakeEvent::Sent(false));
    assert!(matches!(s, ServerSide::Done(Some(LoginError::SendNonce))));
    let (s, _) = handle_server_side_login(ServerSide::Start, &id, &key, HandshakeEvent::Start);
    let (s, _) = handle_server_side_login(s, &id, &key, HandshakeEvent::Sent(true));
    let (s, _) = handle_server_side_login(s, &id, &key, HandshakeEvent::Received(Some(vec![1])));
    assert!(matches!(s, ServerSide::Done(Some(LoginError::ReadFirst))));
    let (c, _) = handle_client_side_login(ClientSide::Start, &id, &key, HandshakeEvent::Start);
    let (c, _) = handle_client_side_login(c, &id, &key, HandshakeEvent::Received(None));
    assert!(matches!(c, ClientSide::Done(Some(LoginError::ReceiveNonce))));
    let (c, _) = handle_client_side_login(ClientSide::Start, &id, &key, HandshakeEvent::Start);
    let (c, _) = handle_client_side_login(c, &id, &key, HandshakeEvent::Received(Some(vec![1])));
    let (c, _) = handle_client_side_login(c, &id, &key, HandshakeEvent::Sent(true));
    let (c, _) = handle_client_side_login(c, &id, &key, HandshakeEvent::Received(Some(vec![1; 96])));
    assert!(matches!(c, ClientSide::Done(Some(LoginError::ReadSecond))));
}
