//! A login that only proves keys: the handshake of `auth`, on raw private keys,
//! with no validation and no word on the outcome. Each side reports the public
//! key that the other side proved.

use vstd::prelude::*;
use crate::auth::nonce;
use crate::auth::LoginError;
use crate::auth;
use crate::encoding;
use crate::identifiers::ConnectionIdentifiers;
use crate::noise;
use crate::noise::NoiseHandshake;

verus! {

/// How a connection may be authenticated.
#[derive(Debug, Clone, Copy, PartialEq, Eq, Structural)]
pub enum AuthType {
    Passkey,
    Noise,
}

/// What happened outside.
pub enum HandshakeEvent {
    /// The connection is open.
    Start,
    /// The message was sent, or could not be.
    Sent(bool),
    /// A message came, or none will.
    Received(Option<Vec<u8>>),
    /// The key was reported.
    Reported,
}

/// What is to be done outside next.
pub enum HandshakeAction {
    /// Send a message.
    Send(Vec<u8>),
    /// Receive a message.
    Receive,
    /// Report the base64 public key of the other side.
    Report(String),
    /// The login is over.
    Finish,
}

/// Whether `event` reports on `action`.
pub open spec fn reports(action: HandshakeAction, event: HandshakeEvent) -> bool {
    match action {
        HandshakeAction::Send(_) => event is Sent,
        HandshakeAction::Receive => event is Received,
        HandshakeAction::Report(_) => event is Reported,
        HandshakeAction::Finish => false,
    }
}

/// The server side of the login.
pub enum ServerSide {
    Start,
    SendNonce([u8; 32]),
    ReceiveFirst(NoiseHandshake),
    SendSecond(NoiseHandshake),
    ReceiveThird(NoiseHandshake),
    Report,
    Done(Option<LoginError>),
}

/// The client side of the login.
pub enum ClientSide {
    Start,
    ReceiveNonce,
    SendFirst(NoiseHandshake),
    ReceiveSecond(NoiseHandshake),
    Report(NoiseHandshake),
    SendThird,
    Done(Option<LoginError>),
}

impl ServerSide {
    pub open spec fn wf(self) -> bool {
        match self {
            ServerSide::ReceiveFirst(h) => auth::is_responder_at(h, 0),
            ServerSide::SendSecond(h) => auth::is_responder_at(h, 2),
            ServerSide::ReceiveThird(h) => auth::is_responder_at(h, 2),
            _ => true,
        }
    }

    /// Whether the login waits for `event`.
    pub open spec fn expects(self, event: HandshakeEvent) -> bool {
        match self {
            ServerSide::Start => event is Start,
            ServerSide::SendNonce(_) => event is Sent,
            ServerSide::ReceiveFirst(_) => event is Received,
            ServerSide::SendSecond(_) => event is Sent,
            ServerSide::ReceiveThird(_) => event is Received,
            ServerSide::Report => event is Reported,
            ServerSide::Done(_) => false,
        }
    }

    /// Whether the login ended with `outcome`.
    pub open spec fn finishes(self, action: HandshakeAction, outcome: Option<LoginError>) -> bool {
        self == ServerSide::Done(outcome) && action is Finish
    }

    fn end(outcome: Option<LoginError>) -> (r: (ServerSide, HandshakeAction))
        ensures
            r.0.finishes(r.1, outcome),
    {
        (ServerSide::Done(outcome), HandshakeAction::Finish)
    }
}

impl ClientSide {
    pub open spec fn wf(self) -> bool {
        match self {
            ClientSide::SendFirst(h) => auth::is_initiator_at(h, 1),
            ClientSide::ReceiveSecond(h) => auth::is_initiator_at(h, 1),
            ClientSide::Report(h) => auth::is_initiator_at(h, 2),
            _ => true,
        }
    }

    /// Whether the login waits for `event`.
    pub open spec fn expects(self, event: HandshakeEvent) -> bool {
        match self {
            ClientSide::Start => event is Start,
            ClientSide::ReceiveNonce => event is Received,
            ClientSide::SendFirst(_) => event is Sent,
            ClientSide::ReceiveSecond(_) => event is Received,
            ClientSide::Report(_) => event is Reported,
            ClientSide::SendThird => event is Sent,
            ClientSide::Done(_) => false,
        }
    }

    /// Whether the login ended with `outcome`.
    pub open spec fn finishes(self, action: HandshakeAction, outcome: Option<LoginError>) -> bool {
        self == ClientSide::Done(outcome) && action is Finish
    }

    fn end(outcome: Option<LoginError>) -> (r: (ClientSide, HandshakeAction))
        ensures
            r.0.finishes(r.1, outcome),
    {
        (ClientSide::Done(outcome), HandshakeAction::Finish)
    }
}

/// Whether the server may become `after`, and ask for `action`, on `event`.
pub open spec fn server_step(
    before: ServerSide,
    ids: ConnectionIdentifiers<'_>,
    private_key: Seq<u8>,
    event: HandshakeEvent,
    after: ServerSide,
    action: HandshakeAction,
) -> bool {
    match (before, event) {
        (ServerSide::Start, HandshakeEvent::Start) => {
            &&& after matches ServerSide::SendNonce(nonce)
            &&& action matches HandshakeAction::Send(message)
            &&& message@ == nonce@
        },
        (ServerSide::SendNonce(nonce), HandshakeEvent::Sent(sent)) => if !sent {
            after.finishes(action, Some(LoginError::SendNonce))
        } else {
            &&& action is Receive
            &&& after matches ServerSide::ReceiveFirst(h)
            &&& h@ == noise::initial_view(false, ids.prologue(nonce@), private_key)
        },
        (ServerSide::ReceiveFirst(h), HandshakeEvent::Received(message)) => match message {
            None => after.finishes(action, Some(LoginError::ReceiveFirst)),
            Some(first) => if first@.len() != noise::message_len(0) {
                after.finishes(action, Some(LoginError::ReadFirst))
            } else {
                ||| after.finishes(action, Some(LoginError::WriteSecond))
                ||| {
                    &&& after matches ServerSide::SendSecond(next)
                    &&& action matches HandshakeAction::Send(second)
                    &&& noise::written(h@.pushed(first@), second@, next@)
                }
            },
        },
        (ServerSide::SendSecond(h), HandshakeEvent::Sent(sent)) => if !sent {
            after.finishes(action, Some(LoginError::SendSecond))
        } else {
            after == ServerSide::ReceiveThird(h) && action is Receive
        },
        (ServerSide::ReceiveThird(h), HandshakeEvent::Received(message)) => match message {
            None => after.finishes(action, Some(LoginError::ReceiveThird)),
            Some(third) => {
                &&& auth::opens_written(h, third@)
                &&& match h.opens(third@) {
                    None => after.finishes(action, Some(LoginError::ReadThird)),
                    Some(key) => {
                        &&& after is Report
                        &&& action matches HandshakeAction::Report(text)
                        &&& text@ == encoding::base64_text(key)
                    },
                }
            },
        },
        (ServerSide::Report, HandshakeEvent::Reported) => after.finishes(action, None),
        _ => false,
    }
}

/// Whether the client may become `after`, and ask for `action`, on `event`.
pub open spec fn client_step(
    before: ClientSide,
    ids: ConnectionIdentifiers<'_>,
    private_key: Seq<u8>,
    event: HandshakeEvent,
    after: ClientSide,
    action: HandshakeAction,
) -> bool {
    match (before, event) {
        (ClientSide::Start, HandshakeEvent::Start) => after is ReceiveNonce && action is Receive,
        (ClientSide::ReceiveNonce, HandshakeEvent::Received(message)) => match message {
            None => after.finishes(action, Some(LoginError::ReceiveNonce)),
            Some(nonce) => {
                ||| after.finishes(action, Some(LoginError::WriteFirst))
                ||| {
                    &&& after matches ClientSide::SendFirst(h)
                    &&& action matches HandshakeAction::Send(first)
                    &&& noise::written(
                        noise::initial_view(true, ids.prologue(nonce@), private_key),
                        first@,
                        h@,
                    )
                }
            },
        },
        (ClientSide::SendFirst(h), HandshakeEvent::Sent(sent)) => if !sent {
            after.finishes(action, Some(LoginError::SendFirst))
        } else {
            after == ClientSide::ReceiveSecond(h) && action is Receive
        },
        (ClientSide::ReceiveSecond(h), HandshakeEvent::Received(message)) => match message {
            None => after.finishes(action, Some(LoginError::ReceiveSecond)),
            Some(second) => {
                &&& auth::opens_written(h, second@)
                &&& match h.opens(second@) {
                    None => after.finishes(action, Some(LoginError::ReadSecond)),
                    Some(key) => {
                        &&& after matches ClientSide::Report(next)
                        &&& next@ == h@.pushed_with(second@, Some(key))
                        &&& action matches HandshakeAction::Report(text)
                        &&& text@ == encoding::base64_text(key)
                    },
                }
            },
        },
        (ClientSide::Report(h), HandshakeEvent::Reported) => {
            &&& after is SendThird
            &&& action matches HandshakeAction::Send(third)
            &&& third@.len() == noise::message_len(2)
            &&& noise::handshake_message(h@.transcript, h@.local_public, third@)
        },
        (ClientSide::SendThird, HandshakeEvent::Sent(sent)) => after.finishes(
            action,
            if sent {
                None
            } else {
                Some(LoginError::SendThird)
            },
        ),
        _ => false,
    }
}

/// Takes the server side of the login one step further.
pub fn handle_server_side_login(
    login: ServerSide,
    id: &ConnectionIdentifiers<'_>,
    private_key: &[u8],
    event: HandshakeEvent,
) -> (r: (ServerSide, HandshakeAction))
    requires
        login.wf(),
        login.expects(event),
        private_key@.len() <= 32,
    ensures
        r.0.wf(),
        server_step(login, *id, private_key@, event, r.0, r.1),
        forall|next: HandshakeEvent| #[trigger] reports(r.1, next) ==> r.0.expects(next),
{
    match (login, event) {
        (ServerSide::Start, _) => {
            // The server generates a random nonce and sends it to the client.
            let nonce: [u8; 32] = nonce();
            let mut message: Vec<u8> = Vec::new();
            message.extend_from_slice(&nonce);
            assert(message@ =~= nonce@);
            (ServerSide::SendNonce(nonce), HandshakeAction::Send(message))
        },
        (ServerSide::SendNonce(nonce), HandshakeEvent::Sent(sent)) => {
            if !sent {
                return ServerSide::end(Some(LoginError::SendNonce));
            }
            let prologue: [u8; 32] = id.hash(&nonce);
            match NoiseHandshake::responder_with(private_key, &prologue) {
                Ok(handshake) => (ServerSide::ReceiveFirst(handshake), HandshakeAction::Receive),
                Err(e) => ServerSide::end(Some(LoginError::Handshake(e))),
            }
        },
        (ServerSide::ReceiveFirst(handshake), HandshakeEvent::Received(message)) => {
            let mut handshake = handshake;
            let message: Vec<u8> = match message {
                Some(message) => message,
                None => return ServerSide::end(Some(LoginError::ReceiveFirst)),
            };
            match handshake.read_message(message.as_slice()) {
                Ok(()) => {},
                Err(_) => return ServerSide::end(Some(LoginError::ReadFirst)),
            }
            match handshake.next_message() {
                Ok(second) => (ServerSide::SendSecond(handshake), HandshakeAction::Send(second)),
                Err(_) => ServerSide::end(Some(LoginError::WriteSecond)),
            }
        },
        (ServerSide::SendSecond(handshake), HandshakeEvent::Sent(sent)) => {
            if !sent {
                return ServerSide::end(Some(LoginError::SendSecond));
            }
            (ServerSide::ReceiveThird(handshake), HandshakeAction::Receive)
        },
        (ServerSide::ReceiveThird(handshake), HandshakeEvent::Received(message)) => {
            let mut handshake = handshake;
            let message: Vec<u8> = match message {
                Some(message) => message,
                None => return ServerSide::end(Some(LoginError::ReceiveThird)),
            };
            match handshake.read_message(message.as_slice()) {
                Ok(()) => {},
                Err(_) => return ServerSide::end(Some(LoginError::ReadThird)),
            }
            match handshake.remote_public_key() {
                Ok(public_key) => (ServerSide::Report, HandshakeAction::Report(public_key)),
                Err(_) => ServerSide::end(Some(LoginError::RemoteKey)),
            }
        },
        _ => ServerSide::end(None),
    }
}

/// Takes the client side of the login one step further.
pub fn handle_client_side_login(
    login: ClientSide,
    id: &ConnectionIdentifiers<'_>,
    private_key: &[u8],
    event: HandshakeEvent,
) -> (r: (ClientSide, HandshakeAction))
    requires
        login.wf(),
        login.expects(event),
        private_key@.len() <= 32,
    ensures
        r.0.wf(),
        client_step(login, *id, private_key@, event, r.0, r.1),
        forall|next: HandshakeEvent| #[trigger] reports(r.1, next) ==> r.0.expects(next),
{
    match (login, event) {
        (ClientSide::Start, _) => (ClientSide::ReceiveNonce, HandshakeAction::Receive),
        (ClientSide::ReceiveNonce, HandshakeEvent::Received(message)) => {
            let nonce: Vec<u8> = match message {
                Some(nonce) => nonce,
                None => return ClientSide::end(Some(LoginError::ReceiveNonce)),
            };
            let prologue: [u8; 32] = id.hash(nonce.as_slice());
            let mut handshake: NoiseHandshake = match NoiseHandshake::initiator_with(private_key, &prologue) {
                Ok(handshake) => handshake,
                Err(e) => return ClientSide::end(Some(LoginError::Handshake(e))),
            };
            match handshake.next_message() {
                Ok(first) => (ClientSide::SendFirst(handshake), HandshakeAction::Send(first)),
                Err(_) => ClientSide::end(Some(LoginError::WriteFirst)),
            }
        },
        (ClientSide::SendFirst(handshake), HandshakeEvent::Sent(sent)) => {
            if !sent {
                return ClientSide::end(Some(LoginError::SendFirst));
            }
            (ClientSide::ReceiveSecond(handshake), HandshakeAction::Receive)
        },
        (ClientSide::ReceiveSecond(handshake), HandshakeEvent::Received(message)) => {
            let mut handshake = handshake;
            let message: Vec<u8> = match message {
                Some(message) => message,
                None => return ClientSide::end(Some(LoginError::ReceiveSecond)),
            };
            match handshake.read_message(message.as_slice()) {
                Ok(()) => {},
                Err(_) => return ClientSide::end(Some(LoginError::ReadSecond)),
            }
            match handshake.remote_public_key() {
                Ok(public_key) => (ClientSide::Report(handshake), HandshakeAction::Report(public_key)),
                Err(_) => ClientSide::end(Some(LoginError::RemoteKey)),
            }
        },
        (ClientSide::Report(handshake), _) => {
            let mut handshake = handshake;
            match handshake.next_message() {
                Ok(third) => (ClientSide::SendThird, HandshakeAction::Send(third)),
                Err(_) => ClientSide::end(Some(LoginError::WriteThird)),
            }
        },
        (ClientSide::SendThird, HandshakeEvent::Sent(sent)) => {
            if !sent {
                return ClientSide::end(Some(LoginError::SendThird));
            }
            ClientSide::end(None)
        },
        _ => ClientSide::end(None),
    }
}

/// Two sides that agree on the identifiers of the connection, and that get each
/// other's handshake messages unchanged, report each other's public key.
pub proof fn law_keys_are_exchanged(
    server_ids: ConnectionIdentifiers<'_>,
    client_ids: ConnectionIdentifiers<'_>,
    server_key: Seq<u8>,
    client_key: Seq<u8>,
    nonce: Vec<u8>,
    first: Vec<u8>,
    second: Vec<u8>,
    third: Vec<u8>,
    s: Seq<ServerSide>,
    c: Seq<ClientSide>,
    server_report: HandshakeAction,
    client_report: HandshakeAction,
)
    requires
        server_ids.host@ == client_ids.host@ && server_ids.query@ == client_ids.query@ && server_ids.accept@
            == client_ids.accept@,
        s.len() == 6 && c.len() == 6,
        s[0] is Start && c[0] is Start,
        server_step(s[0], server_ids, server_key, HandshakeEvent::Start, s[1], HandshakeAction::Send(nonce)),
        client_step(c[0], client_ids, client_key, HandshakeEvent::Start, c[1], HandshakeAction::Receive),
        server_step(s[1], server_ids, server_key, HandshakeEvent::Sent(true), s[2], HandshakeAction::Receive),
        client_step(
            c[1],
            client_ids,
            client_key,
            HandshakeEvent::Received(Some(nonce)),
            c[2],
            HandshakeAction::Send(first),
        ),
        client_step(c[2], client_ids, client_key, HandshakeEvent::Sent(true), c[3], HandshakeAction::Receive),
        server_step(
            s[2],
            server_ids,
            server_key,
            HandshakeEvent::Received(Some(first)),
            s[3],
            HandshakeAction::Send(second),
        ),
        server_step(s[3], server_ids, server_key, HandshakeEvent::Sent(true), s[4], HandshakeAction::Receive),
        client_step(c[3], client_ids, client_key, HandshakeEvent::Received(Some(second)), c[4], client_report),
        c[4] is Report ==> client_step(
            c[4],
            client_ids,
            client_key,
            HandshakeEvent::Reported,
            c[5],
            HandshakeAction::Send(third),
        ),
        c[4] is Report ==> server_step(
            s[4],
            server_ids,
            server_key,
            HandshakeEvent::Received(Some(third)),
            s[5],
            server_report,
        ),
    ensures
        client_report matches HandshakeAction::Report(key) && key@ == encoding::base64_text(
            noise::x25519_public(noise::padded_key(server_key)),
        ),
        server_report matches HandshakeAction::Report(key) && key@ == encoding::base64_text(
            noise::x25519_public(noise::padded_key(client_key)),
        ),
{
    let s2 = s[2]->ReceiveFirst_0;
    let s4 = s[4]->ReceiveThird_0;
    let c3 = c[3]->ReceiveSecond_0;
    let c4 = c[4]->Report_0;
    assert(noise::handshake_message(c3@.transcript, s2@.local_public, second@));
    assert(s4@.transcript == c4@.transcript);
    assert(noise::handshake_message(s4@.transcript, c4@.local_public, third@));
}

/// How the server gets from one step to the next, and with which error it ends
/// where a step fails. It reports the key that the client proved, whatever key
/// it is.
pub proof fn law_server_side_steps(
    before: ServerSide,
    ids: ConnectionIdentifiers<'_>,
    private_key: Seq<u8>,
    event: HandshakeEvent,
    after: ServerSide,
    action: HandshakeAction,
)
    requires
        server_step(before, ids, private_key, event, after, action),
    ensures
        before is Start ==> (after matches ServerSide::SendNonce(nonce) && action is Send && action->Send_0@ == nonce@),
        before matches ServerSide::SendNonce(nonce) ==> {
            &&& event == HandshakeEvent::Sent(false) ==> after == ServerSide::Done(Some(LoginError::SendNonce))
            &&& event == HandshakeEvent::Sent(true) ==> after is ReceiveFirst && action is Receive
                && after->ReceiveFirst_0@ == noise::initial_view(false, ids.prologue(nonce@), private_key)
        },
        before matches ServerSide::ReceiveFirst(h) ==> {
            &&& event == HandshakeEvent::Received(None) ==> after == ServerSide::Done(Some(LoginError::ReceiveFirst))
            &&& event matches HandshakeEvent::Received(Some(first)) ==> {
                &&& first@.len() != 32 ==> after == ServerSide::Done(Some(LoginError::ReadFirst))
                &&& first@.len() == 32 ==> after is SendSecond || after == ServerSide::Done(
                    Some(LoginError::WriteSecond),
                )
                &&& after is SendSecond ==> action is Send && noise::handshake_message(
                    h@.transcript.push(first@),
                    h@.local_public,
                    action->Send_0@,
                )
            }
        },
        before matches ServerSide::SendSecond(h) ==> {
            &&& event == HandshakeEvent::Sent(false) ==> after == ServerSide::Done(Some(LoginError::SendSecond))
            &&& event == HandshakeEvent::Sent(true) ==> after == ServerSide::ReceiveThird(h) && action is Receive
        },
        before matches ServerSide::ReceiveThird(h) ==> {
            &&& event == HandshakeEvent::Received(None) ==> after == ServerSide::Done(Some(LoginError::ReceiveThird))
            &&& event matches HandshakeEvent::Received(Some(third)) ==> match h.opens(third@) {
                None => after == ServerSide::Done(Some(LoginError::ReadThird)),
                Some(key) => after is Report && action is Report && action->Report_0@ == encoding::base64_text(key),
            }
        },
        before is Report ==> after == ServerSide::Done(None) && action is Finish,
{
}

/// How the client gets from one step to the next, and with which error it ends
/// where a step fails. It reports the key that the server proved, whatever key
/// it is, and then proves its own.
pub proof fn law_client_side_steps(
    before: ClientSide,
    ids: ConnectionIdentifiers<'_>,
    private_key: Seq<u8>,
    event: HandshakeEvent,
    after: ClientSide,
    action: HandshakeAction,
)
    requires
        client_step(before, ids, private_key, event, after, action),
    ensures
        before is Start ==> after is ReceiveNonce && action is Receive,
        before is ReceiveNonce ==> {
            &&& event == HandshakeEvent::Received(None) ==> after == ClientSide::Done(Some(LoginError::ReceiveNonce))
            &&& event matches HandshakeEvent::Received(Some(nonce)) ==> after == ClientSide::Done(
                Some(LoginError::WriteFirst),
            ) || (after is SendFirst && action is Send && after->SendFirst_0@ == noise::initial_view(
                true,
                ids.prologue(nonce@),
                private_key,
            ).pushed(action->Send_0@))
        },
        before matches ClientSide::SendFirst(h) ==> {
            &&& event == HandshakeEvent::Sent(false) ==> after == ClientSide::Done(Some(LoginError::SendFirst))
            &&& event == HandshakeEvent::Sent(true) ==> after == ClientSide::ReceiveSecond(h) && action is Receive
        },
        before matches ClientSide::ReceiveSecond(h) ==> {
            &&& event == HandshakeEvent::Received(None) ==> after == ClientSide::Done(Some(LoginError::ReceiveSecond))
            &&& event matches HandshakeEvent::Received(Some(second)) ==> match h.opens(second@) {
                None => after == ClientSide::Done(Some(LoginError::ReadSecond)),
                Some(key) => after is Report && action is Report && action->Report_0@ == encoding::base64_text(key),
            }
        },
        before matches ClientSide::Report(h) ==> after is SendThird && action is Send && noise::handshake_message(
            h@.transcript,
            h@.local_public,
            action->Send_0@,
        ),
        before is SendThird && event == HandshakeEvent::Sent(true) ==> after == ClientSide::Done(None),
        before is SendThird && event == HandshakeEvent::Sent(false) ==> after == ClientSide::Done(
            Some(LoginError::SendThird),
        ),
{
}

} // verus!
