//! Both sides of the login with which every connection starts: a Noise
//! handshake bound to the connection, in which each side proves the static key
//! that the other side validates.
//!
//! The flows hold no socket. A caller feeds them what happened on the socket as
//! a `LoginEvent`, and does on the socket what the `LoginAction` says.

use vstd::prelude::*;
use rand::RngCore;
use crate::bytes;
use crate::bytes::state_to_bytes;
use crate::bytes::MessageState;
use crate::encoding;
use crate::identifiers::ConnectionIdentifiers;
use crate::noise;
use crate::noise::NoiseError;
use crate::noise::NoiseHandshake;

verus! {

/// A public key was refused.
#[derive(Debug, Clone, Copy, PartialEq, Eq, Structural)]
pub struct InvalidPublicKey;

/// Decides which public keys may log in.
pub trait PublicKeyValidator {
    /// Whether the base64 `public_key` may log in.
    spec fn accepts(&self, public_key: Seq<char>) -> bool;

    fn validate(&self, public_key: String) -> (r: Result<(), InvalidPublicKey>)
        ensures
            r is Ok <==> self.accepts(public_key@),
    ;
}

/// What went wrong in a login.
#[derive(Debug, Clone, Copy, PartialEq, Eq, Structural)]
pub enum LoginError {
    /// Failed to send the connection nonce.
    SendNonce,
    /// Failed to receive the connection nonce.
    ReceiveNonce,
    /// Failed to initialize the handshake.
    Handshake(NoiseError),
    /// Failed to write the first handshake message.
    WriteFirst,
    /// Failed to send the first handshake message.
    SendFirst,
    /// Failed to get the first handshake message.
    ReceiveFirst,
    /// Failed to read the first handshake message.
    ReadFirst,
    /// Failed to write the second handshake message.
    WriteSecond,
    /// Failed to send the second handshake message.
    SendSecond,
    /// Failed to get the second handshake message.
    ReceiveSecond,
    /// Failed to read the second handshake message.
    ReadSecond,
    /// Failed to write the third handshake message.
    WriteThird,
    /// Failed to send the third handshake message.
    SendThird,
    /// Failed to get the third handshake message.
    ReceiveThird,
    /// Failed to read the third handshake message.
    ReadThird,
    /// The public key of the other side is not known.
    RemoteKey,
    /// Failed to validate the public key of the other side.
    Validate,
    /// Failed to send the outcome to the client.
    SendOutcome,
    /// Failed to receive the authentication state message.
    ReceiveState,
    /// The authentication state message did not contain a state byte.
    NoState,
    /// Authentication failed.
    Rejected,
}

/// What happened on the socket.
pub enum LoginEvent {
    /// The connection is open.
    Start,
    /// The message was sent, or could not be.
    Sent(bool),
    /// A message came, or none will.
    Received(Option<Vec<u8>>),
    /// The socket was closed.
    Closed,
}

/// What is to be done with the socket next.
pub enum LoginAction {
    /// Send a message.
    Send(Vec<u8>),
    /// Receive a message.
    Receive,
    /// Close the socket.
    Close,
    /// The login is over.
    Finish,
}

/// Whether `event` reports on `action`.
pub open spec fn reports(action: LoginAction, event: LoginEvent) -> bool {
    match action {
        LoginAction::Send(_) => event is Sent,
        LoginAction::Receive => event is Received,
        LoginAction::Close => event is Closed,
        LoginAction::Finish => false,
    }
}

/// What a login is about.
pub struct LoginView {
    /// The host, the query and the accept value of the connection.
    pub host: Seq<u8>,
    pub query: Seq<u8>,
    pub accept: Seq<u8>,
    /// The base64 private key of this side.
    pub private_key: Seq<char>,
    /// Which base64 public keys this side accepts.
    pub accepts: spec_fn(Seq<char>) -> bool,
}

impl LoginView {
    /// The prologue of the handshake.
    pub open spec fn prologue(self, nonce: Seq<u8>) -> Seq<u8> {
        crate::identifiers::sha256_digest(
            crate::identifiers::prologue_input(self.host, self.query, self.accept, nonce),
        )
    }
}

/// The login on a connection.
pub open spec fn login_view<V: PublicKeyValidator>(
    ids: ConnectionIdentifiers<'_>,
    private_key: Seq<char>,
    validator: V,
) -> LoginView {
    LoginView {
        host: ids.host@,
        query: ids.query@,
        accept: ids.accept@,
        private_key,
        accepts: |public_key: Seq<char>| validator.accepts(public_key),
    }
}

/// One side of the login.
pub trait LoginFlow: Sized {
    /// The invariant of the flow.
    spec fn wf(&self) -> bool;

    /// Whether the flow waits for `event`.
    spec fn expects(&self, event: LoginEvent) -> bool;

    /// How the login ended, once it did: with no error, or with one.
    spec fn outcome(&self) -> Option<Option<LoginError>>;

    /// Whether the flow may become `after`, and ask for `action`, on `event`.
    spec fn step(self, login: LoginView, event: LoginEvent, after: Self, action: LoginAction) -> bool;

    /// A flow on a fresh connection.
    fn new() -> (r: Self)
        ensures
            r.wf(),
            r.expects(LoginEvent::Start),
            r.outcome() is None,
    ;

    /// Takes the login one step further.
    /// Pass the base64 private key.
    fn login<V: PublicKeyValidator>(
        self,
        connection_identifiers: &ConnectionIdentifiers<'_>,
        private_key: &str,
        public_key_validator: &V,
        event: LoginEvent,
    ) -> (r: (Self, LoginAction))
        requires
            self.wf(),
            self.expects(event),
            noise::key_fits(private_key@),
        ensures
            r.0.wf(),
            self.step(
                login_view(*connection_identifiers, private_key@, *public_key_validator),
                event,
                r.0,
                r.1,
            ),
            forall|next: LoginEvent| #[trigger] reports(r.1, next) ==> r.0.expects(next),
            r.1 is Finish <==> r.0.outcome() is Some,
    ;

    /// How the login ended, once it did.
    fn result(&self) -> (r: Option<Result<(), LoginError>>)
        ensures
            match self.outcome() {
                None => r is None,
                Some(None) => r == Some(Ok::<(), LoginError>(())),
                Some(Some(e)) => r == Some(Err::<(), LoginError>(e)),
            },
    ;
}

/// `rand::rng` and `rand::RngCore::fill_bytes`: any 32 bytes.
#[verifier::external_body]
pub(crate) fn nonce() -> (r: [u8; 32]) {
    let mut out = [0u8; 32];
    rand::rng().fill_bytes(&mut out);
    out
}

/// The server side of the login.
pub enum ServerLoginFlow {
    Start,
    SendNonce([u8; 32]),
    ReceiveFirst(NoiseHandshake),
    SendSecond(NoiseHandshake),
    ReceiveThird(NoiseHandshake),
    /// The outcome is on its way to the client.
    Answer(Option<LoginError>),
    Closing(LoginError),
    Done(Option<LoginError>),
}

/// The message with which the server ends every login, whether it succeeded or
/// failed.
pub open spec fn answer() -> Seq<u8> {
    seq![bytes::state_byte(MessageState::Successful)]
}

/// Whether the server ends the login with `outcome`.
pub open spec fn answers(after: ServerLoginFlow, action: LoginAction, outcome: Option<LoginError>) -> bool {
    &&& after == ServerLoginFlow::Answer(outcome)
    &&& action matches LoginAction::Send(message)
    &&& message@ == answer()
}

/// What the server makes of the first handshake message.
pub open spec fn reads_first(
    h: NoiseHandshake,
    message: Option<Vec<u8>>,
    after: ServerLoginFlow,
    action: LoginAction,
) -> bool {
    match message {
        None => answers(after, action, Some(LoginError::ReceiveFirst)),
        Some(first) => if first@.len() != noise::message_len(0) {
            answers(after, action, Some(LoginError::ReadFirst))
        } else {
            ||| answers(after, action, Some(LoginError::WriteSecond))
            ||| {
                &&& after matches ServerLoginFlow::SendSecond(next)
                &&& action matches LoginAction::Send(second)
                &&& noise::written(h@.pushed(first@), second@, next@)
            }
        },
    }
}

/// Whether `h` opens `message` where the other side of the handshake wrote it,
/// and finds the static key with which it was written.
pub open spec fn opens_written(h: NoiseHandshake, message: Seq<u8>) -> bool {
    forall|public: Seq<u8>| #[trigger]
        noise::handshake_message(h@.transcript, public, message) ==> h.opens(message) == Some(public)
}

/// What the server makes of the third handshake message.
pub open spec fn reads_third(
    h: NoiseHandshake,
    accepts: spec_fn(Seq<char>) -> bool,
    message: Option<Vec<u8>>,
    after: ServerLoginFlow,
    action: LoginAction,
) -> bool {
    match message {
        None => answers(after, action, Some(LoginError::ReceiveThird)),
        Some(third) => {
            &&& opens_written(h, third@)
            &&& answers(
                after,
                action,
                match h.opens(third@) {
                    None => Some(LoginError::ReadThird),
                    Some(key) => if accepts(encoding::base64_text(key)) {
                        None
                    } else {
                        Some(LoginError::Validate)
                    },
                },
            )
        },
    }
}

/// Whether `h` is the responder after `position` messages of an intact
/// handshake.
pub open spec fn is_responder_at(h: NoiseHandshake, position: int) -> bool {
    h.wf() && h@.intact && !h@.initiator && h@.position() == position
}

/// Whether `h` is the initiator after `position` messages of an intact
/// handshake.
pub open spec fn is_initiator_at(h: NoiseHandshake, position: int) -> bool {
    h.wf() && h@.intact && h@.initiator && h@.position() == position
}

impl ServerLoginFlow {
    /// Ends the login with `outcome`, and tells the client.
    fn end(outcome: Option<LoginError>) -> (r: (ServerLoginFlow, LoginAction))
        ensures
            answers(r.0, r.1, outcome),
    {
        (ServerLoginFlow::Answer(outcome), LoginAction::Send(state_to_bytes(MessageState::Successful)))
    }

    fn on_nonce_sent(
        connection_identifiers: &ConnectionIdentifiers<'_>,
        private_key: &str,
        nonce: &[u8],
    ) -> (r: (ServerLoginFlow, LoginAction))
        requires
            noise::key_fits(private_key@),
        ensures
            match noise::key_error(private_key@) {
                Some(e) => answers(r.0, r.1, Some(LoginError::Handshake(e))),
                None => r.1 is Receive && (r.0 matches ServerLoginFlow::ReceiveFirst(h) && h.wf()
                    && h@ == noise::fresh_view(false, private_key@, connection_identifiers.prologue(nonce@))),
            },
    {
        let prologue: [u8; 32] = connection_identifiers.hash(nonce);
        match NoiseHandshake::new_responder(private_key, &prologue) {
            Ok(handshake) => (ServerLoginFlow::ReceiveFirst(handshake), LoginAction::Receive),
            Err(e) => ServerLoginFlow::end(Some(LoginError::Handshake(e))),
        }
    }

    fn on_first(handshake: NoiseHandshake, message: Option<Vec<u8>>) -> (r: (ServerLoginFlow, LoginAction))
        requires
            is_responder_at(handshake, 0),
        ensures
            r.0.wf(),
            reads_first(handshake, message, r.0, r.1),
    {
        let mut handshake = handshake;
        let message: Vec<u8> = match message {
            Some(message) => message,
            None => return ServerLoginFlow::end(Some(LoginError::ReceiveFirst)),
        };
        match handshake.read_message(message.as_slice()) {
            Ok(()) => {},
            Err(_) => return ServerLoginFlow::end(Some(LoginError::ReadFirst)),
        }
        match handshake.next_message() {
            Ok(second) => (ServerLoginFlow::SendSecond(handshake), LoginAction::Send(second)),
            Err(_) => ServerLoginFlow::end(Some(LoginError::WriteSecond)),
        }
    }

    fn on_third<V: PublicKeyValidator>(
        handshake: NoiseHandshake,
        public_key_validator: &V,
        message: Option<Vec<u8>>,
    ) -> (r: (ServerLoginFlow, LoginAction))
        requires
            is_responder_at(handshake, 2),
        ensures
            r.0.wf(),
            reads_third(handshake, |key: Seq<char>| public_key_validator.accepts(key), message, r.0, r.1),
    {
        let mut handshake = handshake;
        let message: Vec<u8> = match message {
            Some(message) => message,
            None => return ServerLoginFlow::end(Some(LoginError::ReceiveThird)),
        };
        match handshake.read_message(message.as_slice()) {
            Ok(()) => {},
            Err(_) => return ServerLoginFlow::end(Some(LoginError::ReadThird)),
        }
        // The server now has the public key of the client.
        let public_key: String = match handshake.remote_public_key() {
            Ok(public_key) => public_key,
            Err(_) => return ServerLoginFlow::end(Some(LoginError::RemoteKey)),
        };
        match public_key_validator.validate(public_key) {
            Ok(()) => ServerLoginFlow::end(None),
            Err(_) => ServerLoginFlow::end(Some(LoginError::Validate)),
        }
    }
}

impl LoginFlow for ServerLoginFlow {
    open spec fn wf(&self) -> bool {
        match self {
            ServerLoginFlow::ReceiveFirst(h) => is_responder_at(*h, 0),
            ServerLoginFlow::SendSecond(h) => is_responder_at(*h, 2),
            ServerLoginFlow::ReceiveThird(h) => is_responder_at(*h, 2),
            _ => true,
        }
    }

    open spec fn expects(&self, event: LoginEvent) -> bool {
        match self {
            ServerLoginFlow::Start => event is Start,
            ServerLoginFlow::SendNonce(_) => event is Sent,
            ServerLoginFlow::ReceiveFirst(_) => event is Received,
            ServerLoginFlow::SendSecond(_) => event is Sent,
            ServerLoginFlow::ReceiveThird(_) => event is Received,
            ServerLoginFlow::Answer(_) => event is Sent,
            ServerLoginFlow::Closing(_) => event is Closed,
            ServerLoginFlow::Done(_) => false,
        }
    }

    open spec fn outcome(&self) -> Option<Option<LoginError>> {
        match self {
            ServerLoginFlow::Done(outcome) => Some(*outcome),
            _ => None,
        }
    }

    open spec fn step(
        self,
        login: LoginView,
        event: LoginEvent,
        after: ServerLoginFlow,
        action: LoginAction,
    ) -> bool {
        match (self, event) {
            (ServerLoginFlow::Start, LoginEvent::Start) => {
                &&& after matches ServerLoginFlow::SendNonce(nonce)
                &&& action matches LoginAction::Send(message)
                &&& message@ == nonce@
            },
            (ServerLoginFlow::SendNonce(nonce), LoginEvent::Sent(sent)) => if !sent {
                answers(after, action, Some(LoginError::SendNonce))
            } else {
                match noise::key_error(login.private_key) {
                    Some(e) => answers(after, action, Some(LoginError::Handshake(e))),
                    None => {
                        &&& action is Receive
                        &&& after matches ServerLoginFlow::ReceiveFirst(h)
                        &&& h@ == noise::fresh_view(false, login.private_key, login.prologue(nonce@))
                    },
                }
            },
            (ServerLoginFlow::ReceiveFirst(h), LoginEvent::Received(message)) => reads_first(h, message, after, action),
            (ServerLoginFlow::SendSecond(h), LoginEvent::Sent(sent)) => if !sent {
                answers(after, action, Some(LoginError::SendSecond))
            } else {
                after == ServerLoginFlow::ReceiveThird(h) && action is Receive
            },
            (ServerLoginFlow::ReceiveThird(h), LoginEvent::Received(message)) => reads_third(
                h,
                login.accepts,
                message,
                after,
                action,
            ),
            (ServerLoginFlow::Answer(outcome), LoginEvent::Sent(sent)) => match outcome {
                None => {
                    &&& action is Finish
                    &&& after == ServerLoginFlow::Done(if sent { None } else { Some(LoginError::SendOutcome) })
                },
                Some(e) => if sent {
                    after == ServerLoginFlow::Done(Some(e)) && action is Finish
                } else {
                    after == ServerLoginFlow::Closing(e) && action is Close
                },
            },
            (ServerLoginFlow::Closing(e), LoginEvent::Closed) => {
                after == ServerLoginFlow::Done(Some(e)) && action is Finish
            },
            _ => false,
        }
    }

    fn new() -> (r: ServerLoginFlow)
        ensures
            r == ServerLoginFlow::Start,
    {
        ServerLoginFlow::Start
    }

    fn login<V: PublicKeyValidator>(
        self,
        connection_identifiers: &ConnectionIdentifiers<'_>,
        private_key: &str,
        public_key_validator: &V,
        event: LoginEvent,
    ) -> (r: (ServerLoginFlow, LoginAction)) {
        match (self, event) {
            (ServerLoginFlow::Start, LoginEvent::Start) => {
                // The server generates a random nonce and sends it to the client.
                let nonce: [u8; 32] = nonce();
                let mut message: Vec<u8> = Vec::new();
                message.extend_from_slice(&nonce);
                assert(message@ =~= nonce@);
                (ServerLoginFlow::SendNonce(nonce), LoginAction::Send(message))
            },
            (ServerLoginFlow::SendNonce(nonce), LoginEvent::Sent(sent)) => {
                if !sent {
                    return ServerLoginFlow::end(Some(LoginError::SendNonce));
                }
                ServerLoginFlow::on_nonce_sent(connection_identifiers, private_key, &nonce)
            },
            (ServerLoginFlow::ReceiveFirst(handshake), LoginEvent::Received(message)) => {
                ServerLoginFlow::on_first(handshake, message)
            },
            (ServerLoginFlow::SendSecond(handshake), LoginEvent::Sent(sent)) => {
                if !sent {
                    return ServerLoginFlow::end(Some(LoginError::SendSecond));
                }
                (ServerLoginFlow::ReceiveThird(handshake), LoginAction::Receive)
            },
            (ServerLoginFlow::ReceiveThird(handshake), LoginEvent::Received(message)) => {
                ServerLoginFlow::on_third(handshake, public_key_validator, message)
            },
            (ServerLoginFlow::Answer(outcome), LoginEvent::Sent(sent)) => match outcome {
                None => {
                    let end: Option<LoginError> = if sent { None } else { Some(LoginError::SendOutcome) };
                    (ServerLoginFlow::Done(end), LoginAction::Finish)
                },
                Some(e) => {
                    if sent {
                        (ServerLoginFlow::Done(Some(e)), LoginAction::Finish)
                    } else {
                        (ServerLoginFlow::Closing(e), LoginAction::Close)
                    }
                },
            },
            (ServerLoginFlow::Closing(e), _) => (ServerLoginFlow::Done(Some(e)), LoginAction::Finish),
            (flow, _) => (flow, LoginAction::Finish),
        }
    }

    fn result(&self) -> (r: Option<Result<(), LoginError>>) {
        match self {
            ServerLoginFlow::Done(None) => Some(Ok(())),
            ServerLoginFlow::Done(Some(e)) => Some(Err(*e)),
            _ => None,
        }
    }
}

/// The client side of the login.
pub enum ClientLoginFlow {
    Start,
    ReceiveNonce,
    SendFirst(NoiseHandshake),
    ReceiveSecond(NoiseHandshake),
    SendThird,
    ReceiveState,
    Done(Option<LoginError>),
}

/// Whether the client ends the login with `outcome`.
pub open spec fn finishes(after: ClientLoginFlow, action: LoginAction, outcome: Option<LoginError>) -> bool {
    after == ClientLoginFlow::Done(outcome) && action is Finish
}

/// What the client makes of the connection nonce.
pub open spec fn reads_nonce(
    login: LoginView,
    message: Option<Vec<u8>>,
    after: ClientLoginFlow,
    action: LoginAction,
) -> bool {
    match message {
        None => finishes(after, action, Some(LoginError::ReceiveNonce)),
        Some(nonce) => match noise::key_error(login.private_key) {
            Some(e) => finishes(after, action, Some(LoginError::Handshake(e))),
            None => {
                ||| finishes(after, action, Some(LoginError::WriteFirst))
                ||| {
                    &&& after matches ClientLoginFlow::SendFirst(h)
                    &&& action matches LoginAction::Send(first)
                    &&& noise::written(
                        noise::fresh_view(true, login.private_key, login.prologue(nonce@)),
                        first@,
                        h@,
                    )
                }
            },
        },
    }
}

/// What the client makes of the second handshake message.
pub open spec fn reads_second(
    h: NoiseHandshake,
    accepts: spec_fn(Seq<char>) -> bool,
    message: Option<Vec<u8>>,
    after: ClientLoginFlow,
    action: LoginAction,
) -> bool {
    match message {
        None => finishes(after, action, Some(LoginError::ReceiveSecond)),
        Some(second) => {
            &&& opens_written(h, second@)
            &&& match h.opens(second@) {
                None => finishes(after, action, Some(LoginError::ReadSecond)),
                Some(key) => if !accepts(encoding::base64_text(key)) {
                    finishes(after, action, Some(LoginError::Validate))
                } else {
                    &&& after is SendThird
                    &&& action matches LoginAction::Send(third)
                    &&& third@.len() == noise::message_len(2)
                    &&& noise::handshake_message(h@.transcript.push(second@), h@.local_public, third@)
                },
            }
        },
    }
}

/// What the client makes of the authentication state message.
pub open spec fn state_outcome(message: Option<Vec<u8>>) -> Option<LoginError> {
    match message {
        None => Some(LoginError::ReceiveState),
        Some(state) => if state@.len() == 0 {
            Some(LoginError::NoState)
        } else if bytes::byte_state(state@[0]) == MessageState::Successful {
            None
        } else {
            Some(LoginError::Rejected)
        },
    }
}

impl ClientLoginFlow {
    /// Ends the login with `outcome`.
    fn end(outcome: Option<LoginError>) -> (r: (ClientLoginFlow, LoginAction))
        ensures
            finishes(r.0, r.1, outcome),
    {
        (ClientLoginFlow::Done(outcome), LoginAction::Finish)
    }

    fn on_nonce(
        connection_identifiers: &ConnectionIdentifiers<'_>,
        private_key: &str,
        message: Option<Vec<u8>>,
        Ghost(login): Ghost<LoginView>,
    ) -> (r: (ClientLoginFlow, LoginAction))
        requires
            noise::key_fits(private_key@),
            login.private_key == private_key@,
            forall|nonce: Seq<u8>| #[trigger] login.prologue(nonce) == connection_identifiers.prologue(nonce),
        ensures
            r.0.wf(),
            reads_nonce(login, message, r.0, r.1),
            r.0 is SendFirst || r.0 is Done,
    {
        let nonce: Vec<u8> = match message {
            Some(nonce) => nonce,
            None => return ClientLoginFlow::end(Some(LoginError::ReceiveNonce)),
        };
        let prologue: [u8; 32] = connection_identifiers.hash(nonce.as_slice());
        assert(login.prologue(nonce@) == prologue@);
        let mut handshake: NoiseHandshake = match NoiseHandshake::new_initiator(private_key, &prologue) {
            Ok(handshake) => handshake,
            Err(e) => return ClientLoginFlow::end(Some(LoginError::Handshake(e))),
        };
        match handshake.next_message() {
            Ok(first) => (ClientLoginFlow::SendFirst(handshake), LoginAction::Send(first)),
            Err(_) => ClientLoginFlow::end(Some(LoginError::WriteFirst)),
        }
    }

    fn on_second<V: PublicKeyValidator>(
        handshake: NoiseHandshake,
        public_key_validator: &V,
        message: Option<Vec<u8>>,
    ) -> (r: (ClientLoginFlow, LoginAction))
        requires
            is_initiator_at(handshake, 1),
        ensures
            r.0.wf(),
            reads_second(handshake, |key: Seq<char>| public_key_validator.accepts(key), message, r.0, r.1),
    {
        let mut handshake = handshake;
        let message: Vec<u8> = match message {
            Some(message) => message,
            None => return ClientLoginFlow::end(Some(LoginError::ReceiveSecond)),
        };
        match handshake.read_message(message.as_slice()) {
            Ok(()) => {},
            Err(_) => return ClientLoginFlow::end(Some(LoginError::ReadSecond)),
        }
        // The client now has the public key of the server.
        let public_key: String = match handshake.remote_public_key() {
            Ok(public_key) => public_key,
            Err(_) => return ClientLoginFlow::end(Some(LoginError::RemoteKey)),
        };
        match public_key_validator.validate(public_key) {
            Ok(()) => {},
            Err(_) => return ClientLoginFlow::end(Some(LoginError::Validate)),
        }
        match handshake.next_message() {
            Ok(third) => (ClientLoginFlow::SendThird, LoginAction::Send(third)),
            Err(_) => ClientLoginFlow::end(Some(LoginError::WriteThird)),
        }
    }

    fn on_state(message: Option<Vec<u8>>) -> (r: (ClientLoginFlow, LoginAction))
        ensures
            finishes(r.0, r.1, state_outcome(message)),
    {
        let state: Vec<u8> = match message {
            Some(state) => state,
            None => return ClientLoginFlow::end(Some(LoginError::ReceiveState)),
        };
        if state.len() == 0 {
            return ClientLoginFlow::end(Some(LoginError::NoState));
        }
        match MessageState::from_byte(state[0]) {
            MessageState::Successful => ClientLoginFlow::end(None),
            _ => ClientLoginFlow::end(Some(LoginError::Rejected)),
        }
    }
}

impl LoginFlow for ClientLoginFlow {
    open spec fn wf(&self) -> bool {
        match self {
            ClientLoginFlow::SendFirst(h) => is_initiator_at(*h, 1),
            ClientLoginFlow::ReceiveSecond(h) => is_initiator_at(*h, 1),
            _ => true,
        }
    }

    open spec fn expects(&self, event: LoginEvent) -> bool {
        match self {
            ClientLoginFlow::Start => event is Start,
            ClientLoginFlow::ReceiveNonce => event is Received,
            ClientLoginFlow::SendFirst(_) => event is Sent,
            ClientLoginFlow::ReceiveSecond(_) => event is Received,
            ClientLoginFlow::SendThird => event is Sent,
            ClientLoginFlow::ReceiveState => event is Received,
            ClientLoginFlow::Done(_) => false,
        }
    }

    open spec fn outcome(&self) -> Option<Option<LoginError>> {
        match self {
            ClientLoginFlow::Done(outcome) => Some(*outcome),
            _ => None,
        }
    }

    open spec fn step(
        self,
        login: LoginView,
        event: LoginEvent,
        after: ClientLoginFlow,
        action: LoginAction,
    ) -> bool {
        match (self, event) {
            (ClientLoginFlow::Start, LoginEvent::Start) => after is ReceiveNonce && action is Receive,
            (ClientLoginFlow::ReceiveNonce, LoginEvent::Received(message)) => reads_nonce(login, message, after, action),
            (ClientLoginFlow::SendFirst(h), LoginEvent::Sent(sent)) => if !sent {
                finishes(after, action, Some(LoginError::SendFirst))
            } else {
                after == ClientLoginFlow::ReceiveSecond(h) && action is Receive
            },
            (ClientLoginFlow::ReceiveSecond(h), LoginEvent::Received(message)) => reads_second(
                h,
                login.accepts,
                message,
                after,
                action,
            ),
            (ClientLoginFlow::SendThird, LoginEvent::Sent(sent)) => if !sent {
                finishes(after, action, Some(LoginError::SendThird))
            } else {
                after is ReceiveState && action is Receive
            },
            (ClientLoginFlow::ReceiveState, LoginEvent::Received(message)) => finishes(
                after,
                action,
                state_outcome(message),
            ),
            _ => false,
        }
    }

    fn new() -> (r: ClientLoginFlow)
        ensures
            r == ClientLoginFlow::Start,
    {
        ClientLoginFlow::Start
    }

    fn login<V: PublicKeyValidator>(
        self,
        connection_identifiers: &ConnectionIdentifiers<'_>,
        private_key: &str,
        public_key_validator: &V,
        event: LoginEvent,
    ) -> (r: (ClientLoginFlow, LoginAction)) {
        let ghost login = login_view(*connection_identifiers, private_key@, *public_key_validator);
        match (self, event) {
            (ClientLoginFlow::Start, _) => (ClientLoginFlow::ReceiveNonce, LoginAction::Receive),
            (ClientLoginFlow::ReceiveNonce, LoginEvent::Received(message)) => {
                ClientLoginFlow::on_nonce(connection_identifiers, private_key, message, Ghost(login))
            },
            (ClientLoginFlow::SendFirst(handshake), LoginEvent::Sent(sent)) => {
                if !sent {
                    return ClientLoginFlow::end(Some(LoginError::SendFirst));
                }
                (ClientLoginFlow::ReceiveSecond(handshake), LoginAction::Receive)
            },
            (ClientLoginFlow::ReceiveSecond(handshake), LoginEvent::Received(message)) => {
                ClientLoginFlow::on_second(handshake, public_key_validator, message)
            },
            (ClientLoginFlow::SendThird, LoginEvent::Sent(sent)) => {
                if !sent {
                    return ClientLoginFlow::end(Some(LoginError::SendThird));
                }
                (ClientLoginFlow::ReceiveState, LoginAction::Receive)
            },
            (ClientLoginFlow::ReceiveState, LoginEvent::Received(message)) => ClientLoginFlow::on_state(message),
            (flow, _) => (flow, LoginAction::Finish),
        }
    }

    fn result(&self) -> (r: Option<Result<(), LoginError>>) {
        match self {
            ClientLoginFlow::Done(None) => Some(Ok(())),
            ClientLoginFlow::Done(Some(e)) => Some(Err(*e)),
            _ => None,
        }
    }
}

/// Whether `flows` is a run of one side of the login: what it was at first and
/// after each of `events`, with the actions that it asked for.
pub open spec fn is_run<F: LoginFlow>(
    login: LoginView,
    flows: Seq<F>,
    events: Seq<LoginEvent>,
    actions: Seq<LoginAction>,
) -> bool {
    &&& flows.len() == events.len() + 1
    &&& actions.len() == events.len()
    &&& forall|i: int|
        #![trigger events[i]]
        0 <= i < events.len() ==> flows[i].step(login, events[i], flows[i + 1], actions[i])
}

/// Whether the server, which sent the nonce with `nonce`, reads in `event` a
/// handshake message that proves a public key which it accepts, in a handshake
/// bound to the nonce and to the identifiers of the connection.
pub open spec fn client_is_validated(
    login: LoginView,
    nonce: LoginAction,
    flow: ServerLoginFlow,
    event: LoginEvent,
) -> bool {
    &&& nonce matches LoginAction::Send(nonce)
    &&& flow matches ServerLoginFlow::ReceiveThird(h)
    &&& h@.transcript[0] == login.prologue(nonce@)
    &&& event matches LoginEvent::Received(Some(third))
    &&& h.opens(third@) matches Some(key)
    &&& (login.accepts)(encoding::base64_text(key))
}

/// Whether the client, to which the nonce came with `nonce`, reads in `event` a
/// handshake message that proves a public key which it accepts, in a handshake
/// bound to the nonce and to the identifiers of the connection.
pub open spec fn server_is_validated(
    login: LoginView,
    nonce: LoginEvent,
    flow: ClientLoginFlow,
    event: LoginEvent,
) -> bool {
    &&& nonce matches LoginEvent::Received(Some(nonce))
    &&& flow matches ClientLoginFlow::ReceiveSecond(h)
    &&& h@.transcript[0] == login.prologue(nonce@)
    &&& event matches LoginEvent::Received(Some(second))
    &&& h.opens(second@) matches Some(key)
    &&& (login.accepts)(encoding::base64_text(key))
}

/// Whether the server is past a failure.
pub open spec fn has_failed(flow: ServerLoginFlow) -> bool {
    match flow {
        ServerLoginFlow::Answer(outcome) => outcome is Some,
        ServerLoginFlow::Closing(_) => true,
        ServerLoginFlow::Done(outcome) => outcome is Some,
        _ => false,
    }
}

/// A failure of the server stays one.
proof fn lemma_failure_stays(
    login: LoginView,
    flows: Seq<ServerLoginFlow>,
    events: Seq<LoginEvent>,
    actions: Seq<LoginAction>,
    i: int,
    j: int,
)
    requires
        is_run(login, flows, events, actions),
        0 <= i <= j < flows.len(),
        has_failed(flows[i]),
    ensures
        has_failed(flows[j]),
    decreases j - i,
{
    if i < j {
        lemma_failure_stays(login, flows, events, actions, i, j - 1);
        let event = events[j - 1];
    }
}

/// A login that succeeds at the server went through the whole handshake: the
/// server sent a nonce, the handshake is bound to it and to the identifiers of
/// the connection, the client proved a public key in it, the validator of the
/// server accepts that key, and the client was told.
pub proof fn law_server_success(
    login: LoginView,
    flows: Seq<ServerLoginFlow>,
    events: Seq<LoginEvent>,
    actions: Seq<LoginAction>,
)
    requires
        is_run(login, flows, events, actions),
        flows[0] is Start,
        flows.last().outcome() == Some(None::<LoginError>),
    ensures
        flows.len() == 7,
        client_is_validated(login, actions[0], flows[4], events[4]),
        actions[4] matches LoginAction::Send(message) && message@ == answer(),
        events[5] == LoginEvent::Sent(true),
{
    let last = flows.len() - 1;
    assert forall|i: int| 0 <= i < flows.len() implies !#[trigger] has_failed(flows[i]) by {
        if has_failed(flows[i]) {
            lemma_failure_stays(login, flows, events, actions, i, last);
        }
    }
    let e0 = events[0];
    assert(flows[1] is SendNonce);
    assert(!has_failed(flows[2]));
    let e1 = events[1];
    assert(flows[2] is ReceiveFirst);
    assert(!has_failed(flows[3]));
    let e2 = events[2];
    assert(flows[3] is SendSecond);
    assert(!has_failed(flows[4]));
    let e3 = events[3];
    assert(flows[4] is ReceiveThird);
    assert(!has_failed(flows[5]));
    let e4 = events[4];
    assert(flows[5] == ServerLoginFlow::Answer(None));
    assert(!has_failed(flows[6]));
    let e5 = events[5];
    assert(flows[6] == ServerLoginFlow::Done(None));
    if flows.len() > 7 {
        let e6 = events[6];
    }
}

/// A login that succeeds at the client went through the whole handshake: the
/// handshake is bound to the nonce that came and to the identifiers of the
/// connection, the server proved a public key in it, the validator of the
/// client accepts that key, and the server said that the login succeeded.
pub proof fn law_client_success(
    login: LoginView,
    flows: Seq<ClientLoginFlow>,
    events: Seq<LoginEvent>,
    actions: Seq<LoginAction>,
)
    requires
        is_run(login, flows, events, actions),
        flows[0] is Start,
        flows.last().outcome() == Some(None::<LoginError>),
    ensures
        flows.len() == 7,
        server_is_validated(login, events[1], flows[3], events[3]),
        events[5] matches LoginEvent::Received(Some(state)) && state@.len() > 0
            && bytes::byte_state(state@[0]) == MessageState::Successful,
{
    let e0 = events[0];
    assert(flows[1] is ReceiveNonce);
    let e1 = events[1];
    if flows[2] is Done && flows.len() > 3 {
        let e2 = events[2];
    }
    assert(flows[2] is SendFirst);
    let e2 = events[2];
    if flows[3] is Done && flows.len() > 4 {
        let e3 = events[3];
    }
    assert(flows[3] is ReceiveSecond);
    let e3 = events[3];
    if flows[4] is Done && flows.len() > 5 {
        let e4 = events[4];
    }
    assert(flows[4] is SendThird);
    let e4 = events[4];
    if flows[5] is Done && flows.len() > 6 {
        let e5 = events[5];
    }
    assert(flows[5] is ReceiveState);
    let e5 = events[5];
    assert(flows[6] is Done);
    if flows.len() > 7 {
        let e6 = events[6];
    }
}

/// How far the server is.
pub open spec fn server_rank(flow: ServerLoginFlow) -> int {
    match flow {
        ServerLoginFlow::Start => 0,
        ServerLoginFlow::SendNonce(_) => 1,
        ServerLoginFlow::ReceiveFirst(_) => 2,
        ServerLoginFlow::SendSecond(_) => 3,
        ServerLoginFlow::ReceiveThird(_) => 4,
        ServerLoginFlow::Answer(_) => 5,
        ServerLoginFlow::Closing(_) => 6,
        ServerLoginFlow::Done(_) => 7,
    }
}

/// Every login ends at the server, after at most seven events.
pub proof fn law_server_login_ends(
    login: LoginView,
    flows: Seq<ServerLoginFlow>,
    events: Seq<LoginEvent>,
    actions: Seq<LoginAction>,
)
    requires
        is_run(login, flows, events, actions),
    ensures
        events.len() <= 7,
        events.len() <= server_rank(flows.last()),
    decreases events.len(),
{
    if events.len() > 0 {
        let n = events.len() - 1;
        assert forall|i: int| 0 <= i < n implies flows.drop_last()[i].step(
            login,
            #[trigger] events.drop_last()[i],
            flows.drop_last()[i + 1],
            actions.drop_last()[i],
        ) by {
            let event = events[i];
        }
        law_server_login_ends(login, flows.drop_last(), events.drop_last(), actions.drop_last());
        let event = events[n];
        assert(flows.drop_last().last() == flows[n]);
    }
}

/// How far the client is.
pub open spec fn client_rank(flow: ClientLoginFlow) -> int {
    match flow {
        ClientLoginFlow::Start => 0,
        ClientLoginFlow::ReceiveNonce => 1,
        ClientLoginFlow::SendFirst(_) => 2,
        ClientLoginFlow::ReceiveSecond(_) => 3,
        ClientLoginFlow::SendThird => 4,
        ClientLoginFlow::ReceiveState => 5,
        ClientLoginFlow::Done(_) => 6,
    }
}

/// Every login ends at the client, after at most six events.
pub proof fn law_client_login_ends(
    login: LoginView,
    flows: Seq<ClientLoginFlow>,
    events: Seq<LoginEvent>,
    actions: Seq<LoginAction>,
)
    requires
        is_run(login, flows, events, actions),
    ensures
        events.len() <= 6,
        events.len() <= client_rank(flows.last()),
    decreases events.len(),
{
    if events.len() > 0 {
        let n = events.len() - 1;
        assert forall|i: int| 0 <= i < n implies flows.drop_last()[i].step(
            login,
            #[trigger] events.drop_last()[i],
            flows.drop_last()[i + 1],
            actions.drop_last()[i],
        ) by {
            let event = events[i];
        }
        law_client_login_ends(login, flows.drop_last(), events.drop_last(), actions.drop_last());
        let event = events[n];
        assert(flows.drop_last().last() == flows[n]);
    }
}

/// The server tells the client of every login, and tells it of a failure what
/// it tells it of a success.
pub proof fn law_every_login_is_answered_alike(
    login: LoginView,
    before: ServerLoginFlow,
    event: LoginEvent,
    after: ServerLoginFlow,
    action: LoginAction,
)
    requires
        before.step(login, event, after, action),
    ensures
        after is Answer ==> (action matches LoginAction::Send(message) && message@ == answer()),
        after is Done ==> before is Answer || before is Closing,
        after is Closing ==> before is Answer,
{
}

/// Whether what `event` reports to one side is what the other side sent.
pub open spec fn delivered(action: LoginAction, event: LoginEvent) -> bool {
    &&& action matches LoginAction::Send(sent)
    &&& event matches LoginEvent::Received(Some(received))
    &&& sent@ == received@
}

/// Two sides that agree on the identifiers of the connection, that accept each
/// other's public key, and that get every message of the other unchanged, both
/// log in. Only a side whose machine has no random bytes to give can fail.
pub proof fn law_honest_login(
    server: LoginView,
    client: LoginView,
    s: Seq<ServerLoginFlow>,
    s_events: Seq<LoginEvent>,
    s_actions: Seq<LoginAction>,
    c: Seq<ClientLoginFlow>,
    c_events: Seq<LoginEvent>,
    c_actions: Seq<LoginAction>,
)
    requires
        server.host == client.host && server.query == client.query && server.accept == client.accept,
        noise::key_error(server.private_key) is None,
        noise::key_error(client.private_key) is None,
        (server.accepts)(noise::public_key_of(client.private_key)),
        (client.accepts)(noise::public_key_of(server.private_key)),
        is_run(server, s, s_events, s_actions) && s[0] is Start,
        is_run(client, c, c_events, c_actions) && c[0] is Start,
        s.last().outcome() is Some && s.last().outcome() != Some(Some(LoginError::WriteSecond)),
        c.last().outcome() is Some && c.last().outcome() != Some(Some(LoginError::WriteFirst)),
        forall|i: int| 0 <= i < s_events.len() && (#[trigger] s_events[i]) is Sent ==> s_events[i]->Sent_0,
        forall|i: int| 0 <= i < c_events.len() && (#[trigger] c_events[i]) is Sent ==> c_events[i]->Sent_0,
        c_events.len() > 1 ==> s_actions.len() > 0 && delivered(s_actions[0], c_events[1]),
        s_events.len() > 2 ==> c_actions.len() > 1 && delivered(c_actions[1], s_events[2]),
        c_events.len() > 3 ==> s_actions.len() > 2 && delivered(s_actions[2], c_events[3]),
        s_events.len() > 4 ==> c_actions.len() > 3 && delivered(c_actions[3], s_events[4]),
        c_events.len() > 5 ==> s_actions.len() > 4 && delivered(s_actions[4], c_events[5]),
    ensures
        s.last().outcome() == Some(None::<LoginError>),
        c.last().outcome() == Some(None::<LoginError>),
{
    let s0 = s_events[0];
    assert(s[1] is SendNonce);
    let c0 = c_events[0];
    assert(c[1] is ReceiveNonce);
    let nonce = s_actions[0]->Send_0@;
    let prologue = server.prologue(nonce);
    let s1 = s_events[1];
    assert(s[2] is ReceiveFirst);
    let s2 = s[2]->ReceiveFirst_0;
    let c1 = c_events[1];
    if c[2] is Done && c.len() > 3 {
        let event = c_events[2];
    }
    assert(c[2] is SendFirst);
    let first = c_actions[1]->Send_0@;
    let event = c_events[2];
    assert(c[3] is ReceiveSecond);
    let c3 = c[3]->ReceiveSecond_0;
    assert(c3@.transcript =~= seq![prologue].push(first));
    let event = s_events[2];
    if s[3] is Answer {
        let event = s_events[3];
        if s.len() > 5 {
            let event = s_events[4];
        }
    }
    assert(s[3] is SendSecond);
    let second = s_actions[2]->Send_0@;
    let event = s_events[3];
    assert(s[4] is ReceiveThird);
    let s4 = s[4]->ReceiveThird_0;
    let event = c_events[3];
    assert(noise::handshake_message(c3@.transcript, s2@.local_public, second));
    assert(c3.opens(second) == Some(s2@.local_public));
    assert(c[4] is SendThird);
    let third = c_actions[3]->Send_0@;
    let event = c_events[4];
    assert(c[5] is ReceiveState);
    let event = s_events[4];
    assert(s4@.transcript =~= c3@.transcript.push(second));
    assert(noise::handshake_message(s4@.transcript, c3@.local_public, third));
    assert(s4.opens(third) == Some(c3@.local_public));
    assert(s[5] == ServerLoginFlow::Answer(None));
    let event = s_events[5];
    assert(s[6] == ServerLoginFlow::Done(None));
    if s.len() > 7 {
        let event = s_events[6];
    }
    let event = c_events[5];
    assert(c[6] == ClientLoginFlow::Done(None));
    if c.len() > 7 {
        let event = c_events[6];
    }
}

/// A login is about the connection that it is on, the private key that it was
/// given, and the keys that its validator accepts; the prologue of its handshake
/// is the one of the connection.
pub proof fn law_login_is_about_its_connection<V: PublicKeyValidator>(
    ids: ConnectionIdentifiers<'_>,
    private_key: Seq<char>,
    validator: V,
    nonce: Seq<u8>,
    key: Seq<char>,
)
    ensures
        login_view(ids, private_key, validator).host == ids.host@,
        login_view(ids, private_key, validator).query == ids.query@,
        login_view(ids, private_key, validator).accept == ids.accept@,
        login_view(ids, private_key, validator).private_key == private_key,
        (login_view(ids, private_key, validator).accepts)(key) <==> validator.accepts(key),
        login_view(ids, private_key, validator).prologue(nonce) == ids.prologue(nonce),
{
}

/// How the server gets from one step of the login to the next, and with which
/// error it ends the login where a step fails. A client whose key is not
/// accepted fails with that, whatever it sent; a failure to tell the client of a
/// success is a failure too, and any other failure stays the one that it was.
pub proof fn law_server_login_steps(
    login: LoginView,
    before: ServerLoginFlow,
    event: LoginEvent,
    after: ServerLoginFlow,
    action: LoginAction,
)
    requires
        before.step(login, event, after, action),
    ensures
        before is Start ==> (after matches ServerLoginFlow::SendNonce(nonce) && action is Send && action->Send_0@
            == nonce@),
        before matches ServerLoginFlow::SendNonce(nonce) ==> {
            &&& event == LoginEvent::Sent(false) ==> after == ServerLoginFlow::Answer(Some(LoginError::SendNonce))
            &&& event == LoginEvent::Sent(true) ==> match noise::key_error(login.private_key) {
                Some(e) => after == ServerLoginFlow::Answer(Some(LoginError::Handshake(e))),
                None => after is ReceiveFirst && action is Receive && after->ReceiveFirst_0@ == noise::fresh_view(
                    false,
                    login.private_key,
                    login.prologue(nonce@),
                ),
            }
        },
        before matches ServerLoginFlow::ReceiveFirst(h) ==> {
            &&& event == LoginEvent::Received(None) ==> after == ServerLoginFlow::Answer(
                Some(LoginError::ReceiveFirst),
            )
            &&& event matches LoginEvent::Received(Some(first)) ==> {
                &&& first@.len() != 32 ==> after == ServerLoginFlow::Answer(Some(LoginError::ReadFirst))
                &&& first@.len() == 32 ==> after is SendSecond || after == ServerLoginFlow::Answer(
                    Some(LoginError::WriteSecond),
                )
                &&& after is SendSecond ==> action is Send && noise::handshake_message(
                    h@.transcript.push(first@),
                    h@.local_public,
                    action->Send_0@,
                )
            }
        },
        before matches ServerLoginFlow::SendSecond(h) ==> {
            &&& event == LoginEvent::Sent(false) ==> after == ServerLoginFlow::Answer(Some(LoginError::SendSecond))
            &&& event == LoginEvent::Sent(true) ==> after == ServerLoginFlow::ReceiveThird(h) && action is Receive
        },
        before matches ServerLoginFlow::ReceiveThird(h) ==> {
            &&& event == LoginEvent::Received(None) ==> after == ServerLoginFlow::Answer(
                Some(LoginError::ReceiveThird),
            )
            &&& event matches LoginEvent::Received(Some(third)) ==> {
                &&& h.opens(third@) is None ==> after == ServerLoginFlow::Answer(Some(LoginError::ReadThird))
                &&& h.opens(third@) matches Some(key) ==> {
                    &&& (login.accepts)(encoding::base64_text(key)) ==> after == ServerLoginFlow::Answer(None)
                    &&& !(login.accepts)(encoding::base64_text(key)) ==> after == ServerLoginFlow::Answer(
                        Some(LoginError::Validate),
                    )
                }
            }
        },
        after is Answer ==> action is Send && action->Send_0@ == seq![2u8],
        before == ServerLoginFlow::Answer(None) && event == LoginEvent::Sent(true) ==> after == ServerLoginFlow::Done(
            None,
        ),
        before == ServerLoginFlow::Answer(None) && event == LoginEvent::Sent(false) ==> after == ServerLoginFlow::Done(
            Some(LoginError::SendOutcome),
        ),
        before matches ServerLoginFlow::Answer(Some(e)) ==> {
            &&& event == LoginEvent::Sent(true) ==> after == ServerLoginFlow::Done(Some(e)) && action is Finish
            &&& event == LoginEvent::Sent(false) ==> after == ServerLoginFlow::Closing(e) && action is Close
        },
        before matches ServerLoginFlow::Closing(e) ==> after == ServerLoginFlow::Done(Some(e)) && action is Finish,
{
}

/// How the client gets from one step of the login to the next, and with which
/// error it ends the login where a step fails. It proves its own key only to a
/// server whose key it accepts, and is logged in where the server says so with
/// the byte 2.
pub proof fn law_client_login_steps(
    login: LoginView,
    before: ClientLoginFlow,
    event: LoginEvent,
    after: ClientLoginFlow,
    action: LoginAction,
)
    requires
        before.step(login, event, after, action),
    ensures
        before is Start ==> after is ReceiveNonce && action is Receive,
        before is ReceiveNonce ==> {
            &&& event == LoginEvent::Received(None) ==> after == ClientLoginFlow::Done(Some(LoginError::ReceiveNonce))
            &&& event matches LoginEvent::Received(Some(nonce)) ==> match noise::key_error(login.private_key) {
                Some(e) => after == ClientLoginFlow::Done(Some(LoginError::Handshake(e))),
                None => after == ClientLoginFlow::Done(Some(LoginError::WriteFirst)) || (after is SendFirst && action
                    is Send && after->SendFirst_0@ == noise::fresh_view(
                    true,
                    login.private_key,
                    login.prologue(nonce@),
                ).pushed(action->Send_0@)),
            }
        },
        before matches ClientLoginFlow::SendFirst(h) ==> {
            &&& event == LoginEvent::Sent(false) ==> after == ClientLoginFlow::Done(Some(LoginError::SendFirst))
            &&& event == LoginEvent::Sent(true) ==> after == ClientLoginFlow::ReceiveSecond(h) && action is Receive
        },
        before matches ClientLoginFlow::ReceiveSecond(h) ==> {
            &&& event == LoginEvent::Received(None) ==> after == ClientLoginFlow::Done(
                Some(LoginError::ReceiveSecond),
            )
            &&& event matches LoginEvent::Received(Some(second)) ==> {
                &&& h.opens(second@) is None ==> after == ClientLoginFlow::Done(Some(LoginError::ReadSecond))
                &&& h.opens(second@) matches Some(key) ==> {
                    &&& !(login.accepts)(encoding::base64_text(key)) ==> after == ClientLoginFlow::Done(
                        Some(LoginError::Validate),
                    )
                    &&& (login.accepts)(encoding::base64_text(key)) ==> after is SendThird && action is Send
                        && noise::handshake_message(
                        h@.transcript.push(second@),
                        h@.local_public,
                        action->Send_0@,
                    )
                }
            }
        },
        before is SendThird ==> {
            &&& event == LoginEvent::Sent(false) ==> after == ClientLoginFlow::Done(Some(LoginError::SendThird))
            &&& event == LoginEvent::Sent(true) ==> after is ReceiveState && action is Receive
        },
        before is ReceiveState ==> {
            &&& event == LoginEvent::Received(None) ==> after == ClientLoginFlow::Done(Some(LoginError::ReceiveState))
            &&& event matches LoginEvent::Received(Some(state)) ==> {
                &&& state@.len() == 0 ==> after == ClientLoginFlow::Done(Some(LoginError::NoState))
                &&& state@.len() > 0 && state@[0] == 2 ==> after == ClientLoginFlow::Done(None)
                &&& state@.len() > 0 && state@[0] != 2 ==> after == ClientLoginFlow::Done(Some(LoginError::Rejected))
            }
        },
{
}

} // verus!
