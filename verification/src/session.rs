//! A session on a logged in websocket: the messages of a buffered channel are
//! forwarded to it, and what comes from it is handed on.

use vstd::prelude::*;
use crate::channel::BufferedReceiver;

verus! {

/// How an end of a connection runs its sessions.
#[derive(Debug, Clone, Copy, PartialEq, Eq, Structural)]
pub struct SessionPolicy {
    /// A failure to write is stored as the error of the connection.
    pub stores_write_errors: bool,
    /// The end of the connection is stored as its error.
    pub stores_close: bool,
    /// A failure to read is stored as the error of the connection, and reading
    /// goes on; else it stops.
    pub survives_read_errors: bool,
    /// Reading stops when the stream is closed.
    pub stops_when_closed: bool,
    /// The session is over when both directions have stopped, and one that stops
    /// cancels the other; else it is over when one has stopped.
    pub joins: bool,
    /// A direction that stops cancels the whole connection; else no more than
    /// its session.
    pub cancels_connection: bool,
}

/// What a direction that stops cancels.
#[derive(Debug, Clone, Copy, PartialEq, Eq, Structural)]
pub enum CancelScope {
    /// The session.
    Session,
    /// The connection, and with it the session.
    Connection,
}

/// The ends of connections.
#[derive(Debug, Clone, Copy, PartialEq, Eq, Structural)]
pub enum SessionKind {
    /// A client that reconnects.
    ReconnectingClient,
    /// A core with a periphery.
    Core,
    /// A periphery client.
    PeripheryClient,
    /// A periphery with a core.
    Periphery,
}

/// How an end of a connection runs its sessions.
pub open spec fn policy_of(kind: SessionKind) -> SessionPolicy {
    match kind {
        SessionKind::ReconnectingClient => SessionPolicy {
            stores_write_errors: false,
            stores_close: false,
            survives_read_errors: false,
            stops_when_closed: true,
            joins: true,
            cancels_connection: true,
        },
        SessionKind::Core => SessionPolicy {
            stores_write_errors: true,
            stores_close: true,
            survives_read_errors: true,
            stops_when_closed: true,
            joins: true,
            cancels_connection: false,
        },
        SessionKind::PeripheryClient => SessionPolicy {
            stores_write_errors: false,
            stores_close: false,
            survives_read_errors: false,
            stops_when_closed: false,
            joins: true,
            cancels_connection: true,
        },
        SessionKind::Periphery => SessionPolicy {
            stores_write_errors: false,
            stores_close: false,
            survives_read_errors: false,
            stops_when_closed: true,
            joins: false,
            cancels_connection: false,
        },
    }
}

impl SessionKind {
    /// How an end of a connection runs its sessions.
    pub fn policy(&self) -> (r: SessionPolicy)
        ensures
            r == policy_of(*self),
    {
        match self {
            SessionKind::ReconnectingClient => SessionPolicy {
                stores_write_errors: false,
                stores_close: false,
                survives_read_errors: false,
                stops_when_closed: true,
                joins: true,
                cancels_connection: true,
            },
            SessionKind::Core => SessionPolicy {
                stores_write_errors: true,
                stores_close: true,
                survives_read_errors: true,
                stops_when_closed: true,
                joins: true,
                cancels_connection: false,
            },
            SessionKind::PeripheryClient => SessionPolicy {
                stores_write_errors: false,
                stores_close: false,
                survives_read_errors: false,
                stops_when_closed: false,
                joins: true,
                cancels_connection: true,
            },
            SessionKind::Periphery => SessionPolicy {
                stores_write_errors: false,
                stores_close: false,
                survives_read_errors: false,
                stops_when_closed: true,
                joins: false,
                cancels_connection: false,
            },
        }
    }
}

/// The direction to the websocket.
#[derive(Debug, Clone, Copy, PartialEq, Eq, Structural)]
pub enum WritePhase {
    /// Waits for a message.
    Waiting,
    /// A message is on its way.
    Sending,
    Stopped,
}

/// The direction from the websocket.
#[derive(Debug, Clone, Copy, PartialEq, Eq, Structural)]
pub enum ReadPhase {
    Waiting,
    Stopped,
}

/// A session.
#[derive(Debug, Clone, Copy, PartialEq, Eq, Structural)]
pub struct Session {
    pub write: WritePhase,
    pub read: ReadPhase,
    /// Whether the session was cancelled.
    pub cancelled: bool,
    /// Whether the session is over.
    pub over: bool,
}

/// What happened in a session.
pub enum SessionEvent {
    /// What the buffered channel gave: nothing, where the buffer holds a
    /// message, or where the channel is closed.
    Next(Option<Vec<u8>>),
    /// The message was sent, or could not be.
    Sent(bool),
    /// The direction to the websocket saw the session cancelled.
    WriteCancelled,
    /// A message came.
    Binary(Vec<u8>),
    /// A close message came.
    Close,
    /// The stream is closed.
    Closed,
    /// A message could not be read.
    ReadFailed,
    /// A message came that is not significant.
    Ignored,
    /// The direction from the websocket saw the session cancelled.
    ReadCancelled,
}

/// The error of a connection that a session leaves behind.
#[derive(Debug, Clone, Copy, PartialEq, Eq, Structural)]
pub enum SessionError {
    /// What the websocket said.
    Websocket,
    /// Connection closed.
    ConnectionClosed,
}

/// What is to be done next.
pub enum SessionAction {
    /// Wait for the next message of the buffered channel.
    Receive,
    /// Send a message.
    Send(Vec<u8>),
    /// Hand the message on, then read the next.
    Deliver(Vec<u8>),
    /// Read the next message, after the error was stored, where there is one.
    Read { store: Option<SessionError> },
    /// Stop the direction: store the error, close the websocket, and cancel the
    /// session or the connection, each where it says so. Where the session is
    /// over, the connection is no longer connected.
    Stop { store: Option<SessionError>, close: bool, cancel: Option<CancelScope>, over: bool },
}

/// The contents of a `SessionAction`.
pub enum SessionActionView {
    Receive,
    Send(Seq<u8>),
    Deliver(Seq<u8>),
    Read { store: Option<SessionError> },
    Stop { store: Option<SessionError>, close: bool, cancel: Option<CancelScope>, over: bool },
}

impl View for SessionAction {
    type V = SessionActionView;

    open spec fn view(&self) -> SessionActionView {
        match self {
            SessionAction::Receive => SessionActionView::Receive,
            SessionAction::Send(bytes) => SessionActionView::Send(bytes@),
            SessionAction::Deliver(bytes) => SessionActionView::Deliver(bytes@),
            SessionAction::Read { store } => SessionActionView::Read { store: *store },
            SessionAction::Stop { store, close, cancel, over } => SessionActionView::Stop {
                store: *store,
                close: *close,
                cancel: *cancel,
                over: *over,
            },
        }
    }
}

impl Session {
    /// A session in which nothing happened yet.
    pub open spec fn fresh() -> Session {
        Session { write: WritePhase::Waiting, read: ReadPhase::Waiting, cancelled: false, over: false }
    }

    /// A session that goes on has told a direction of the other's end.
    pub open spec fn wf(self, policy: SessionPolicy) -> bool {
        let one_stopped = self.write is Stopped || self.read is Stopped;
        let both_stopped = self.write is Stopped && self.read is Stopped;
        &&& self.over == (if policy.joins {
            both_stopped
        } else {
            one_stopped
        })
        &&& policy.joins && one_stopped ==> self.cancelled
    }

    /// Whether the session waits for `event`.
    pub open spec fn expects(self, event: SessionEvent) -> bool {
        &&& !self.over
        &&& match event {
            SessionEvent::Next(_) => self.write is Waiting,
            SessionEvent::WriteCancelled => self.write is Waiting,
            SessionEvent::Sent(_) => self.write is Sending,
            _ => self.read is Waiting,
        }
    }

    pub fn new(policy: &SessionPolicy) -> (r: Session)
        ensures
            r == Session::fresh(),
            r.wf(*policy),
    {
        Session { write: WritePhase::Waiting, read: ReadPhase::Waiting, cancelled: false, over: false }
    }

    /// The session after the direction to the websocket stopped.
    pub open spec fn write_stopped(self, policy: SessionPolicy) -> Session {
        Session {
            write: WritePhase::Stopped,
            cancelled: self.cancelled || policy.joins,
            over: !policy.joins || self.read is Stopped,
            ..self
        }
    }

    /// The session after the direction from the websocket stopped.
    pub open spec fn read_stopped(self, policy: SessionPolicy) -> Session {
        Session {
            read: ReadPhase::Stopped,
            cancelled: self.cancelled || policy.joins,
            over: !policy.joins || self.write is Stopped,
            ..self
        }
    }
}

/// What a direction that stops cancels.
pub open spec fn cancel_scope(policy: SessionPolicy) -> Option<CancelScope> {
    if !policy.joins {
        None
    } else if policy.cancels_connection {
        Some(CancelScope::Connection)
    } else {
        Some(CancelScope::Session)
    }
}

/// What becomes of the session when the direction to the websocket stops,
/// because a message could not be sent or for another reason.
pub open spec fn stop_writing(policy: SessionPolicy, session: Session, failed: bool) -> (Session, SessionActionView) {
    let after = session.write_stopped(policy);
    (
        after,
        SessionActionView::Stop {
            store: if failed && policy.stores_write_errors {
                Some(SessionError::Websocket)
            } else {
                None
            },
            close: failed || policy.joins,
            cancel: cancel_scope(policy),
            over: after.over,
        },
    )
}

/// What becomes of the session when the direction from the websocket stops.
pub open spec fn stop_reading(policy: SessionPolicy, session: Session, store: Option<SessionError>) -> (
    Session,
    SessionActionView,
) {
    let after = session.read_stopped(policy);
    (after, SessionActionView::Stop { store, close: false, cancel: cancel_scope(policy), over: after.over })
}

/// The error that the end of the connection leaves behind.
pub open spec fn close_error(policy: SessionPolicy) -> Option<SessionError> {
    if policy.stores_close {
        Some(SessionError::ConnectionClosed)
    } else {
        None
    }
}

/// What becomes of a session, and what is to be done. `buffer` is the message
/// that the buffered channel holds back.
pub open spec fn session_step(
    policy: SessionPolicy,
    session: Session,
    buffer: Option<Vec<u8>>,
    event: SessionEvent,
) -> (Session, SessionActionView) {
    match event {
        SessionEvent::Next(next) => match next_buffer(buffer, event) {
            Some(message) => (
                Session { write: WritePhase::Sending, ..session },
                SessionActionView::Send(message@),
            ),
            None => stop_writing(policy, session, false),
        },
        SessionEvent::Sent(true) => (Session { write: WritePhase::Waiting, ..session }, SessionActionView::Receive),
        SessionEvent::Sent(false) => stop_writing(policy, session, true),
        SessionEvent::WriteCancelled => stop_writing(policy, session, false),
        SessionEvent::Binary(data) => (session, SessionActionView::Deliver(data@)),
        SessionEvent::Close => stop_reading(policy, session, close_error(policy)),
        SessionEvent::Closed => if policy.stops_when_closed {
            stop_reading(policy, session, close_error(policy))
        } else {
            (session, SessionActionView::Read { store: None })
        },
        SessionEvent::ReadFailed => if policy.survives_read_errors {
            (session, SessionActionView::Read { store: Some(SessionError::Websocket) })
        } else {
            stop_reading(policy, session, None)
        },
        SessionEvent::Ignored => (session, SessionActionView::Read { store: None }),
        SessionEvent::ReadCancelled => stop_reading(policy, session, None),
    }
}

/// The message that the buffered channel holds back after `event`.
pub open spec fn next_buffer(buffer: Option<Vec<u8>>, event: SessionEvent) -> Option<Vec<u8>> {
    match event {
        SessionEvent::Next(next) => if buffer is Some {
            buffer
        } else {
            next
        },
        SessionEvent::Sent(true) => None,
        _ => buffer,
    }
}

/// A copy of a message.
fn copied(message: &Vec<u8>) -> (r: Vec<u8>)
    ensures
        r@ == message@,
{
    let mut r: Vec<u8> = Vec::new();
    r.extend_from_slice(message.as_slice());
    assert(r@ =~= message@);
    r
}

impl SessionPolicy {
    fn cancel_scope(&self) -> (r: Option<CancelScope>)
        ensures
            r == cancel_scope(*self),
    {
        if !self.joins {
            None
        } else if self.cancels_connection {
            Some(CancelScope::Connection)
        } else {
            Some(CancelScope::Session)
        }
    }

    fn stop_writing(&self, session: Session, failed: bool) -> (r: (Session, SessionAction))
        ensures
            (r.0, r.1@) == stop_writing(*self, session, failed),
    {
        let over: bool = !self.joins || matches!(session.read, ReadPhase::Stopped);
        let after = Session {
            write: WritePhase::Stopped,
            cancelled: session.cancelled || self.joins,
            over,
            ..session
        };
        let store: Option<SessionError> = if failed && self.stores_write_errors {
            Some(SessionError::Websocket)
        } else {
            None
        };
        (after, SessionAction::Stop { store, close: failed || self.joins, cancel: self.cancel_scope(), over })
    }

    fn stop_reading(&self, session: Session, store: Option<SessionError>) -> (r: (Session, SessionAction))
        ensures
            (r.0, r.1@) == stop_reading(*self, session, store),
    {
        let over: bool = !self.joins || matches!(session.write, WritePhase::Stopped);
        let after = Session {
            read: ReadPhase::Stopped,
            cancelled: session.cancelled || self.joins,
            over,
            ..session
        };
        (after, SessionAction::Stop { store, close: false, cancel: self.cancel_scope(), over })
    }

    fn close_error(&self) -> (r: Option<SessionError>)
        ensures
            r == close_error(*self),
    {
        if self.stores_close {
            Some(SessionError::ConnectionClosed)
        } else {
            None
        }
    }

    /// Takes the session one step further.
    pub fn handle(
        &self,
        session: Session,
        write_receiver: &mut BufferedReceiver<Vec<u8>>,
        event: SessionEvent,
    ) -> (r: (Session, SessionAction))
        requires
            session.wf(*self),
            session.expects(event),
            old(write_receiver)@ is Some && event is Next ==> event->Next_0 is None,
        ensures
            r.0.wf(*self),
            (r.0, r.1@) == session_step(*self, session, old(write_receiver)@, event),
            final(write_receiver)@ == next_buffer(old(write_receiver)@, event),
    {
        match event {
            SessionEvent::Next(next) => match write_receiver.recv(next) {
                Some(message) => {
                    let message: Vec<u8> = copied(message);
                    (Session { write: WritePhase::Sending, ..session }, SessionAction::Send(message))
                },
                None => self.stop_writing(session, false),
            },
            SessionEvent::Sent(true) => {
                write_receiver.clear_buffer();
                (Session { write: WritePhase::Waiting, ..session }, SessionAction::Receive)
            },
            SessionEvent::Sent(false) => self.stop_writing(session, true),
            SessionEvent::WriteCancelled => self.stop_writing(session, false),
            SessionEvent::Binary(data) => (session, SessionAction::Deliver(data)),
            SessionEvent::Close => self.stop_reading(session, self.close_error()),
            SessionEvent::Closed => {
                if self.stops_when_closed {
                    self.stop_reading(session, self.close_error())
                } else {
                    (session, SessionAction::Read { store: None })
                }
            },
            SessionEvent::ReadFailed => {
                if self.survives_read_errors {
                    (session, SessionAction::Read { store: Some(SessionError::Websocket) })
                } else {
                    self.stop_reading(session, None)
                }
            },
            SessionEvent::Ignored => (session, SessionAction::Read { store: None }),
            SessionEvent::ReadCancelled => self.stop_reading(session, None),
        }
    }
}

/// A message leaves the buffered channel only when it was sent: any other event
/// keeps what the buffer holds, and a session that waits for the next message
/// sends the one in the buffer first, whatever session it was taken in.
pub proof fn law_unsent_message_is_sent_again(
    policy: SessionPolicy,
    session: Session,
    message: Vec<u8>,
    event: SessionEvent,
    later_policy: SessionPolicy,
    later: Session,
)
    requires
        event != SessionEvent::Sent(true),
    ensures
        next_buffer(Some(message), event) == Some(message),
        session_step(later_policy, later, next_buffer(Some(message), event), SessionEvent::Next(None)).1
            == SessionActionView::Send(message@),
{
}

/// A session ends: once a direction has stopped, a session that waits for both
/// is cancelled, and the other direction stops when it sees that.
pub proof fn law_session_ends(policy: SessionPolicy, session: Session, buffer: Option<Vec<u8>>)
    requires
        session.wf(policy),
        !session.over,
        session.write is Stopped || session.read is Stopped,
    ensures
        session.cancelled,
        session.read is Stopped ==> session_step(policy, session, buffer, SessionEvent::WriteCancelled).0.over,
        session.write is Stopped ==> session_step(policy, session, buffer, SessionEvent::ReadCancelled).0.over,
{
}

/// What the end of a session leaves of its connection: a client that reconnects
/// and a periphery client cancel the connection with it; a core and a periphery
/// do not.
pub proof fn law_session_end_cancels_clients(
    kind: SessionKind,
    session: Session,
    buffer: Option<Vec<u8>>,
    event: SessionEvent,
)
    requires
        session.wf(policy_of(kind)),
        session.expects(event),
        session_step(policy_of(kind), session, buffer, event).0.over,
    ensures
        session_step(policy_of(kind), session, buffer, event).1 matches SessionActionView::Stop {
            store,
            close,
            cancel,
            over,
        } && over && (cancel == Some(CancelScope::Connection) <==> kind is ReconnectingClient
            || kind is PeripheryClient),
{
}

/// The messages that come are handed on unchanged, and change nothing else.
pub proof fn law_messages_are_delivered(policy: SessionPolicy, session: Session, buffer: Option<Vec<u8>>, data: Vec<u8>)
    ensures
        session_step(policy, session, buffer, SessionEvent::Binary(data)) == (
            session,
            SessionActionView::Deliver(data@),
        ),
        next_buffer(buffer, SessionEvent::Binary(data)) == buffer,
{
}

/// The session of a periphery is over as soon as its socket ends, in whatever
/// way, or as soon as nothing can be written any more, so that the periphery can
/// connect again.
pub proof fn law_periphery_session_ends_with_its_socket(
    session: Session,
    buffer: Option<Vec<u8>>,
    event: SessionEvent,
)
    requires
        event is Close || event is Closed || event is ReadFailed || event is ReadCancelled || event is WriteCancelled
            || event == SessionEvent::Sent(false) || (event == SessionEvent::Next(None) && buffer is None),
    ensures
        session_step(policy_of(SessionKind::Periphery), session, buffer, event).0.over,
        session_step(policy_of(SessionKind::Periphery), session, buffer, event).1 == (SessionActionView::Stop {
            store: None,
            close: event is Sent,
            cancel: None,
            over: true,
        }),
{
}

/// A core stops reading when the websocket is closed, with or without a close
/// frame, stores that as the error of the connection, and cancels the session
/// but not the connection. An error that it reads is stored, and reading goes
/// on. A message that it cannot write stops writing, and is stored too.
pub proof fn law_core_session_ends_with_its_socket(session: Session, buffer: Option<Vec<u8>>, event: SessionEvent)
    ensures
        event is Close || event is Closed ==> {
            let (after, action) = session_step(policy_of(SessionKind::Core), session, buffer, event);
            &&& after.read is Stopped && after.cancelled && after.write == session.write
            &&& after.over == (session.write is Stopped)
            &&& action == (SessionActionView::Stop {
                store: Some(SessionError::ConnectionClosed),
                close: false,
                cancel: Some(CancelScope::Session),
                over: session.write is Stopped,
            })
        },
        event is ReadFailed ==> session_step(policy_of(SessionKind::Core), session, buffer, event) == (
            session,
            (SessionActionView::Read { store: Some(SessionError::Websocket) }),
        ),
        event == SessionEvent::Sent(false) ==> {
            let (after, action) = session_step(policy_of(SessionKind::Core), session, buffer, event);
            &&& after.write is Stopped && after.cancelled && after.read == session.read
            &&& after.over == (session.read is Stopped)
            &&& action == (SessionActionView::Stop {
                store: Some(SessionError::Websocket),
                close: true,
                cancel: Some(CancelScope::Session),
                over: session.read is Stopped,
            })
        },
{
}

/// A client stops reading when a close frame comes or a message cannot be read,
/// and cancels its connection; nothing is stored as its error. A client that
/// reconnects stops as well when the stream is closed, and a periphery client
/// reads on then. A message that cannot be written stops writing.
pub proof fn law_client_session_ends_with_its_socket(
    kind: SessionKind,
    session: Session,
    buffer: Option<Vec<u8>>,
    event: SessionEvent,
)
    requires
        kind is ReconnectingClient || kind is PeripheryClient,
    ensures
        event is Close || event is ReadFailed || (event is Closed && kind is ReconnectingClient) ==> {
            let (after, action) = session_step(policy_of(kind), session, buffer, event);
            &&& after.read is Stopped && after.cancelled && after.write == session.write
            &&& after.over == (session.write is Stopped)
            &&& action == (SessionActionView::Stop {
                store: None,
                close: false,
                cancel: Some(CancelScope::Connection),
                over: session.write is Stopped,
            })
        },
        event is Closed && kind is PeripheryClient ==> session_step(policy_of(kind), session, buffer, event) == (
            session,
            (SessionActionView::Read { store: None }),
        ),
        event == SessionEvent::Sent(false) ==> {
            let (after, action) = session_step(policy_of(kind), session, buffer, event);
            &&& after.write is Stopped && after.cancelled && after.read == session.read
            &&& after.over == (session.read is Stopped)
            &&& action == (SessionActionView::Stop {
                store: None,
                close: true,
                cancel: Some(CancelScope::Connection),
                over: session.read is Stopped,
            })
        },
{
}

/// Whatever end it is, a session that nothing ends goes on: a message of the
/// channel is sent as it is, the one that the buffer holds back before it; once
/// it was sent, the next is waited for; and what is not significant is passed
/// over.
pub proof fn law_session_goes_on(
    kind: SessionKind,
    session: Session,
    buffer: Option<Vec<u8>>,
    message: Vec<u8>,
)
    ensures
        session_step(policy_of(kind), session, None, SessionEvent::Next(Some(message))) == (
            Session { write: WritePhase::Sending, ..session },
            SessionActionView::Send(message@),
        ),
        session_step(policy_of(kind), session, Some(message), SessionEvent::Next(None)) == (
            Session { write: WritePhase::Sending, ..session },
            SessionActionView::Send(message@),
        ),
        next_buffer(None, SessionEvent::Next(Some(message))) == Some(message),
        session_step(policy_of(kind), session, buffer, SessionEvent::Sent(true)) == (
            Session { write: WritePhase::Waiting, ..session },
            SessionActionView::Receive,
        ),
        next_buffer(buffer, SessionEvent::Sent(true)) is None,
        session_step(policy_of(kind), session, buffer, SessionEvent::Ignored) == (
            session,
            (SessionActionView::Read { store: None }),
        ),
{
}

/// A direction that stops, because there is nothing more to write or because it
/// sees the session cancelled, tells the other: at a periphery the session is
/// over with it; at a core it cancels the session, and at a client the
/// connection, and the session is over where the other direction has stopped
/// already.
pub proof fn law_stopped_direction_tells_the_other(
    kind: SessionKind,
    session: Session,
    buffer: Option<Vec<u8>>,
)
    ensures
        session_step(policy_of(kind), session, buffer, SessionEvent::WriteCancelled) == (
            Session {
                write: WritePhase::Stopped,
                read: session.read,
                cancelled: session.cancelled || !(kind is Periphery),
                over: kind is Periphery || session.read is Stopped,
            },
            (SessionActionView::Stop {
                store: None,
                close: !(kind is Periphery),
                cancel: match kind {
                    SessionKind::Periphery => None,
                    SessionKind::Core => Some(CancelScope::Session),
                    SessionKind::ReconnectingClient => Some(CancelScope::Connection),
                    SessionKind::PeripheryClient => Some(CancelScope::Connection),
                },
                over: kind is Periphery || session.read is Stopped,
            }),
        ),
        session_step(policy_of(kind), session, None, SessionEvent::Next(None)) == session_step(
            policy_of(kind),
            session,
            None,
            SessionEvent::WriteCancelled,
        ),
        session_step(policy_of(kind), session, buffer, SessionEvent::ReadCancelled) == (
            Session {
                write: session.write,
                read: ReadPhase::Stopped,
                cancelled: session.cancelled || !(kind is Periphery),
                over: kind is Periphery || session.write is Stopped,
            },
            (SessionActionView::Stop {
                store: None,
                close: false,
                cancel: match kind {
                    SessionKind::Periphery => None,
                    SessionKind::Core => Some(CancelScope::Session),
                    SessionKind::ReconnectingClient => Some(CancelScope::Connection),
                    SessionKind::PeripheryClient => Some(CancelScope::Connection),
                },
                over: kind is Periphery || session.write is Stopped,
            }),
        ),
{
}

/// The buffer of a channel changes by a message that is taken from the channel,
/// and by one that was sent, and by nothing else. A fresh session waits in both
/// directions.
pub proof fn law_buffer_changes_by_sending(buffer: Option<Vec<u8>>, event: SessionEvent)
    ensures
        !(event is Next) && event != SessionEvent::Sent(true) ==> next_buffer(buffer, event) == buffer,
        next_buffer(None, SessionEvent::Next(None)) is None,
        buffer is Some && event is Next ==> next_buffer(buffer, event) == buffer,
        Session::fresh().write is Waiting && Session::fresh().read is Waiting,
        !Session::fresh().cancelled && !Session::fresh().over,
{
}

/// The contents of an action tell what it is, and hold all of it.
pub proof fn law_contents_of_an_action(action: SessionAction)
    ensures
        action is Receive <==> action@ is Receive,
        action is Send <==> action@ is Send,
        action is Send ==> action@->Send_0 == action->Send_0@,
        action is Deliver <==> action@ is Deliver,
        action is Deliver ==> action@->Deliver_0 == action->Deliver_0@,
        action is Read <==> action@ is Read,
        action is Read ==> action@->Read_store == action->Read_store,
        action is Stop <==> action@ is Stop,
        action is Stop ==> action@->Stop_store == action->Stop_store,
        action is Stop ==> action@->Stop_close == action->Stop_close,
        action is Stop ==> action@->Stop_cancel == action->Stop_cancel,
        action is Stop ==> action@->Stop_over == action->Stop_over,
{
}

} // verus!
