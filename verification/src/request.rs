//! A request of a core to a periphery, from the look for a connection to the
//! response.

use vstd::prelude::*;
use uuid::Uuid;
use crate::bytes;
use crate::bytes::from_transport_bytes;
use crate::bytes::to_transport_bytes;
use crate::bytes::MessageState;
use crate::connections;
use crate::connections::ConnectedPoll;

verus! {

/// After how many seconds without a frame a request times out. Periphery will
/// send InProgress every 5s to avoid timeout.
pub const RESPONSE_TIMEOUT_SECONDS: u64 = 10;

/// How many frames a response channel holds.
pub const RESPONSE_CHANNEL_LEN: usize = 1000;

/// The ways to make a request.
#[derive(Debug, Clone, Copy, PartialEq, Eq, Structural)]
pub enum RequestKind {
    /// Polls the connection three times before it gives up, and times out.
    Core,
    /// Looks at the connection once, and times out.
    Client,
    /// Looks at the connection once, needs the response channels of the server
    /// to be there already, and never times out.
    Patient,
}

/// How far a request is.
#[derive(Debug, Clone, Copy, PartialEq, Eq, Structural)]
pub enum RequestState {
    Start,
    /// The connection is polled, for the time `poll`, counted from 0.
    Polling { poll: u8 },
    Sleeping { poll: u8 },
    FindingChannels,
    Serializing,
    Sending,
    Waiting,
    Done,
}

/// What happened to a request.
pub enum RequestEvent {
    /// Whether the server has a connection.
    Connection(bool),
    /// Whether the connection is connected, and whether it stores an error.
    Polled { connected: bool, has_error: bool },
    Slept,
    /// Whether the server has response channels.
    Channels(bool),
    /// The request as bytes, if it could be serialized.
    Serialized(Option<Vec<u8>>),
    /// The frame was sent, or could not be.
    Sent(bool),
    /// A frame came on the response channel, or none will.
    Received(Option<Vec<u8>>),
    /// No frame came in time.
    TimedOut,
}

/// Why a request failed before the periphery answered it.
#[derive(Debug, Clone, Copy, PartialEq, Eq, Structural)]
pub enum RequestError {
    /// No connection found for server.
    NoConnection,
    /// The error that the connection stores.
    StoredError,
    /// Server is not currently connected.
    NotConnected,
    /// No response channels found for server.
    NoChannels,
    /// Failed to serialize request to bytes.
    Serialize,
    /// Failed to send request over channel.
    Send,
    /// Response timed out.
    TimedOut,
    /// Sender dropped before response was received.
    SenderDropped,
}

/// How a request ended.
pub enum RequestResult {
    /// The response, to be parsed.
    Response(Vec<u8>),
    /// The error of the periphery, to be parsed.
    Refusal(Vec<u8>),
    Error(RequestError),
}

/// The contents of a `RequestResult`.
pub enum RequestResultView {
    Response(Seq<u8>),
    Refusal(Seq<u8>),
    Error(RequestError),
}

impl View for RequestResult {
    type V = RequestResultView;

    open spec fn view(&self) -> RequestResultView {
        match self {
            RequestResult::Response(data) => RequestResultView::Response(data@),
            RequestResult::Refusal(data) => RequestResultView::Refusal(data@),
            RequestResult::Error(e) => RequestResultView::Error(*e),
        }
    }
}

/// What is to be done next.
pub enum RequestAction {
    /// Look at the connection.
    Poll,
    Sleep { seconds: u64 },
    /// Look for the response channels of the server.
    FindChannels,
    /// Open the response channel, then serialize the request.
    OpenAndSerialize,
    /// Send a frame.
    Send(Vec<u8>),
    /// Wait for a frame on the response channel, so many seconds where it says
    /// so.
    Receive { timeout: Option<u64> },
    /// The request is over. Close the response channel where `close` says so.
    Finish { close: bool, result: RequestResult },
}

/// The contents of a `RequestAction`.
pub enum RequestActionView {
    Poll,
    Sleep { seconds: u64 },
    FindChannels,
    OpenAndSerialize,
    Send(Seq<u8>),
    Receive { timeout: Option<u64> },
    Finish { close: bool, result: RequestResultView },
}

impl View for RequestAction {
    type V = RequestActionView;

    open spec fn view(&self) -> RequestActionView {
        match self {
            RequestAction::Poll => RequestActionView::Poll,
            RequestAction::Sleep { seconds } => RequestActionView::Sleep { seconds: *seconds },
            RequestAction::FindChannels => RequestActionView::FindChannels,
            RequestAction::OpenAndSerialize => RequestActionView::OpenAndSerialize,
            RequestAction::Send(bytes) => RequestActionView::Send(bytes@),
            RequestAction::Receive { timeout } => RequestActionView::Receive { timeout: *timeout },
            RequestAction::Finish { close, result } => RequestActionView::Finish { close: *close, result: result@ },
        }
    }
}

impl RequestState {
    pub open spec fn wf(self) -> bool {
        match self {
            RequestState::Polling { poll } => poll < 3,
            RequestState::Sleeping { poll } => poll < 2,
            _ => true,
        }
    }

    /// Whether the request waits for `event`.
    pub open spec fn expects(self, event: RequestEvent) -> bool {
        match self {
            RequestState::Start => event is Connection,
            RequestState::Polling { .. } => event is Polled,
            RequestState::Sleeping { .. } => event is Slept,
            RequestState::FindingChannels => event is Channels,
            RequestState::Serializing => event is Serialized,
            RequestState::Sending => event is Sent,
            RequestState::Waiting => event is Received || event is TimedOut,
            RequestState::Done => false,
        }
    }
}

/// The end of a request.
pub open spec fn ended(close: bool, result: RequestResultView) -> (RequestState, RequestActionView) {
    (RequestState::Done, RequestActionView::Finish { close, result })
}

/// The end of a request with an error.
pub open spec fn failed(close: bool, error: RequestError) -> (RequestState, RequestActionView) {
    ended(close, RequestResultView::Error(error))
}

/// The request waits for a frame.
pub open spec fn waiting(kind: RequestKind) -> (RequestState, RequestActionView) {
    (
        RequestState::Waiting,
        RequestActionView::Receive {
            timeout: if kind is Patient {
                None
            } else {
                Some(RESPONSE_TIMEOUT_SECONDS)
            },
        },
    )
}

/// The request after a poll of the connection.
pub open spec fn polled(kind: RequestKind, poll: u8, connected: bool, has_error: bool) -> (
    RequestState,
    RequestActionView,
) {
    // Only a core polls more than once.
    let nth = if kind is Core {
        poll
    } else {
        2u8
    };
    match connections::poll_outcome(connected, nth, has_error) {
        ConnectedPoll::Connected => if kind is Patient {
            (RequestState::FindingChannels, RequestActionView::FindChannels)
        } else {
            (RequestState::Serializing, RequestActionView::OpenAndSerialize)
        },
        ConnectedPoll::Sleep { seconds } => (RequestState::Sleeping { poll }, RequestActionView::Sleep { seconds }),
        ConnectedPoll::StoredError => failed(false, RequestError::StoredError),
        ConnectedPoll::NotConnected => failed(false, RequestError::NotConnected),
    }
}

/// The request after a frame came. One that cannot be read, or that holds no
/// data, is passed over, and so is one that is no response.
pub open spec fn framed(kind: RequestKind, frame: Seq<u8>) -> (RequestState, RequestActionView) {
    if frame.len() < 17 || bytes::frame_data(frame).len() == 0 {
        waiting(kind)
    } else {
        match bytes::byte_state(frame.last()) {
            MessageState::Successful => ended(true, RequestResultView::Response(bytes::frame_data(frame))),
            MessageState::Failed => ended(true, RequestResultView::Refusal(bytes::frame_data(frame))),
            _ => waiting(kind),
        }
    }
}

/// What becomes of a request, and what is to be done.
pub open spec fn request_step(kind: RequestKind, state: RequestState, id: Uuid, event: RequestEvent) -> (
    RequestState,
    RequestActionView,
) {
    match (state, event) {
        (_, RequestEvent::Connection(found)) => if found {
            (RequestState::Polling { poll: 0 }, RequestActionView::Poll)
        } else {
            failed(false, RequestError::NoConnection)
        },
        (RequestState::Polling { poll }, RequestEvent::Polled { connected, has_error }) => polled(
            kind,
            poll,
            connected,
            has_error,
        ),
        (RequestState::Sleeping { poll }, RequestEvent::Slept) => (
            RequestState::Polling { poll: (poll + 1) as u8 },
            RequestActionView::Poll,
        ),
        (_, RequestEvent::Channels(found)) => if found {
            (RequestState::Serializing, RequestActionView::OpenAndSerialize)
        } else {
            failed(false, RequestError::NoChannels)
        },
        (_, RequestEvent::Serialized(Some(data))) => (
            RequestState::Sending,
            RequestActionView::Send(bytes::frame(data@, id, MessageState::Request)),
        ),
        (_, RequestEvent::Serialized(None)) => failed(false, RequestError::Serialize),
        (_, RequestEvent::Sent(sent)) => if sent {
            waiting(kind)
        } else {
            failed(true, RequestError::Send)
        },
        (_, RequestEvent::Received(Some(frame))) => framed(kind, frame@),
        (_, RequestEvent::Received(None)) => failed(false, RequestError::SenderDropped),
        _ => failed(false, RequestError::TimedOut),
    }
}

impl RequestKind {
    fn fail(close: bool, error: RequestError) -> (r: (RequestState, RequestAction))
        ensures
            (r.0, r.1@) == failed(close, error),
    {
        (RequestState::Done, RequestAction::Finish { close, result: RequestResult::Error(error) })
    }

    fn wait(&self) -> (r: (RequestState, RequestAction))
        ensures
            (r.0, r.1@) == waiting(*self),
    {
        let timeout: Option<u64> = match self {
            RequestKind::Patient => None,
            _ => Some(RESPONSE_TIMEOUT_SECONDS),
        };
        (RequestState::Waiting, RequestAction::Receive { timeout })
    }

    fn on_poll(&self, poll: u8, connected: bool, has_error: bool) -> (r: (RequestState, RequestAction))
        requires
            poll < 3,
        ensures
            r.0.wf(),
            (r.0, r.1@) == polled(*self, poll, connected, has_error),
    {
        if connected {
            return match self {
                RequestKind::Patient => (RequestState::FindingChannels, RequestAction::FindChannels),
                _ => (RequestState::Serializing, RequestAction::OpenAndSerialize),
            };
        }
        if matches!(self, RequestKind::Core) && poll < 2 {
            return (RequestState::Sleeping { poll }, RequestAction::Sleep { seconds: 1 });
        }
        if has_error {
            RequestKind::fail(false, RequestError::StoredError)
        } else {
            RequestKind::fail(false, RequestError::NotConnected)
        }
    }

    fn on_frame(&self, frame: Vec<u8>) -> (r: (RequestState, RequestAction))
        ensures
            (r.0, r.1@) == framed(*self, frame@),
    {
        let (state, data): (MessageState, Vec<u8>) = match from_transport_bytes(frame) {
            Ok((_, state, data)) => (state, data),
            Err(_) => return self.wait(),
        };
        // Ignore no data cases
        if data.len() == 0 {
            return self.wait();
        }
        match state {
            MessageState::Successful => (
                RequestState::Done,
                RequestAction::Finish { close: true, result: RequestResult::Response(data) },
            ),
            MessageState::Failed => (
                RequestState::Done,
                RequestAction::Finish { close: true, result: RequestResult::Refusal(data) },
            ),
            _ => self.wait(),
        }
    }

    /// Takes the request whose response comes on channel `id` one step further.
    pub fn request(&self, state: RequestState, id: Uuid, event: RequestEvent) -> (r: (RequestState, RequestAction))
        requires
            state.wf(),
            state.expects(event),
        ensures
            r.0.wf(),
            (r.0, r.1@) == request_step(*self, state, id, event),
    {
        match (state, event) {
            (_, RequestEvent::Connection(found)) => {
                if found {
                    (RequestState::Polling { poll: 0 }, RequestAction::Poll)
                } else {
                    RequestKind::fail(false, RequestError::NoConnection)
                }
            },
            (RequestState::Polling { poll }, RequestEvent::Polled { connected, has_error }) => {
                self.on_poll(poll, connected, has_error)
            },
            (RequestState::Sleeping { poll }, RequestEvent::Slept) => {
                (RequestState::Polling { poll: poll + 1 }, RequestAction::Poll)
            },
            (_, RequestEvent::Channels(found)) => {
                if found {
                    (RequestState::Serializing, RequestAction::OpenAndSerialize)
                } else {
                    RequestKind::fail(false, RequestError::NoChannels)
                }
            },
            (_, RequestEvent::Serialized(Some(data))) => (
                RequestState::Sending,
                RequestAction::Send(to_transport_bytes(data, id, MessageState::Request)),
            ),
            (_, RequestEvent::Serialized(None)) => RequestKind::fail(false, RequestError::Serialize),
            (_, RequestEvent::Sent(sent)) => {
                if sent {
                    self.wait()
                } else {
                    RequestKind::fail(true, RequestError::Send)
                }
            },
            (_, RequestEvent::Received(Some(frame))) => self.on_frame(frame),
            (_, RequestEvent::Received(None)) => RequestKind::fail(false, RequestError::SenderDropped),
            _ => RequestKind::fail(false, RequestError::TimedOut),
        }
    }
}

/// A response channel is closed by the request that opened it whenever a
/// response came, or the request could not be sent.
pub proof fn law_response_closes_its_channel(kind: RequestKind, state: RequestState, id: Uuid, event: RequestEvent)
    requires
        state.wf(),
        state.expects(event),
    ensures
        request_step(kind, state, id, event).0 is Done ==> (request_step(kind, state, id, event).1 matches
            RequestActionView::Finish { close, result } && close == (event is Received && event->Received_0 is Some
            || event is Sent)),
{
}

/// A request is made where the server is connected: a poll that finds the
/// connection connected never ends the request, whichever poll it is and
/// whatever error is stored.
pub proof fn law_connected_server_gets_the_request(kind: RequestKind, poll: u8, id: Uuid, has_error: bool)
    ensures
        request_step(
            kind,
            RequestState::Polling { poll },
            id,
            RequestEvent::Polled { connected: true, has_error },
        ) == (match kind {
            RequestKind::Patient => (RequestState::FindingChannels, RequestActionView::FindChannels),
            RequestKind::Core => (RequestState::Serializing, RequestActionView::OpenAndSerialize),
            RequestKind::Client => (RequestState::Serializing, RequestActionView::OpenAndSerialize),
        }),
{
}

/// A request gives up on a server that is not connected, and on no other: a core
/// after the third poll, one second apart, and the others at once. It then tells
/// the error that the connection stores, if there is one.
pub proof fn law_request_gives_up_on_a_server_not_connected(kind: RequestKind, poll: u8, id: Uuid, has_error: bool)
    requires
        poll < 3,
    ensures
        kind is Core && poll < 2 ==> request_step(
            kind,
            RequestState::Polling { poll },
            id,
            RequestEvent::Polled { connected: false, has_error },
        ) == (RequestState::Sleeping { poll }, (RequestActionView::Sleep { seconds: 1 })),
        !(kind is Core && poll < 2) ==> request_step(
            kind,
            RequestState::Polling { poll },
            id,
            RequestEvent::Polled { connected: false, has_error },
        ) == (
            RequestState::Done,
            (RequestActionView::Finish {
                close: false,
                result: RequestResultView::Error(
                    if has_error {
                        RequestError::StoredError
                    } else {
                        RequestError::NotConnected
                    },
                ),
            }),
        ),
        poll < 2 ==> request_step(kind, RequestState::Sleeping { poll }, id, RequestEvent::Slept) == (
            RequestState::Polling { poll: (poll + 1) as u8 },
            RequestActionView::Poll,
        ),
{
}

/// Each failure of a request has its own cause, and each of these causes fails
/// it.
pub proof fn law_failures_have_their_cause(
    kind: RequestKind,
    state: RequestState,
    id: Uuid,
    event: RequestEvent,
    error: RequestError,
)
    requires
        state.wf(),
        state.expects(event),
    ensures
        (request_step(kind, state, id, event).1 matches RequestActionView::Finish { close, result } && result
            == RequestResultView::Error(error)) <==> match error {
            RequestError::NoConnection => event == RequestEvent::Connection(false),
            RequestError::NoChannels => event == RequestEvent::Channels(false),
            RequestError::Serialize => event == RequestEvent::Serialized(None),
            RequestError::Send => event == RequestEvent::Sent(false),
            RequestError::TimedOut => event is TimedOut,
            RequestError::SenderDropped => event == RequestEvent::Received(None),
            RequestError::StoredError => event == (RequestEvent::Polled { connected: false, has_error: true }) && !(kind
                is Core && state != (RequestState::Polling { poll: 2 })),
            RequestError::NotConnected => event == (RequestEvent::Polled { connected: false, has_error: false }) && !(
            kind is Core && state != (RequestState::Polling { poll: 2 })),
        },
{
}

/// A request whose connection, channels, serialization and sending all succeed
/// goes on to wait for its response: what it sends is its data, then the
/// sixteen bytes of its channel id, then a zero byte. It waits ten seconds,
/// unless it is one that never times out.
pub proof fn law_request_goes_on(
    kind: RequestKind,
    state: RequestState,
    id: Uuid,
    data: Vec<u8>,
)
    requires
        crate::ids::uuid_bytes(id).len() == 16,
    ensures
        request_step(kind, RequestState::Start, id, RequestEvent::Connection(true)) == (
            RequestState::Polling { poll: 0 },
            RequestActionView::Poll,
        ),
        request_step(kind, RequestState::FindingChannels, id, RequestEvent::Channels(true)) == (
            RequestState::Serializing,
            RequestActionView::OpenAndSerialize,
        ),
        request_step(kind, RequestState::Serializing, id, RequestEvent::Serialized(Some(data))) == (
            RequestState::Sending,
            RequestActionView::Send((data@ + crate::ids::uuid_bytes(id)).push(0u8)),
        ),
        request_step(kind, RequestState::Sending, id, RequestEvent::Sent(true)) == (
            RequestState::Waiting,
            (RequestActionView::Receive {
                timeout: if kind is Patient {
                    None
                } else {
                    Some(10u64)
                },
            }),
        ),
{
}

/// A frame whose last byte is 2 is a response, and one whose last byte is 3 a
/// refusal, where it holds data before the seventeen bytes at its end: the
/// request ends with that data, and closes its channel. Any other frame is
/// passed over, and the request waits anew.
pub proof fn law_response_ends_the_request(kind: RequestKind, id: Uuid, frame: Vec<u8>)
    ensures
        frame@.len() > 17 && frame@.last() == 2 ==> request_step(
            kind,
            RequestState::Waiting,
            id,
            RequestEvent::Received(Some(frame)),
        ) == (
            RequestState::Done,
            (RequestActionView::Finish {
                close: true,
                result: RequestResultView::Response(frame@.take(frame@.len() - 17)),
            }),
        ),
        frame@.len() > 17 && frame@.last() == 3 ==> request_step(
            kind,
            RequestState::Waiting,
            id,
            RequestEvent::Received(Some(frame)),
        ) == (
            RequestState::Done,
            (RequestActionView::Finish {
                close: true,
                result: RequestResultView::Refusal(frame@.take(frame@.len() - 17)),
            }),
        ),
        frame@.len() <= 17 || (frame@.last() != 2 && frame@.last() != 3) ==> request_step(
            kind,
            RequestState::Waiting,
            id,
            RequestEvent::Received(Some(frame)),
        ) == request_step(kind, RequestState::Sending, id, RequestEvent::Sent(true)),
{
}

/// The contents of a result tell what it is, and hold all of it.
pub proof fn law_contents_of_a_result(result: RequestResult)
    ensures
        result is Response <==> result@ is Response,
        result is Response ==> result@->Response_0 == result->Response_0@,
        result is Refusal <==> result@ is Refusal,
        result is Refusal ==> result@->Refusal_0 == result->Refusal_0@,
        result is Error <==> result@ is Error,
        result is Error ==> result@->Error_0 == result->Error_0,
{
}

/// The contents of an action tell what it is, and hold all of it.
pub proof fn law_contents_of_an_action(action: RequestAction)
    ensures
        action is Poll <==> action@ is Poll,
        action is Sleep <==> action@ is Sleep,
        action is Sleep ==> action@->Sleep_seconds == action->Sleep_seconds,
        action is FindChannels <==> action@ is FindChannels,
        action is OpenAndSerialize <==> action@ is OpenAndSerialize,
        action is Send <==> action@ is Send,
        action is Send ==> action@->Send_0 == action->Send_0@,
        action is Receive <==> action@ is Receive,
        action is Receive ==> action@->Receive_timeout == action->Receive_timeout,
        action is Finish <==> action@ is Finish,
        action is Finish ==> action@->Finish_close == action->Finish_close,
        action is Finish ==> action@->Finish_result == action->Finish_result@,
{
}

} // verus!
