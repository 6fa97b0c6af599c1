//! What a periphery does with the frames that come from its core.

use vstd::prelude::*;
use uuid::Uuid;
use crate::bytes;
use crate::bytes::data_from_transport_bytes;
use crate::bytes::id_state_from_transport_bytes;
use crate::bytes::to_transport_bytes;
use crate::bytes::MessageState;
use crate::forwarding;
use crate::forwarding::stdin_message;
use crate::forwarding::StdinMessage;
use crate::ids;
use crate::request;

verus! {

/// After how many seconds a periphery tells its core, again and again, that a
/// request is still in progress.
pub const PING_SECONDS: u64 = 5;

/// What a frame is about.
pub enum Incoming {
    /// The frame could not be read.
    Invalid,
    /// A request, whose response goes to channel `id`.
    Request { id: Uuid, bytes: Vec<u8> },
    /// A message for the terminal on channel `id`.
    Terminal { id: Uuid, bytes: Vec<u8> },
    /// Shouldn't be received by Periphery.
    Ignored,
}

/// Sorts an incoming frame by its state.
pub fn handle_incoming_bytes(bytes: Vec<u8>) -> (r: Incoming)
    ensures
        if bytes@.len() < 17 {
            r is Invalid
        } else {
            match bytes::byte_state(bytes@.last()) {
                MessageState::Request => r matches Incoming::Request { id, bytes: b } && ids::is_id_of(
                    id,
                    bytes::frame_id(bytes@),
                ) && b == bytes,
                MessageState::Terminal => r matches Incoming::Terminal { id, bytes: b } && ids::is_id_of(
                    id,
                    bytes::frame_id(bytes@),
                ) && b == bytes,
                _ => r is Ignored,
            }
        },
{
    let (id, state): (Uuid, MessageState) = match id_state_from_transport_bytes(bytes.as_slice()) {
        Ok(res) => res,
        Err(_) => return Incoming::Invalid,
    };
    match state {
        MessageState::Request => Incoming::Request { id, bytes },
        MessageState::Terminal => Incoming::Terminal { id, bytes },
        _ => Incoming::Ignored,
    }
}

/// How a request was resolved.
pub enum Resolved {
    /// The response.
    Response(Vec<u8>),
    /// The error with which the response body could not be serialized.
    Unserializable(Vec<u8>),
    /// The error of the request.
    Error(Vec<u8>),
}

/// How far the handling of a request that came is.
#[derive(Debug, Clone, Copy, PartialEq, Eq, Structural)]
pub enum RequestHandling {
    Start,
    Parsing,
    Resolving,
    Done,
}

/// What happened to a request that came.
pub enum HandleEvent {
    /// The frame came.
    Frame(Vec<u8>),
    /// The request was parsed, or could not be.
    Parsed(bool),
    /// The request was resolved.
    Resolved(Resolved),
    /// The request is still in progress.
    Ping,
}

/// What is to be done with a request that came.
pub enum HandleAction {
    /// Nothing more.
    Drop,
    /// Parse the request.
    Parse(Vec<u8>),
    /// Resolve the request, and ping every `PING_SECONDS` until it is.
    Resolve,
    /// Send the frame of the response, and be done.
    Respond(Vec<u8>),
    /// Send the frame of a ping, and go on.
    SendPing(Vec<u8>),
}

/// The contents of a `HandleAction`.
pub enum HandleActionView {
    Drop,
    Parse(Seq<u8>),
    Resolve,
    Respond(Seq<u8>),
    SendPing(Seq<u8>),
}

impl View for HandleAction {
    type V = HandleActionView;

    open spec fn view(&self) -> HandleActionView {
        match self {
            HandleAction::Drop => HandleActionView::Drop,
            HandleAction::Parse(data) => HandleActionView::Parse(data@),
            HandleAction::Resolve => HandleActionView::Resolve,
            HandleAction::Respond(bytes) => HandleActionView::Respond(bytes@),
            HandleAction::SendPing(bytes) => HandleActionView::SendPing(bytes@),
        }
    }
}

/// The frame of the response to request `req_id`.
pub open spec fn response_frame(req_id: Uuid, resolved: Resolved) -> Seq<u8> {
    match resolved {
        Resolved::Response(data) => bytes::frame(data@, req_id, MessageState::Successful),
        Resolved::Unserializable(data) => bytes::frame(data@, req_id, MessageState::Failed),
        Resolved::Error(data) => bytes::frame(data@, req_id, MessageState::Failed),
    }
}

/// The frame that tells that request `req_id` is in progress.
pub open spec fn ping_frame(req_id: Uuid) -> Seq<u8> {
    bytes::frame(Seq::empty(), req_id, MessageState::InProgress)
}

impl RequestHandling {
    /// Whether the handling waits for `event`.
    pub open spec fn expects(self, event: HandleEvent) -> bool {
        match self {
            RequestHandling::Start => event is Frame,
            RequestHandling::Parsing => event is Parsed,
            RequestHandling::Resolving => event is Resolved || event is Ping,
            RequestHandling::Done => false,
        }
    }
}

/// What becomes of the handling of request `req_id`, and what is to be done.
pub open spec fn handle_step(handling: RequestHandling, req_id: Uuid, event: HandleEvent) -> (
    RequestHandling,
    HandleActionView,
) {
    match event {
        HandleEvent::Frame(frame) => if frame@.len() > 17 {
            (RequestHandling::Parsing, HandleActionView::Parse(bytes::frame_data(frame@)))
        } else {
            (RequestHandling::Done, HandleActionView::Drop)
        },
        HandleEvent::Parsed(parsed) => if parsed {
            (RequestHandling::Resolving, HandleActionView::Resolve)
        } else {
            (RequestHandling::Done, HandleActionView::Drop)
        },
        HandleEvent::Resolved(resolved) => (
            RequestHandling::Done,
            HandleActionView::Respond(response_frame(req_id, resolved)),
        ),
        HandleEvent::Ping => (handling, HandleActionView::SendPing(ping_frame(req_id))),
    }
}

/// Takes the handling of request `req_id` one step further.
pub fn handle_request(handling: RequestHandling, req_id: Uuid, event: HandleEvent) -> (r: (
    RequestHandling,
    HandleAction,
))
    requires
        handling.expects(event),
    ensures
        (r.0, r.1@) == handle_step(handling, req_id, event),
{
    match event {
        HandleEvent::Frame(frame) => match data_from_transport_bytes(frame) {
            Ok(data) => {
                if data.len() > 0 {
                    (RequestHandling::Parsing, HandleAction::Parse(data))
                } else {
                    (RequestHandling::Done, HandleAction::Drop)
                }
            },
            Err(_) => (RequestHandling::Done, HandleAction::Drop),
        },
        HandleEvent::Parsed(parsed) => {
            if parsed {
                (RequestHandling::Resolving, HandleAction::Resolve)
            } else {
                (RequestHandling::Done, HandleAction::Drop)
            }
        },
        HandleEvent::Resolved(resolved) => {
            let (state, data): (MessageState, Vec<u8>) = match resolved {
                Resolved::Response(data) => (MessageState::Successful, data),
                Resolved::Unserializable(data) => (MessageState::Failed, data),
                Resolved::Error(data) => (MessageState::Failed, data),
            };
            (RequestHandling::Done, HandleAction::Respond(to_transport_bytes(data, req_id, state)))
        },
        HandleEvent::Ping => {
            let data: Vec<u8> = Vec::new();
            let frame: Vec<u8> = to_transport_bytes(data, req_id, MessageState::InProgress);
            (handling, HandleAction::SendPing(frame))
        },
    }
}

/// Whether request `req_id` was handled as told: on each of `events`, the
/// handling asked for the action of the same number, and became the one of the
/// next number.
pub open spec fn is_handling(
    req_id: Uuid,
    handlings: Seq<RequestHandling>,
    events: Seq<HandleEvent>,
    actions: Seq<HandleActionView>,
) -> bool {
    &&& handlings.len() == events.len() + 1
    &&& actions.len() == events.len()
    &&& handlings[0] is Start
    &&& forall|i: int| 0 <= i < events.len() ==> handlings[i].expects(#[trigger] events[i])
    &&& forall|i: int| 0 <= i < events.len() ==> (handlings[i + 1], actions[i]) == handle_step(
        handlings[i],
        req_id,
        #[trigger] events[i],
    )
}

/// What a periphery does in `n` steps with a request that is in progress: it
/// parses it, resolves it, and pings.
pub open spec fn in_progress(req_id: Uuid, frame: Seq<u8>, n: int) -> Seq<HandleActionView> {
    seq![HandleActionView::Parse(bytes::frame_data(frame)), HandleActionView::Resolve] + Seq::new(
        (n - 2) as nat,
        |i: int| HandleActionView::SendPing(ping_frame(req_id)),
    )
}

/// A request is dropped, before it is resolved, or it gets one response, which
/// is the last frame that it gets; the frames before it are pings, and they come
/// only while the request is resolved.
pub proof fn law_one_response_and_then_nothing(
    req_id: Uuid,
    handlings: Seq<RequestHandling>,
    events: Seq<HandleEvent>,
    actions: Seq<HandleActionView>,
)
    requires
        is_handling(req_id, handlings, events, actions),
        events.len() > 0,
    ensures
        events[0] is Frame,
        match handlings.last() {
            RequestHandling::Start => false,
            RequestHandling::Parsing => actions == seq![
                HandleActionView::Parse(bytes::frame_data(events[0]->Frame_0@)),
            ],
            RequestHandling::Resolving => actions == in_progress(
                req_id,
                events[0]->Frame_0@,
                actions.len() as int,
            ),
            RequestHandling::Done => {
                ||| actions == seq![HandleActionView::Drop]
                ||| actions == seq![
                    HandleActionView::Parse(bytes::frame_data(events[0]->Frame_0@)),
                    HandleActionView::Drop,
                ]
                ||| events.last() is Resolved && actions == in_progress(
                    req_id,
                    events[0]->Frame_0@,
                    actions.len() - 1,
                ).push(HandleActionView::Respond(response_frame(req_id, events.last()->Resolved_0)))
            },
        },
        forall|i: int, j: int|
            0 <= i < j < actions.len() ==> !(#[trigger] actions[i] is Drop) && !(actions[i] is Respond) && (
            #[trigger] actions[j] is SendPing ==> j >= 2 && actions[1] is Resolve),
    decreases events.len(),
{
    let n = events.len() as int;
    assert(handlings[0].expects(events[0]));
    if n == 1 {
        assert(actions.len() == 1 && handlings.len() == 2);
        assert(actions =~= seq![actions[0]]);
    } else {
        let before_handlings = handlings.drop_last();
        let before_events = events.drop_last();
        let before_actions = actions.drop_last();
        assert forall|i: int| 0 <= i < before_events.len() implies before_handlings[i].expects(
            #[trigger] before_events[i],
        ) && (before_handlings[i + 1], before_actions[i]) == handle_step(
            before_handlings[i],
            req_id,
            before_events[i],
        ) by {
            assert(before_events[i] == events[i]);
        }
        law_one_response_and_then_nothing(req_id, before_handlings, before_events, before_actions);
        assert(before_handlings.last() == handlings[n - 1]);
        assert(handlings[n - 1].expects(events[n - 1]));
        assert(actions =~= before_actions.push(actions[n - 1]));
        if handlings[n - 1] is Resolving && events[n - 1] is Ping {
            assert(actions =~= in_progress(req_id, events[0]->Frame_0@, n));
        }
        if handlings[n - 1] is Parsing {
            assert(n == 2);
            if events[1]->Parsed_0 {
                assert(actions =~= in_progress(req_id, events[0]->Frame_0@, 2));
            }
        }
        assert forall|i: int, j: int| 0 <= i < j < actions.len() implies !(#[trigger] actions[i] is Drop) && !(
        actions[i] is Respond) && (#[trigger] actions[j] is SendPing ==> j >= 2 && actions[1] is Resolve) by {
            assert(before_actions[i] == actions[i]);
        }
    }
}

/// What a terminal that takes messages gets of a frame that came for it:
/// nothing, where there is no such terminal, or the frame has no data.
pub fn handle_terminal_message(has_channel: bool, bytes: Vec<u8>) -> (r: Option<StdinMessage>)
    ensures
        r is Some <==> has_channel && bytes@.len() > 17,
        r matches Some(message) ==> message@ == forwarding::stdin_of(bytes::frame_data(bytes@)),
{
    if !has_channel {
        return None;
    }
    let data: Vec<u8> = match data_from_transport_bytes(bytes) {
        Ok(data) => data,
        Err(_) => return None,
    };
    if data.len() == 0 {
        return None;
    }
    Some(stdin_message(data))
}

/// What a terminal that takes bytes gets of a frame that came for it: nothing,
/// where there is no such terminal, or the frame cannot be read.
pub fn handle_terminal_bytes(has_channel: bool, bytes: Vec<u8>) -> (r: Option<Vec<u8>>)
    ensures
        r is Some <==> has_channel && bytes@.len() >= 17,
        r matches Some(data) ==> data@ == bytes::frame_data(bytes@),
{
    if !has_channel {
        return None;
    }
    match data_from_transport_bytes(bytes) {
        Ok(data) => Some(data),
        Err(_) => None,
    }
}

/// A request that a core sends reaches the periphery as it was serialized, on
/// the channel that the core opened for the response.
pub proof fn law_request_reaches_the_periphery(
    kind: request::RequestKind,
    state: request::RequestState,
    id: Uuid,
    data: Vec<u8>,
    frame: Vec<u8>,
)
    requires
        ids::uuid_bytes(id).len() == 16,
        data@.len() > 0,
        request::request_step(kind, state, id, request::RequestEvent::Serialized(Some(data))).1
            == request::RequestActionView::Send(frame@),
    ensures
        bytes::byte_state(frame@.last()) == MessageState::Request,
        bytes::frame_id(frame@) == ids::uuid_bytes(id),
        handle_step(RequestHandling::Start, id, HandleEvent::Frame(frame)) == (
            RequestHandling::Parsing,
            HandleActionView::Parse(data@),
        ),
{
    bytes::law_frame_round_trip(data@, id, MessageState::Request);
}

/// The response of a periphery reaches the request as it was serialized: a
/// response as one, and an error as a refusal.
pub proof fn law_response_reaches_the_request(
    kind: request::RequestKind,
    id: Uuid,
    resolved: Resolved,
    data: Vec<u8>,
    frame: Vec<u8>,
)
    requires
        ids::uuid_bytes(id).len() == 16,
        data@.len() > 0,
        resolved == Resolved::Response(data) || resolved == Resolved::Unserializable(data) || resolved
            == Resolved::Error(data),
        handle_step(RequestHandling::Resolving, id, HandleEvent::Resolved(resolved)).1 == HandleActionView::Respond(
            frame@,
        ),
    ensures
        request::request_step(
            kind,
            request::RequestState::Waiting,
            id,
            request::RequestEvent::Received(Some(frame)),
        ) == request::ended(
            true,
            if resolved is Response {
                request::RequestResultView::Response(data@)
            } else {
                request::RequestResultView::Refusal(data@)
            },
        ),
{
    bytes::law_frame_round_trip(data@, id, MessageState::Successful);
    bytes::law_frame_round_trip(data@, id, MessageState::Failed);
}

/// A request that is in progress does not time out: the periphery pings sooner
/// than the request times out, and with each ping the request waits anew.
pub proof fn law_pings_keep_a_request_alive(kind: request::RequestKind, id: Uuid, frame: Vec<u8>)
    requires
        ids::uuid_bytes(id).len() == 16,
        handle_step(RequestHandling::Resolving, id, HandleEvent::Ping).1 == HandleActionView::SendPing(frame@),
    ensures
        PING_SECONDS < request::RESPONSE_TIMEOUT_SECONDS,
        request::request_step(
            kind,
            request::RequestState::Waiting,
            id,
            request::RequestEvent::Received(Some(frame)),
        ) == request::waiting(kind),
{
    bytes::law_frame_round_trip(Seq::empty(), id, MessageState::InProgress);
}

/// What a periphery sends for a request: to tell that it is in progress, the
/// sixteen bytes of its channel id and the byte 4; to answer it, the data, those
/// sixteen bytes and the byte 2 for a response or the byte 3 for an error.
pub proof fn law_frames_for_a_request(id: Uuid, data: Vec<u8>)
    requires
        ids::uuid_bytes(id).len() == 16,
    ensures
        handle_step(RequestHandling::Resolving, id, HandleEvent::Ping) == (
            RequestHandling::Resolving,
            HandleActionView::SendPing(ids::uuid_bytes(id).push(4u8)),
        ),
        handle_step(RequestHandling::Resolving, id, HandleEvent::Resolved(Resolved::Response(data))) == (
            RequestHandling::Done,
            HandleActionView::Respond((data@ + ids::uuid_bytes(id)).push(2u8)),
        ),
        handle_step(RequestHandling::Resolving, id, HandleEvent::Resolved(Resolved::Error(data))) == (
            RequestHandling::Done,
            HandleActionView::Respond((data@ + ids::uuid_bytes(id)).push(3u8)),
        ),
        handle_step(RequestHandling::Resolving, id, HandleEvent::Resolved(Resolved::Unserializable(data))) == (
            RequestHandling::Done,
            HandleActionView::Respond((data@ + ids::uuid_bytes(id)).push(3u8)),
        ),
{
    assert(Seq::<u8>::empty() + ids::uuid_bytes(id) =~= ids::uuid_bytes(id));
}

/// A request with data is parsed, without the seventeen bytes at the end of its
/// frame, and resolved where it could be parsed; any other is dropped.
pub proof fn law_requests_with_data_are_resolved(id: Uuid, frame: Vec<u8>)
    ensures
        frame@.len() > 17 ==> handle_step(RequestHandling::Start, id, HandleEvent::Frame(frame)) == (
            RequestHandling::Parsing,
            HandleActionView::Parse(frame@.take(frame@.len() - 17)),
        ),
        frame@.len() <= 17 ==> handle_step(RequestHandling::Start, id, HandleEvent::Frame(frame)) == (
            RequestHandling::Done,
            HandleActionView::Drop,
        ),
        handle_step(RequestHandling::Parsing, id, HandleEvent::Parsed(true)) == (
            RequestHandling::Resolving,
            HandleActionView::Resolve,
        ),
        handle_step(RequestHandling::Parsing, id, HandleEvent::Parsed(false)) == (
            RequestHandling::Done,
            HandleActionView::Drop,
        ),
{
}

/// The contents of an action tell what it is, and hold all of it.
pub proof fn law_contents_of_an_action(action: HandleAction)
    ensures
        action is Drop <==> action@ is Drop,
        action is Parse <==> action@ is Parse,
        action is Parse ==> action@->Parse_0 == action->Parse_0@,
        action is Resolve <==> action@ is Resolve,
        action is Respond <==> action@ is Respond,
        action is Respond ==> action@->Respond_0 == action->Respond_0@,
        action is SendPing <==> action@ is SendPing,
        action is SendPing ==> action@->SendPing_0 == action->SendPing_0@,
{
}

} // verus!
