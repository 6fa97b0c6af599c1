//! The exchange between the socket of a user and the channel of a terminal, on
//! the core.

use vstd::prelude::*;
use vstd::string::StrSliceExecFns;
use uuid::Uuid;
use crate::bytes;
use crate::bytes::data_from_transport_bytes;
use crate::bytes::to_transport_bytes;
use crate::bytes::MessageState;
use crate::forwarding;

verus! {

/// What a user is told when the channel of the terminal ends.
pub const STREAM_EOF: &'static str = "STREAM EOF";

/// What came from the socket of a user.
pub enum UserMessage {
    Binary(Vec<u8>),
    Text(String),
    Close,
    /// A ping or a pong.
    Other,
    /// The socket failed.
    Failed,
    /// The socket ended.
    End,
}

/// The data of a message of a user, if it has any.
pub open spec fn user_data(message: UserMessage) -> Option<Seq<u8>> {
    match message {
        UserMessage::Binary(data) => Some(data@),
        UserMessage::Text(text) => Some(vstd::utf8::encode_utf8(text@)),
        _ => None,
    }
}

/// The direction from the user to the periphery.
#[derive(Debug, Clone, Copy, PartialEq, Eq, Structural)]
pub enum ToPeriphery {
    Waiting,
    Sending,
    Stopped,
}

/// The direction from the periphery to the user.
#[derive(Debug, Clone, Copy, PartialEq, Eq, Structural)]
pub enum ToUser {
    Waiting,
    Sending,
    SendingEof,
    Stopped,
}

/// An exchange.
#[derive(Debug, Clone, Copy, PartialEq, Eq, Structural)]
pub struct Exchange {
    pub to_periphery: ToPeriphery,
    pub to_user: ToUser,
    pub cancelled: bool,
}

/// What happened to an exchange.
pub enum ExchangeEvent {
    /// A message came from the user.
    User(UserMessage),
    /// The periphery connection took the frame, or could not.
    PeripherySent(bool),
    /// The direction to the periphery saw the cancellation.
    ToPeripheryCancelled,
    /// A frame came on the channel, or none will.
    Channel(Option<Vec<u8>>),
    /// The user took the message, or could not.
    UserSent(bool),
    /// The direction to the user saw the cancellation.
    ToUserCancelled,
}

/// What is to be done next.
pub enum ExchangeAction {
    /// Wait for a message of the user.
    ReceiveUser,
    /// Send a frame to the periphery.
    SendPeriphery(Vec<u8>),
    /// Wait for a frame on the channel.
    ReceiveChannel,
    /// Send bytes to the user.
    SendUser(Vec<u8>),
    /// Send the end of the stream to the user, as text.
    SendEof,
    /// Stop the direction, and cancel the other one where `cancel` says so.
    /// Where both have stopped, disconnect the terminal from its channel.
    Stop { cancel: bool, disconnect: Option<Uuid> },
}

/// The contents of an `ExchangeAction`.
pub enum ExchangeActionView {
    ReceiveUser,
    SendPeriphery(Seq<u8>),
    ReceiveChannel,
    SendUser(Seq<u8>),
    SendEof,
    Stop { cancel: bool, disconnect: Option<Uuid> },
}

impl View for ExchangeAction {
    type V = ExchangeActionView;

    open spec fn view(&self) -> ExchangeActionView {
        match self {
            ExchangeAction::ReceiveUser => ExchangeActionView::ReceiveUser,
            ExchangeAction::SendPeriphery(bytes) => ExchangeActionView::SendPeriphery(bytes@),
            ExchangeAction::ReceiveChannel => ExchangeActionView::ReceiveChannel,
            ExchangeAction::SendUser(bytes) => ExchangeActionView::SendUser(bytes@),
            ExchangeAction::SendEof => ExchangeActionView::SendEof,
            ExchangeAction::Stop { cancel, disconnect } => ExchangeActionView::Stop {
                cancel: *cancel,
                disconnect: *disconnect,
            },
        }
    }
}

impl Exchange {
    /// A direction that stopped has cancelled the other one.
    pub open spec fn wf(self) -> bool {
        self.to_periphery is Stopped || self.to_user is Stopped ==> self.cancelled
    }

    /// Whether no direction goes on.
    pub open spec fn is_over(self) -> bool {
        self.to_periphery is Stopped && self.to_user is Stopped
    }

    /// Whether the exchange waits for `event`.
    pub open spec fn expects(self, event: ExchangeEvent) -> bool {
        match event {
            ExchangeEvent::User(_) => self.to_periphery is Waiting,
            ExchangeEvent::ToPeripheryCancelled => self.to_periphery is Waiting && self.cancelled,
            ExchangeEvent::PeripherySent(_) => self.to_periphery is Sending,
            ExchangeEvent::Channel(_) => self.to_user is Waiting,
            ExchangeEvent::ToUserCancelled => self.to_user is Waiting && self.cancelled,
            ExchangeEvent::UserSent(_) => self.to_user is Sending || self.to_user is SendingEof,
        }
    }

    /// An exchange in which nothing happened yet.
    pub fn new() -> (r: Exchange)
        ensures
            r.wf(),
            r == (Exchange { to_periphery: ToPeriphery::Waiting, to_user: ToUser::Waiting, cancelled: false }),
    {
        Exchange { to_periphery: ToPeriphery::Waiting, to_user: ToUser::Waiting, cancelled: false }
    }

    fn stopped(self, id: Uuid, cancel: bool) -> (r: (Exchange, ExchangeAction))
        ensures
            (r.0, r.1@) == stop(self, id, cancel),
    {
        let next = Exchange { cancelled: self.cancelled || cancel, ..self };
        let over: bool = matches!(next.to_periphery, ToPeriphery::Stopped) && matches!(next.to_user, ToUser::Stopped);
        let disconnect: Option<Uuid> = if over { Some(id) } else { None };
        (next, ExchangeAction::Stop { cancel, disconnect })
    }
}

/// An exchange after a direction stopped, and what is to be done.
pub open spec fn stop(exchange: Exchange, id: Uuid, cancel: bool) -> (Exchange, ExchangeActionView) {
    let next = Exchange { cancelled: exchange.cancelled || cancel, ..exchange };
    (next, ExchangeActionView::Stop { cancel, disconnect: if next.is_over() { Some(id) } else { None } })
}

/// What becomes of an exchange on channel `id`, and what is to be done.
pub open spec fn exchange_step(exchange: Exchange, id: Uuid, event: ExchangeEvent) -> (Exchange, ExchangeActionView) {
    let periphery_stopped = Exchange { to_periphery: ToPeriphery::Stopped, ..exchange };
    let user_stopped = Exchange { to_user: ToUser::Stopped, ..exchange };
    match event {
        ExchangeEvent::User(message) => match user_data(message) {
            Some(data) => (
                Exchange { to_periphery: ToPeriphery::Sending, ..exchange },
                ExchangeActionView::SendPeriphery(bytes::frame(data, id, MessageState::Terminal)),
            ),
            None => if message is Other {
                (exchange, ExchangeActionView::ReceiveUser)
            } else {
                stop(periphery_stopped, id, true)
            },
        },
        ExchangeEvent::PeripherySent(sent) => if sent {
            (Exchange { to_periphery: ToPeriphery::Waiting, ..exchange }, ExchangeActionView::ReceiveUser)
        } else {
            stop(periphery_stopped, id, true)
        },
        ExchangeEvent::ToPeripheryCancelled => stop(periphery_stopped, id, false),
        ExchangeEvent::Channel(Some(frame)) => if frame@.len() >= 17 {
            (
                Exchange { to_user: ToUser::Sending, ..exchange },
                ExchangeActionView::SendUser(bytes::frame_data(frame@)),
            )
        } else {
            (exchange, ExchangeActionView::ReceiveChannel)
        },
        ExchangeEvent::Channel(None) => (
            Exchange { to_user: ToUser::SendingEof, ..exchange },
            ExchangeActionView::SendEof,
        ),
        ExchangeEvent::UserSent(sent) => if sent && exchange.to_user is Sending {
            (Exchange { to_user: ToUser::Waiting, ..exchange }, ExchangeActionView::ReceiveChannel)
        } else {
            stop(user_stopped, id, true)
        },
        ExchangeEvent::ToUserCancelled => stop(user_stopped, id, false),
    }
}

/// Takes the exchange between the socket of a user and the terminal channel
/// `id` one step further.
pub fn forward_ws_channel(exchange: Exchange, id: Uuid, event: ExchangeEvent) -> (r: (Exchange, ExchangeAction))
    requires
        exchange.wf(),
        exchange.expects(event),
    ensures
        r.0.wf(),
        (r.0, r.1@) == exchange_step(exchange, id, event),
{
    let periphery_stopped = Exchange { to_periphery: ToPeriphery::Stopped, ..exchange };
    let user_stopped = Exchange { to_user: ToUser::Stopped, ..exchange };
    match event {
        ExchangeEvent::User(UserMessage::Binary(data)) => (
            Exchange { to_periphery: ToPeriphery::Sending, ..exchange },
            ExchangeAction::SendPeriphery(to_transport_bytes(data, id, MessageState::Terminal)),
        ),
        ExchangeEvent::User(UserMessage::Text(text)) => {
            let data: Vec<u8> = text.as_str().as_bytes_vec();
            (
                Exchange { to_periphery: ToPeriphery::Sending, ..exchange },
                ExchangeAction::SendPeriphery(to_transport_bytes(data, id, MessageState::Terminal)),
            )
        },
        ExchangeEvent::User(UserMessage::Other) => (exchange, ExchangeAction::ReceiveUser),
        ExchangeEvent::User(_) => periphery_stopped.stopped(id, true),
        ExchangeEvent::PeripherySent(sent) => {
            if sent {
                (Exchange { to_periphery: ToPeriphery::Waiting, ..exchange }, ExchangeAction::ReceiveUser)
            } else {
                periphery_stopped.stopped(id, true)
            }
        },
        ExchangeEvent::ToPeripheryCancelled => periphery_stopped.stopped(id, false),
        ExchangeEvent::Channel(Some(frame)) => match data_from_transport_bytes(frame) {
            Ok(data) => (Exchange { to_user: ToUser::Sending, ..exchange }, ExchangeAction::SendUser(data)),
            // No data, ignore
            Err(_) => (exchange, ExchangeAction::ReceiveChannel),
        },
        ExchangeEvent::Channel(None) => (
            Exchange { to_user: ToUser::SendingEof, ..exchange },
            ExchangeAction::SendEof,
        ),
        ExchangeEvent::UserSent(sent) => {
            if sent && matches!(exchange.to_user, ToUser::Sending) {
                (Exchange { to_user: ToUser::Waiting, ..exchange }, ExchangeAction::ReceiveChannel)
            } else {
                user_stopped.stopped(id, true)
            }
        },
        ExchangeEvent::ToUserCancelled => user_stopped.stopped(id, false),
    }
}

/// The terminal is disconnected from its channel when both directions have
/// stopped, and not before.
pub proof fn law_exchange_ends_once(exchange: Exchange, id: Uuid, event: ExchangeEvent)
    requires
        exchange.wf(),
        exchange.expects(event),
    ensures
        exchange_step(exchange, id, event).0.is_over() <==> (exchange_step(exchange, id, event).1 matches
            ExchangeActionView::Stop { cancel, disconnect } && disconnect == Some(id)),
        !exchange.is_over(),
{
}

/// What a user types reaches the terminal: the data of a message, framed by the
/// core and read back by the periphery, becomes input without the leading zero
/// byte.
pub proof fn law_typed_bytes_reach_the_terminal(exchange: Exchange, id: Uuid, typed: Seq<u8>, message: UserMessage)
    requires
        crate::ids::uuid_bytes(id).len() == 16,
        user_data(message) == Some(seq![0u8] + typed),
    ensures
        exchange_step(exchange, id, ExchangeEvent::User(message)).1 matches ExchangeActionView::SendPeriphery(frame)
            && frame.len() >= 17 && bytes::byte_state(frame.last()) == MessageState::Terminal
            && forwarding::stdin_of(bytes::frame_data(frame)) == forwarding::StdinView::Bytes(typed),
{
    let data = seq![0u8] + typed;
    bytes::law_frame_round_trip(data, id, MessageState::Terminal);
    assert(data.skip(1) =~= typed);
}

/// What a terminal prints reaches the user: the frame that the periphery makes
/// of the output is sent to the user as the output.
pub proof fn law_output_reaches_the_user(exchange: Exchange, id: Uuid, output: Vec<u8>, frame: Vec<u8>, sides: forwarding::Sides)
    requires
        crate::ids::uuid_bytes(id).len() == 16,
        forwarding::write_step(sides, id, forwarding::ForwardEvent::Stdout(Ok(output))).1
            == forwarding::ForwardActionView::SendOutput(frame@),
    ensures
        exchange_step(exchange, id, ExchangeEvent::Channel(Some(frame))).1 == ExchangeActionView::SendUser(output@),
{
    bytes::law_frame_round_trip(output@, id, MessageState::Terminal);
}

/// What a user sends goes to the periphery as it is, as bytes or as the bytes of
/// its text, on the channel of the terminal: the data, the sixteen bytes of the
/// channel id, then the byte 1. Pings are passed over. Anything else, and a frame
/// that cannot be sent, stops this direction and cancels the other.
pub proof fn law_messages_of_a_user(exchange: Exchange, id: Uuid, data: Vec<u8>, text: String, message: UserMessage)
    requires
        crate::ids::uuid_bytes(id).len() == 16,
    ensures
        exchange_step(exchange, id, ExchangeEvent::User(UserMessage::Binary(data))) == (
            Exchange { to_periphery: ToPeriphery::Sending, ..exchange },
            ExchangeActionView::SendPeriphery((data@ + crate::ids::uuid_bytes(id)).push(1u8)),
        ),
        exchange_step(exchange, id, ExchangeEvent::User(UserMessage::Text(text))) == (
            Exchange { to_periphery: ToPeriphery::Sending, ..exchange },
            ExchangeActionView::SendPeriphery(
                (vstd::utf8::encode_utf8(text@) + crate::ids::uuid_bytes(id)).push(1u8),
            ),
        ),
        exchange_step(exchange, id, ExchangeEvent::User(UserMessage::Other)) == (
            exchange,
            ExchangeActionView::ReceiveUser,
        ),
        exchange_step(exchange, id, ExchangeEvent::PeripherySent(true)) == (
            Exchange { to_periphery: ToPeriphery::Waiting, ..exchange },
            ExchangeActionView::ReceiveUser,
        ),
        message is Close || message is Failed || message is End ==> exchange_step(
            exchange,
            id,
            ExchangeEvent::User(message),
        ) == exchange_step(exchange, id, ExchangeEvent::PeripherySent(false)),
        exchange_step(exchange, id, ExchangeEvent::PeripherySent(false)) == (
            Exchange { to_periphery: ToPeriphery::Stopped, cancelled: true, ..exchange },
            (ExchangeActionView::Stop {
                cancel: true,
                disconnect: if exchange.to_user is Stopped {
                    Some(id)
                } else {
                    None
                },
            }),
        ),
        exchange_step(exchange, id, ExchangeEvent::ToPeripheryCancelled) == (
            Exchange { to_periphery: ToPeriphery::Stopped, ..exchange },
            (ExchangeActionView::Stop {
                cancel: false,
                disconnect: if exchange.to_user is Stopped {
                    Some(id)
                } else {
                    None
                },
            }),
        ),
{
}

/// What comes on the channel of the terminal goes to the user without the
/// seventeen bytes at its end; what is shorter is passed over. When the channel
/// ends, the user is told, and this direction stops and cancels the other, as it
/// does when the user cannot be reached.
pub proof fn law_frames_for_a_user(exchange: Exchange, id: Uuid, frame: Vec<u8>, sent: bool)
    ensures
        frame@.len() >= 17 ==> exchange_step(exchange, id, ExchangeEvent::Channel(Some(frame))) == (
            Exchange { to_user: ToUser::Sending, ..exchange },
            ExchangeActionView::SendUser(frame@.take(frame@.len() - 17)),
        ),
        frame@.len() < 17 ==> exchange_step(exchange, id, ExchangeEvent::Channel(Some(frame))) == (
            exchange,
            ExchangeActionView::ReceiveChannel,
        ),
        exchange_step(exchange, id, ExchangeEvent::Channel(None)) == (
            Exchange { to_user: ToUser::SendingEof, ..exchange },
            ExchangeActionView::SendEof,
        ),
        STREAM_EOF@ == "STREAM EOF"@,
        exchange.to_user is Sending ==> exchange_step(exchange, id, ExchangeEvent::UserSent(true)) == (
            Exchange { to_user: ToUser::Waiting, ..exchange },
            ExchangeActionView::ReceiveChannel,
        ),
        exchange.to_user is SendingEof || !sent ==> exchange_step(exchange, id, ExchangeEvent::UserSent(sent)) == (
            Exchange { to_user: ToUser::Stopped, cancelled: true, ..exchange },
            (ExchangeActionView::Stop {
                cancel: true,
                disconnect: if exchange.to_periphery is Stopped {
                    Some(id)
                } else {
                    None
                },
            }),
        ),
        exchange_step(exchange, id, ExchangeEvent::ToUserCancelled) == (
            Exchange { to_user: ToUser::Stopped, ..exchange },
            (ExchangeActionView::Stop {
                cancel: false,
                disconnect: if exchange.to_periphery is Stopped {
                    Some(id)
                } else {
                    None
                },
            }),
        ),
{
}

/// The contents of an action tell what it is, and hold all of it.
pub proof fn law_contents_of_an_action(action: ExchangeAction)
    ensures
        action is ReceiveUser <==> action@ is ReceiveUser,
        action is SendPeriphery <==> action@ is SendPeriphery,
        action is SendPeriphery ==> action@->SendPeriphery_0 == action->SendPeriphery_0@,
        action is ReceiveChannel <==> action@ is ReceiveChannel,
        action is SendUser <==> action@ is SendUser,
        action is SendUser ==> action@->SendUser_0 == action->SendUser_0@,
        action is SendEof <==> action@ is SendEof,
        action is Stop <==> action@ is Stop,
        action is Stop ==> action@->Stop_cancel == action->Stop_cancel,
        action is Stop ==> action@->Stop_disconnect == action->Stop_disconnect,
{
}

} // verus!
