//! Forwarding between a terminal of a periphery and the channel on which a core
//! asked for it.

use vstd::prelude::*;
use vstd::slice::slice_subrange;
use vstd::slice::slice_to_vec;
use vstd::string::StrSliceExecFns;
use uuid::Uuid;
use crate::bytes;
use crate::bytes::data_from_transport_bytes;
use crate::bytes::to_transport_bytes;
use crate::bytes::MessageState;
use crate::ids;
use crate::terminal;
use crate::text;

verus! {

/// What a terminal gets.
pub enum StdinMessage {
    /// Input for the terminal.
    Bytes(Vec<u8>),
    /// The serialized dimensions of the window, to be parsed.
    Resize(Vec<u8>),
}

/// The contents of a `StdinMessage`.
pub enum StdinView {
    Bytes(Seq<u8>),
    Resize(Seq<u8>),
}

impl View for StdinMessage {
    type V = StdinView;

    open spec fn view(&self) -> StdinView {
        match self {
            StdinMessage::Bytes(bytes) => StdinView::Bytes(bytes@),
            StdinMessage::Resize(bytes) => StdinView::Resize(bytes@),
        }
    }
}

/// What a terminal gets for the bytes that a client sent: the first byte tells
/// input (0x00) from dimensions (0xFF); bytes that start otherwise are input
/// as a whole.
pub open spec fn stdin_of(data: Seq<u8>) -> StdinView {
    if data.len() > 0 && data[0] == 0x00 {
        StdinView::Bytes(data.skip(1))
    } else if data.len() > 0 && data[0] == 0xFF {
        StdinView::Resize(data.skip(1))
    } else {
        StdinView::Bytes(data)
    }
}

/// The bytes after the first.
fn rest_of(data: &Vec<u8>) -> (r: Vec<u8>)
    requires
        data@.len() > 0,
    ensures
        r@ == data@.skip(1),
{
    let r: Vec<u8> = slice_to_vec(slice_subrange(data.as_slice(), 1, data.len()));
    assert(r@ =~= data@.skip(1));
    r
}

/// What a terminal gets for the bytes that a client sent.
pub fn stdin_message(data: Vec<u8>) -> (r: StdinMessage)
    ensures
        r@ == stdin_of(data@),
{
    if data.len() > 0 && data[0] == 0x00 {
        StdinMessage::Bytes(rest_of(&data))
    } else if data.len() > 0 && data[0] == 0xFF {
        StdinMessage::Resize(rest_of(&data))
    } else {
        StdinMessage::Bytes(data)
    }
}

/// The two ways in which a forwarding is told to end.
#[derive(Debug, Clone, Copy, PartialEq, Eq, Structural)]
pub enum Token {
    /// The terminal is gone.
    Terminal,
    /// This forwarding is over.
    Session,
}

/// The direction from the channel to the terminal.
#[derive(Debug, Clone, Copy, PartialEq, Eq, Structural)]
pub enum ReadSide {
    Waiting,
    Sending,
    Stopped,
}

/// The direction from the terminal to the channel.
#[derive(Debug, Clone, Copy, PartialEq, Eq, Structural)]
pub enum WriteSide {
    Waiting,
    Sending,
    SendingError,
    Stopped,
}

/// Both directions of a forwarding, and what was cancelled.
#[derive(Debug, Clone, Copy, PartialEq, Eq, Structural)]
pub struct Sides {
    pub read: ReadSide,
    pub write: WriteSide,
    pub terminal_cancelled: bool,
    pub session_cancelled: bool,
}

/// The forwarding of a terminal.
pub enum TerminalForwarding {
    Start,
    /// The first part of the history is on its way.
    FirstPart { second: Vec<u8> },
    /// The second part of the history is on its way.
    SecondPart,
    Running(Sides),
    Done,
}

/// What happened to a forwarding.
pub enum ForwardEvent {
    /// The channel is open; the history of the terminal comes in two parts.
    Start { first: Vec<u8>, second: Vec<u8> },
    /// A part of the history was sent, or could not be.
    HistorySent(bool),
    /// Bytes came on the channel, or none will.
    Received(Option<Vec<u8>>),
    /// The terminal took its message, or could not.
    StdinSent(bool),
    /// The dimensions could not be parsed.
    NoDimensions,
    /// The terminal printed bytes, or its output could not be read.
    Stdout(Result<Vec<u8>, String>),
    /// The channel took the bytes, or could not.
    OutputSent(bool),
    /// The read direction saw a token cancelled.
    ReadCancelled(Token),
    /// The write direction saw a token cancelled.
    WriteCancelled(Token),
}

/// What is to be done next.
pub enum ForwardAction {
    /// Send a frame of history.
    SendHistory(Vec<u8>),
    /// The history could not be sent: take the channel away.
    Abandon,
    /// Start both directions.
    Run,
    /// Wait for bytes on the channel.
    Receive,
    /// Hand a message to the terminal.
    Stdin(StdinMessage),
    /// Wait for output of the terminal.
    ReadStdout,
    /// Send a frame of output.
    SendOutput(Vec<u8>),
    /// Stop the direction. Where a token is given, cancel it. Where both
    /// directions have stopped, take the channel away and clean up the
    /// terminals.
    Stop { cancel: Option<Token>, finish: bool },
}

/// The contents of a `ForwardAction`.
pub enum ForwardActionView {
    SendHistory(Seq<u8>),
    Abandon,
    Run,
    Receive,
    Stdin(StdinView),
    ReadStdout,
    SendOutput(Seq<u8>),
    Stop { cancel: Option<Token>, finish: bool },
}

impl View for ForwardAction {
    type V = ForwardActionView;

    open spec fn view(&self) -> ForwardActionView {
        match self {
            ForwardAction::SendHistory(bytes) => ForwardActionView::SendHistory(bytes@),
            ForwardAction::Abandon => ForwardActionView::Abandon,
            ForwardAction::Run => ForwardActionView::Run,
            ForwardAction::Receive => ForwardActionView::Receive,
            ForwardAction::Stdin(message) => ForwardActionView::Stdin(message@),
            ForwardAction::ReadStdout => ForwardActionView::ReadStdout,
            ForwardAction::SendOutput(bytes) => ForwardActionView::SendOutput(bytes@),
            ForwardAction::Stop { cancel, finish } => ForwardActionView::Stop { cancel: *cancel, finish: *finish },
        }
    }
}

/// Both directions, started.
pub open spec fn started() -> Sides {
    Sides {
        read: ReadSide::Waiting,
        write: WriteSide::Waiting,
        terminal_cancelled: false,
        session_cancelled: false,
    }
}

impl Sides {
    /// The directions after `token` was cancelled.
    pub open spec fn cancelled(self, token: Token) -> Sides {
        match token {
            Token::Terminal => Sides { terminal_cancelled: true, ..self },
            Token::Session => Sides { session_cancelled: true, ..self },
        }
    }

    /// Whether anything was cancelled.
    pub open spec fn is_cancelled(self) -> bool {
        self.terminal_cancelled || self.session_cancelled
    }

    /// Whether no direction goes on.
    pub open spec fn both_stopped(self) -> bool {
        self.read is Stopped && self.write is Stopped
    }

    fn cancel(self, token: Token) -> (r: Sides)
        ensures
            r == self.cancelled(token),
    {
        match token {
            Token::Terminal => Sides { terminal_cancelled: true, ..self },
            Token::Session => Sides { session_cancelled: true, ..self },
        }
    }
}

/// The forwarding after a direction stopped, and what is to be done.
pub open spec fn stop(sides: Sides, cancel: Option<Token>) -> (TerminalForwarding, ForwardActionView) {
    (
        if sides.both_stopped() {
            TerminalForwarding::Done
        } else {
            TerminalForwarding::Running(sides)
        },
        ForwardActionView::Stop { cancel, finish: sides.both_stopped() },
    )
}

/// The forwarding after the part `second` of the history is next.
pub open spec fn second_part(second: Seq<u8>, id: Uuid) -> (TerminalForwarding, ForwardActionView) {
    if second.len() > 0 {
        (
            TerminalForwarding::SecondPart,
            ForwardActionView::SendHistory(bytes::frame(second, id, MessageState::Terminal)),
        )
    } else {
        (TerminalForwarding::Running(started()), ForwardActionView::Run)
    }
}

/// What the direction from the channel to the terminal does.
pub open spec fn read_step(sides: Sides, event: ForwardEvent) -> (TerminalForwarding, ForwardActionView) {
    let stopped = Sides { read: ReadSide::Stopped, ..sides };
    match event {
        ForwardEvent::Received(Some(data)) => (
            TerminalForwarding::Running(Sides { read: ReadSide::Sending, ..sides }),
            ForwardActionView::Stdin(stdin_of(data@)),
        ),
        ForwardEvent::Received(None) => stop(stopped.cancelled(Token::Session), Some(Token::Session)),
        ForwardEvent::StdinSent(false) => stop(stopped.cancelled(Token::Terminal), Some(Token::Terminal)),
        ForwardEvent::ReadCancelled(token) => stop(stopped.cancelled(token), None),
        _ => (
            TerminalForwarding::Running(Sides { read: ReadSide::Waiting, ..sides }),
            ForwardActionView::Receive,
        ),
    }
}

/// What the direction from the terminal to the channel does.
pub open spec fn write_step(sides: Sides, id: Uuid, event: ForwardEvent) -> (TerminalForwarding, ForwardActionView) {
    let stopped = Sides { write: WriteSide::Stopped, ..sides };
    match event {
        ForwardEvent::Stdout(Ok(data)) => (
            TerminalForwarding::Running(Sides { write: WriteSide::Sending, ..sides }),
            ForwardActionView::SendOutput(bytes::frame(data@, id, MessageState::Terminal)),
        ),
        ForwardEvent::Stdout(Err(error)) => (
            TerminalForwarding::Running(Sides { write: WriteSide::SendingError, ..sides }),
            ForwardActionView::SendOutput(
                bytes::frame(vstd::utf8::encode_utf8("ERROR: "@ + error@), id, MessageState::Terminal),
            ),
        ),
        ForwardEvent::OutputSent(sent) => if sides.write is SendingError {
            stop(stopped.cancelled(Token::Terminal), Some(Token::Terminal))
        } else if !sent {
            stop(stopped.cancelled(Token::Session), Some(Token::Session))
        } else {
            (
                TerminalForwarding::Running(Sides { write: WriteSide::Waiting, ..sides }),
                ForwardActionView::ReadStdout,
            )
        },
        ForwardEvent::WriteCancelled(token) => stop(stopped.cancelled(token), None),
        _ => (TerminalForwarding::Running(sides), ForwardActionView::ReadStdout),
    }
}

/// Whether `event` is one of the direction from the channel to the terminal.
pub open spec fn is_read(event: ForwardEvent) -> bool {
    event is Received || event is StdinSent || event is NoDimensions || event is ReadCancelled
}

/// What becomes of a forwarding, and what is to be done.
pub open spec fn forward_step(
    forwarding: TerminalForwarding,
    id: Uuid,
    event: ForwardEvent,
) -> (TerminalForwarding, ForwardActionView) {
    match (forwarding, event) {
        (TerminalForwarding::Start, ForwardEvent::Start { first, second }) => if first@.len() > 0 {
            (
                TerminalForwarding::FirstPart { second },
                ForwardActionView::SendHistory(bytes::frame(first@, id, MessageState::Terminal)),
            )
        } else {
            second_part(second@, id)
        },
        (TerminalForwarding::FirstPart { second }, ForwardEvent::HistorySent(true)) => second_part(second@, id),
        (TerminalForwarding::SecondPart, ForwardEvent::HistorySent(true)) => (
            TerminalForwarding::Running(started()),
            ForwardActionView::Run,
        ),
        (TerminalForwarding::Running(sides), event) => if is_read(event) {
            read_step(sides, event)
        } else {
            write_step(sides, id, event)
        },
        _ => (TerminalForwarding::Done, ForwardActionView::Abandon),
    }
}

impl TerminalForwarding {
    /// A direction that stopped has told the other one, and one of them goes on.
    pub open spec fn wf(self) -> bool {
        match self {
            TerminalForwarding::Running(sides) => {
                &&& sides.read is Stopped || sides.write is Stopped ==> sides.is_cancelled()
                &&& !sides.both_stopped()
            },
            _ => true,
        }
    }

    /// Whether the forwarding waits for `event`.
    pub open spec fn expects(self, event: ForwardEvent) -> bool {
        match self {
            TerminalForwarding::Start => event is Start,
            TerminalForwarding::FirstPart { .. } => event is HistorySent,
            TerminalForwarding::SecondPart => event is HistorySent,
            TerminalForwarding::Running(sides) => match event {
                ForwardEvent::Received(_) => sides.read is Waiting,
                ForwardEvent::ReadCancelled(_) => sides.read is Waiting,
                ForwardEvent::StdinSent(_) => sides.read is Sending,
                ForwardEvent::NoDimensions => sides.read is Sending,
                ForwardEvent::Stdout(_) => sides.write is Waiting,
                ForwardEvent::WriteCancelled(_) => sides.write is Waiting,
                ForwardEvent::OutputSent(_) => sides.write is Sending || sides.write is SendingError,
                _ => false,
            },
            TerminalForwarding::Done => false,
        }
    }

    /// A direction stops.
    fn stopped(sides: Sides, cancel: Option<Token>) -> (r: (TerminalForwarding, ForwardAction))
        ensures
            (r.0, r.1@) == stop(sides, cancel),
    {
        let finish: bool = matches!(sides.read, ReadSide::Stopped) && matches!(sides.write, WriteSide::Stopped);
        let next: TerminalForwarding = if finish {
            TerminalForwarding::Done
        } else {
            TerminalForwarding::Running(sides)
        };
        (next, ForwardAction::Stop { cancel, finish })
    }

    /// Both directions start.
    fn run() -> (r: (TerminalForwarding, ForwardAction))
        ensures
            (r.0, r.1@) == (TerminalForwarding::Running(started()), ForwardActionView::Run),
    {
        let sides = Sides {
            read: ReadSide::Waiting,
            write: WriteSide::Waiting,
            terminal_cancelled: false,
            session_cancelled: false,
        };
        (TerminalForwarding::Running(sides), ForwardAction::Run)
    }

    fn send_second(second: Vec<u8>, id: Uuid) -> (r: (TerminalForwarding, ForwardAction))
        ensures
            (r.0, r.1@) == second_part(second@, id),
    {
        if second.len() > 0 {
            (
                TerminalForwarding::SecondPart,
                ForwardAction::SendHistory(to_transport_bytes(second, id, MessageState::Terminal)),
            )
        } else {
            TerminalForwarding::run()
        }
    }

    fn on_read(sides: Sides, event: ForwardEvent) -> (r: (TerminalForwarding, ForwardAction))
        requires
            is_read(event),
        ensures
            (r.0, r.1@) == read_step(sides, event),
    {
        let stopped = Sides { read: ReadSide::Stopped, ..sides };
        match event {
            ForwardEvent::Received(Some(data)) => (
                TerminalForwarding::Running(Sides { read: ReadSide::Sending, ..sides }),
                ForwardAction::Stdin(stdin_message(data)),
            ),
            ForwardEvent::Received(None) => {
                TerminalForwarding::stopped(stopped.cancel(Token::Session), Some(Token::Session))
            },
            ForwardEvent::StdinSent(false) => {
                TerminalForwarding::stopped(stopped.cancel(Token::Terminal), Some(Token::Terminal))
            },
            ForwardEvent::ReadCancelled(token) => TerminalForwarding::stopped(stopped.cancel(token), None),
            _ => (
                TerminalForwarding::Running(Sides { read: ReadSide::Waiting, ..sides }),
                ForwardAction::Receive,
            ),
        }
    }

    fn on_write(sides: Sides, id: Uuid, event: ForwardEvent) -> (r: (TerminalForwarding, ForwardAction))
        ensures
            (r.0, r.1@) == write_step(sides, id, event),
    {
        let stopped = Sides { write: WriteSide::Stopped, ..sides };
        match event {
            ForwardEvent::Stdout(Ok(data)) => (
                TerminalForwarding::Running(Sides { write: WriteSide::Sending, ..sides }),
                ForwardAction::SendOutput(to_transport_bytes(data, id, MessageState::Terminal)),
            ),
            ForwardEvent::Stdout(Err(error)) => {
                let message: String = text::concat("ERROR: ", error.as_str());
                let data: Vec<u8> = message.as_str().as_bytes_vec();
                (
                    TerminalForwarding::Running(Sides { write: WriteSide::SendingError, ..sides }),
                    ForwardAction::SendOutput(to_transport_bytes(data, id, MessageState::Terminal)),
                )
            },
            ForwardEvent::OutputSent(sent) => {
                if matches!(sides.write, WriteSide::SendingError) {
                    TerminalForwarding::stopped(stopped.cancel(Token::Terminal), Some(Token::Terminal))
                } else if !sent {
                    TerminalForwarding::stopped(stopped.cancel(Token::Session), Some(Token::Session))
                } else {
                    (
                        TerminalForwarding::Running(Sides { write: WriteSide::Waiting, ..sides }),
                        ForwardAction::ReadStdout,
                    )
                }
            },
            ForwardEvent::WriteCancelled(token) => TerminalForwarding::stopped(stopped.cancel(token), None),
            _ => (TerminalForwarding::Running(sides), ForwardAction::ReadStdout),
        }
    }
}

/// Takes the forwarding of the terminal on channel `id` one step further.
pub fn handle_terminal_forwarding(forwarding: TerminalForwarding, id: Uuid, event: ForwardEvent) -> (r: (
    TerminalForwarding,
    ForwardAction,
))
    requires
        forwarding.wf(),
        forwarding.expects(event),
    ensures
        r.0.wf(),
        (r.0, r.1@) == forward_step(forwarding, id, event),
{
    match (forwarding, event) {
        (TerminalForwarding::Start, ForwardEvent::Start { first, second }) => {
            if first.len() > 0 {
                (
                    TerminalForwarding::FirstPart { second },
                    ForwardAction::SendHistory(to_transport_bytes(first, id, MessageState::Terminal)),
                )
            } else {
                TerminalForwarding::send_second(second, id)
            }
        },
        (TerminalForwarding::FirstPart { second }, ForwardEvent::HistorySent(true)) => {
            TerminalForwarding::send_second(second, id)
        },
        (TerminalForwarding::SecondPart, ForwardEvent::HistorySent(true)) => TerminalForwarding::run(),
        (TerminalForwarding::Running(sides), event) => match event {
            ForwardEvent::Received(_) => TerminalForwarding::on_read(sides, event),
            ForwardEvent::StdinSent(_) => TerminalForwarding::on_read(sides, event),
            ForwardEvent::NoDimensions => TerminalForwarding::on_read(sides, event),
            ForwardEvent::ReadCancelled(_) => TerminalForwarding::on_read(sides, event),
            _ => TerminalForwarding::on_write(sides, id, event),
        },
        _ => (TerminalForwarding::Done, ForwardAction::Abandon),
    }
}

/// No direction goes on alone: once one has stopped, a token is cancelled, which
/// the other one sees; and the forwarding is over exactly when both have
/// stopped.
pub proof fn law_no_direction_goes_on_alone(sides: Sides, id: Uuid, event: ForwardEvent)
    requires
        TerminalForwarding::Running(sides).wf(),
        TerminalForwarding::Running(sides).expects(event),
    ensures
        match forward_step(TerminalForwarding::Running(sides), id, event).0 {
            TerminalForwarding::Running(after) => after.read is Stopped || after.write is Stopped
                ==> after.is_cancelled(),
            TerminalForwarding::Done => forward_step(TerminalForwarding::Running(sides), id, event).1 matches
                ForwardActionView::Stop { cancel, finish } && finish,
            _ => false,
        },
{
}

/// What the output of a command that runs on a terminal makes happen.
pub enum ResponseEvent {
    /// The next line: `Some(Err(()))` where it could not be read, `None` where
    /// there are no more.
    Line(Option<Result<String, ()>>),
    /// The channel took the frame, or could not.
    Sent(bool),
}

/// What is to be done next with the output of a command.
pub enum ResponseAction {
    /// Read another line.
    Read,
    /// Send a frame.
    Send(Vec<u8>),
    /// The response is over: send the frame that closes its stream, then stop.
    /// Where the terminal is gone, clean up the terminals.
    End { frame: Vec<u8>, clean_up: bool },
    /// The response breaks off.
    Stop,
}

/// The contents of a `ResponseAction`.
pub enum ResponseActionView {
    Read,
    Send(Seq<u8>),
    End { frame: Seq<u8>, clean_up: bool },
    Stop,
}

impl View for ResponseAction {
    type V = ResponseActionView;

    open spec fn view(&self) -> ResponseActionView {
        match self {
            ResponseAction::Read => ResponseActionView::Read,
            ResponseAction::Send(bytes) => ResponseActionView::Send(bytes@),
            ResponseAction::End { frame, clean_up } => ResponseActionView::End { frame: frame@, clean_up: *clean_up },
            ResponseAction::Stop => ResponseActionView::Stop,
        }
    }
}

/// The frame of a line of output.
pub open spec fn line_frame(line: Seq<char>, id: Uuid) -> Seq<u8> {
    bytes::frame(vstd::utf8::encode_utf8(line + "\n"@), id, MessageState::Terminal)
}

/// The frame that closes the stream of a response: the end sentinel alone.
pub open spec fn end_frame(id: Uuid) -> Seq<u8> {
    bytes::frame(vstd::utf8::encode_utf8(terminal::END_OF_OUTPUT@), id, MessageState::Terminal)
}

/// What is to be done with the output of a command.
pub open spec fn response_step(id: Uuid, event: ResponseEvent) -> ResponseActionView {
    match event {
        ResponseEvent::Line(Some(Ok(line))) => if line@ == terminal::END_OF_OUTPUT@ {
            ResponseActionView::End { frame: end_frame(id), clean_up: false }
        } else {
            ResponseActionView::Send(line_frame(line@, id))
        },
        ResponseEvent::Line(Some(Err(()))) => ResponseActionView::Stop,
        ResponseEvent::Line(None) => ResponseActionView::End { frame: end_frame(id), clean_up: true },
        ResponseEvent::Sent(true) => ResponseActionView::Read,
        ResponseEvent::Sent(false) => ResponseActionView::Stop,
    }
}

/// The frame that closes the stream of the response on channel `id`.
fn end_of_output(id: Uuid) -> (r: Vec<u8>)
    ensures
        r@ == end_frame(id),
{
    to_transport_bytes(terminal::END_OF_OUTPUT.as_bytes_vec(), id, MessageState::Terminal)
}

/// Forwards the output of a command on channel `id`, line by line, up to the
/// end sentinel or the end of the terminal, either of which closes the stream
/// of the response. Where the output cannot be read, the response breaks off.
pub fn forward_execute_command_on_terminal_response(id: Uuid, event: ResponseEvent) -> (r: ResponseAction)
    ensures
        r@ == response_step(id, event),
{
    match event {
        ResponseEvent::Line(Some(Ok(line))) => {
            if text::same(line.as_str(), terminal::END_OF_OUTPUT) {
                ResponseAction::End { frame: end_of_output(id), clean_up: false }
            } else {
                let message: String = text::concat(line.as_str(), "\n");
                let data: Vec<u8> = message.as_str().as_bytes_vec();
                ResponseAction::Send(to_transport_bytes(data, id, MessageState::Terminal))
            }
        },
        ResponseEvent::Line(Some(Err(()))) => ResponseAction::Stop,
        ResponseEvent::Line(None) => ResponseAction::End { frame: end_of_output(id), clean_up: true },
        ResponseEvent::Sent(true) => ResponseAction::Read,
        ResponseEvent::Sent(false) => ResponseAction::Stop,
    }
}

/// What a periphery forwards of a command is what its terminal prints between
/// the two sentinels: the lines `before` the start sentinel are passed over, the
/// lines `output` are sent one by one, and the end sentinel, sent alone, ends it.
pub proof fn law_output_stands_between_the_sentinels(
    before: Seq<String>,
    start: String,
    output: Seq<String>,
    end: String,
    id: Uuid,
)
    requires
        start@ == terminal::START_OF_OUTPUT@,
        end@ == terminal::END_OF_OUTPUT@,
        forall|i: int| 0 <= i < before.len() ==> (#[trigger] before[i])@ != terminal::START_OF_OUTPUT@,
        forall|i: int| 0 <= i < output.len() ==> (#[trigger] output[i])@ != terminal::END_OF_OUTPUT@,
    ensures
        forall|i: int| 0 <= i < before.len() ==> terminal::start_step(Ok(Some(#[trigger] before[i])))
            == terminal::StartStep::Read,
        terminal::start_step(Ok(Some(start))) == terminal::StartStep::Started,
        forall|i: int| 0 <= i < output.len() ==> response_step(id, ResponseEvent::Line(Some(Ok(#[trigger] output[i]))))
            == ResponseActionView::Send(line_frame(output[i]@, id)),
        response_step(id, ResponseEvent::Line(Some(Ok(end)))) == (ResponseActionView::End {
            frame: end_frame(id),
            clean_up: false,
        }),
{
}

/// The stream of a response that comes on channel `id`.
#[derive(Debug, Clone, Copy)]
pub struct ReceiverStream {
    pub id: Uuid,
}

/// What the stream of a response makes of the next frame of its channel.
pub enum StreamItem {
    /// Hand the data on.
    Data(Vec<u8>),
    /// Hand the error on.
    Error(bytes::FrameError),
    /// The stream is over: take its channel away.
    End { remove: Uuid },
}

/// Whether `r` is what the stream on channel `id` makes of `received`.
pub open spec fn is_stream_item(id: Uuid, received: Option<Vec<u8>>, r: StreamItem) -> bool {
    match received {
        None => r == (StreamItem::End { remove: id }),
        Some(frame) => if frame@.len() < 17 {
            r == StreamItem::Error(bytes::FrameError::TooShort)
        } else if bytes::frame_data(frame@) == vstd::utf8::encode_utf8(terminal::END_OF_OUTPUT@) {
            r == (StreamItem::End { remove: id })
        } else {
            r matches StreamItem::Data(data) && data@ == bytes::frame_data(frame@)
        },
    }
}

/// Whether two sequences of bytes are the same.
fn same_bytes(a: &[u8], b: &[u8]) -> (r: bool)
    ensures
        r == (a@ == b@),
{
    if a.len() != b.len() {
        return false;
    }
    let len: usize = a.len();
    let mut i: usize = 0;
    while i < len
        invariant
            i <= len,
            len == a@.len(),
            len == b@.len(),
            forall|j: int| 0 <= j < i ==> a@[j] == b@[j],
        decreases len - i,
    {
        if a[i] != b[i] {
            return false;
        }
        i = i + 1;
    }
    assert(a@ =~= b@);
    true
}

impl ReceiverStream {
    /// The next item of the stream, whose channel gave `received`.
    pub fn poll_next(&self, received: Option<Vec<u8>>) -> (r: StreamItem)
        ensures
            is_stream_item(self.id, received, r),
    {
        match received {
            Some(frame) => match data_from_transport_bytes(frame) {
                Ok(data) => {
                    if same_bytes(data.as_slice(), terminal::END_OF_OUTPUT.as_bytes()) {
                        self.cleanup()
                    } else {
                        StreamItem::Data(data)
                    }
                },
                Err(e) => StreamItem::Error(e),
            },
            None => self.cleanup(),
        }
    }

    /// The end of the stream, with which its channel goes.
    fn cleanup(&self) -> (r: StreamItem)
        ensures
            r == (StreamItem::End { remove: self.id }),
    {
        StreamItem::End { remove: self.id }
    }
}

/// What reading a line that the terminal printed gives: none where it exited.
pub open spec fn printed(line: Option<String>) -> Option<Result<String, ()>> {
    match line {
        Some(line) => Some(Ok(line)),
        None => None,
    }
}

/// The stream of a response gives each line that the terminal prints, ended by a
/// line break, up to the end of the command, and then closes. It closes as well
/// when the terminal exits in the middle of the command, so that a stream of
/// which the exit code is not the last line tells that. `received` is the frame
/// that was sent, and `item` what the stream makes of it.
pub proof fn law_stream_closes_with_its_command(
    id: Uuid,
    line: Option<String>,
    received: Vec<u8>,
    item: StreamItem,
)
    requires
        ids::uuid_bytes(id).len() == 16,
        match response_step(id, ResponseEvent::Line(printed(line))) {
            ResponseActionView::Send(frame) => received@ == frame,
            ResponseActionView::End { frame, .. } => received@ == frame,
            _ => false,
        },
        is_stream_item(id, Some(received), item),
    ensures
        match line {
            Some(line) => if line@ == terminal::END_OF_OUTPUT@ {
                item == (StreamItem::End { remove: id })
            } else {
                item matches StreamItem::Data(data) && data@ == vstd::utf8::encode_utf8(line@ + "\n"@)
            },
            None => item == (StreamItem::End { remove: id }),
        },
{
    reveal_strlit("\n");
    reveal_strlit("__KOMODO_END_OF_OUTPUT__");
    broadcast use vstd::utf8::encode_utf8_decode_utf8;

    let end = vstd::utf8::encode_utf8(terminal::END_OF_OUTPUT@);
    bytes::law_frame_round_trip(end, id, MessageState::Terminal);
    if let Some(line) = line {
        let data = vstd::utf8::encode_utf8(line@ + "\n"@);
        bytes::law_frame_round_trip(data, id, MessageState::Terminal);
        if data == end {
            assert(vstd::utf8::decode_utf8(data) == vstd::utf8::decode_utf8(end));
            assert((line@ + "\n"@).last() == terminal::END_OF_OUTPUT@.last());
        }
    }
}

/// The first byte of what a client sent tells what the terminal gets: after a
/// zero byte comes input, after 0xFF come dimensions, and neither byte is handed
/// on; everything else is input as a whole.
pub proof fn law_first_byte_tells_input_from_dimensions(rest: Seq<u8>, data: Seq<u8>)
    ensures
        stdin_of(seq![0x00u8] + rest) == StdinView::Bytes(rest),
        stdin_of(seq![0xFFu8] + rest) == StdinView::Resize(rest),
        data.len() == 0 || (data[0] != 0x00 && data[0] != 0xFF) ==> stdin_of(data) == StdinView::Bytes(data),
{
    assert((seq![0x00u8] + rest).skip(1) =~= rest);
    assert((seq![0xFFu8] + rest).skip(1) =~= rest);
}

/// A client that connects to a terminal first gets its history, the older part
/// first, as far as there is any; then both directions run. Where the history
/// cannot be sent, the channel is given up.
pub proof fn law_history_comes_first(id: Uuid, first: Vec<u8>, second: Vec<u8>)
    requires
        ids::uuid_bytes(id).len() == 16,
    ensures
        first@.len() > 0 ==> forward_step(
            TerminalForwarding::Start,
            id,
            ForwardEvent::Start { first, second },
        ) == (
            TerminalForwarding::FirstPart { second },
            ForwardActionView::SendHistory((first@ + ids::uuid_bytes(id)).push(1u8)),
        ),
        first@.len() == 0 ==> forward_step(TerminalForwarding::Start, id, ForwardEvent::Start { first, second })
            == forward_step(TerminalForwarding::FirstPart { second }, id, ForwardEvent::HistorySent(true)),
        second@.len() > 0 ==> forward_step(
            TerminalForwarding::FirstPart { second },
            id,
            ForwardEvent::HistorySent(true),
        ) == (
            TerminalForwarding::SecondPart,
            ForwardActionView::SendHistory((second@ + ids::uuid_bytes(id)).push(1u8)),
        ),
        second@.len() == 0 ==> forward_step(
            TerminalForwarding::FirstPart { second },
            id,
            ForwardEvent::HistorySent(true),
        ) == forward_step(TerminalForwarding::SecondPart, id, ForwardEvent::HistorySent(true)),
        forward_step(TerminalForwarding::SecondPart, id, ForwardEvent::HistorySent(true)) == (
            TerminalForwarding::Running(
                Sides {
                    read: ReadSide::Waiting,
                    write: WriteSide::Waiting,
                    terminal_cancelled: false,
                    session_cancelled: false,
                },
            ),
            ForwardActionView::Run,
        ),
        forward_step(TerminalForwarding::FirstPart { second }, id, ForwardEvent::HistorySent(false)) == (
            TerminalForwarding::Done,
            ForwardActionView::Abandon,
        ),
        forward_step(TerminalForwarding::SecondPart, id, ForwardEvent::HistorySent(false)) == (
            TerminalForwarding::Done,
            ForwardActionView::Abandon,
        ),
{
}

/// What comes on the channel of a terminal is handed to the terminal, and once
/// the terminal took it, or it held no dimensions after all, the next is waited
/// for. The end of the channel ends the forwarding, and leaves the terminal; a
/// terminal that takes nothing any more is cancelled.
pub proof fn law_input_of_a_terminal(sides: Sides, id: Uuid, data: Vec<u8>, token: Token)
    ensures
        forward_step(TerminalForwarding::Running(sides), id, ForwardEvent::Received(Some(data))) == (
            TerminalForwarding::Running(Sides { read: ReadSide::Sending, ..sides }),
            ForwardActionView::Stdin(stdin_of(data@)),
        ),
        forward_step(TerminalForwarding::Running(sides), id, ForwardEvent::StdinSent(true)) == (
            TerminalForwarding::Running(Sides { read: ReadSide::Waiting, ..sides }),
            ForwardActionView::Receive,
        ),
        forward_step(TerminalForwarding::Running(sides), id, ForwardEvent::NoDimensions) == (
            TerminalForwarding::Running(Sides { read: ReadSide::Waiting, ..sides }),
            ForwardActionView::Receive,
        ),
        forward_step(TerminalForwarding::Running(sides), id, ForwardEvent::Received(None)).1 == (
        ForwardActionView::Stop { cancel: Some(Token::Session), finish: sides.write is Stopped }),
        forward_step(TerminalForwarding::Running(sides), id, ForwardEvent::StdinSent(false)).1 == (
        ForwardActionView::Stop { cancel: Some(Token::Terminal), finish: sides.write is Stopped }),
        forward_step(TerminalForwarding::Running(sides), id, ForwardEvent::ReadCancelled(token)).1 == (
        ForwardActionView::Stop { cancel: None, finish: sides.write is Stopped }),
        !(sides.write is Stopped) ==> forward_step(
            TerminalForwarding::Running(sides),
            id,
            ForwardEvent::Received(None),
        ).0 == TerminalForwarding::Running(
            Sides { read: ReadSide::Stopped, session_cancelled: true, ..sides },
        ),
        !(sides.write is Stopped) ==> forward_step(
            TerminalForwarding::Running(sides),
            id,
            ForwardEvent::StdinSent(false),
        ).0 == TerminalForwarding::Running(
            Sides { read: ReadSide::Stopped, terminal_cancelled: true, ..sides },
        ),
        !(sides.write is Stopped) ==> (forward_step(
            TerminalForwarding::Running(sides),
            id,
            ForwardEvent::ReadCancelled(token),
        ).0 matches TerminalForwarding::Running(after) && after.read is Stopped && after.write == sides.write),
        sides.write is Stopped ==> forward_step(
            TerminalForwarding::Running(sides),
            id,
            ForwardEvent::ReadCancelled(token),
        ).0 is Done,
        sides.write is Stopped ==> forward_step(
            TerminalForwarding::Running(sides),
            id,
            ForwardEvent::Received(None),
        ).0 is Done,
{
}

/// What a terminal prints goes out on its channel: the output, the sixteen bytes
/// of the channel id, then the byte 1; and once it was sent, the next is read.
/// An error is told in the same way, and then the terminal is cancelled; a
/// channel that takes nothing any more ends the forwarding, and leaves the
/// terminal.
pub proof fn law_output_of_a_terminal(sides: Sides, id: Uuid, data: Vec<u8>, error: String, token: Token, sent: bool)
    requires
        ids::uuid_bytes(id).len() == 16,
    ensures
        forward_step(TerminalForwarding::Running(sides), id, ForwardEvent::Stdout(Ok(data))) == (
            TerminalForwarding::Running(Sides { write: WriteSide::Sending, ..sides }),
            ForwardActionView::SendOutput((data@ + ids::uuid_bytes(id)).push(1u8)),
        ),
        forward_step(TerminalForwarding::Running(sides), id, ForwardEvent::Stdout(Err(error))) == (
            TerminalForwarding::Running(Sides { write: WriteSide::SendingError, ..sides }),
            ForwardActionView::SendOutput(
                (vstd::utf8::encode_utf8("ERROR: "@ + error@) + ids::uuid_bytes(id)).push(1u8),
            ),
        ),
        sides.write is Sending ==> forward_step(
            TerminalForwarding::Running(sides),
            id,
            ForwardEvent::OutputSent(true),
        ) == (
            TerminalForwarding::Running(Sides { write: WriteSide::Waiting, ..sides }),
            ForwardActionView::ReadStdout,
        ),
        sides.write is Sending ==> forward_step(
            TerminalForwarding::Running(sides),
            id,
            ForwardEvent::OutputSent(false),
        ).1 == (ForwardActionView::Stop { cancel: Some(Token::Session), finish: sides.read is Stopped }),
        sides.write is SendingError ==> forward_step(
            TerminalForwarding::Running(sides),
            id,
            ForwardEvent::OutputSent(sent),
        ).1 == (ForwardActionView::Stop { cancel: Some(Token::Terminal), finish: sides.read is Stopped }),
        forward_step(TerminalForwarding::Running(sides), id, ForwardEvent::WriteCancelled(token)).1 == (
        ForwardActionView::Stop { cancel: None, finish: sides.read is Stopped }),
        !(sides.read is Stopped) && sides.write is Sending ==> forward_step(
            TerminalForwarding::Running(sides),
            id,
            ForwardEvent::OutputSent(false),
        ).0 == TerminalForwarding::Running(
            Sides { write: WriteSide::Stopped, session_cancelled: true, ..sides },
        ),
        !(sides.read is Stopped) && sides.write is SendingError ==> forward_step(
            TerminalForwarding::Running(sides),
            id,
            ForwardEvent::OutputSent(sent),
        ).0 == TerminalForwarding::Running(
            Sides { write: WriteSide::Stopped, terminal_cancelled: true, ..sides },
        ),
        !(sides.read is Stopped) ==> (forward_step(
            TerminalForwarding::Running(sides),
            id,
            ForwardEvent::WriteCancelled(token),
        ).0 matches TerminalForwarding::Running(after) && after.write is Stopped && after.read == sides.read),
        sides.read is Stopped ==> forward_step(
            TerminalForwarding::Running(sides),
            id,
            ForwardEvent::WriteCancelled(token),
        ).0 is Done,
{
}

/// What a periphery forwards of a command: each line, with a line break, as the
/// data of a frame that ends in the channel id and the byte 1; the sentinel alone
/// where the line is the end sentinel or the terminal exited, the latter with a
/// clean up; and nothing more where a line cannot be read or a frame cannot be
/// sent.
pub proof fn law_lines_are_forwarded(id: Uuid, line: String)
    requires
        ids::uuid_bytes(id).len() == 16,
    ensures
        line@ != "__KOMODO_END_OF_OUTPUT__"@ ==> response_step(id, ResponseEvent::Line(Some(Ok(line))))
            == ResponseActionView::Send((vstd::utf8::encode_utf8(line@ + "\n"@) + ids::uuid_bytes(id)).push(1u8)),
        line@ == "__KOMODO_END_OF_OUTPUT__"@ ==> response_step(id, ResponseEvent::Line(Some(Ok(line)))) == (
        ResponseActionView::End {
            frame: (vstd::utf8::encode_utf8("__KOMODO_END_OF_OUTPUT__"@) + ids::uuid_bytes(id)).push(1u8),
            clean_up: false,
        }),
        response_step(id, ResponseEvent::Line(None)) == (ResponseActionView::End {
            frame: (vstd::utf8::encode_utf8("__KOMODO_END_OF_OUTPUT__"@) + ids::uuid_bytes(id)).push(1u8),
            clean_up: true,
        }),
        response_step(id, ResponseEvent::Line(Some(Err(())))) == ResponseActionView::Stop,
        response_step(id, ResponseEvent::Sent(true)) == ResponseActionView::Read,
        response_step(id, ResponseEvent::Sent(false)) == ResponseActionView::Stop,
{
}

/// What the stream of a response makes of a frame: the data before the seventeen
/// bytes at its end, unless that is the end sentinel, which closes the stream, as
/// the end of the channel does; and an error where the frame is shorter.
pub proof fn law_frames_of_a_response(id: Uuid, received: Option<Vec<u8>>, item: StreamItem)
    requires
        is_stream_item(id, received, item),
    ensures
        received is None ==> item == (StreamItem::End { remove: id }),
        received matches Some(frame) ==> {
            &&& frame@.len() < 17 <==> item is Error
            &&& frame@.len() >= 17 && frame@.take(frame@.len() - 17) != vstd::utf8::encode_utf8(
                "__KOMODO_END_OF_OUTPUT__"@,
            ) ==> (item matches StreamItem::Data(data) && data@ == frame@.take(frame@.len() - 17))
            &&& frame@.len() >= 17 && frame@.take(frame@.len() - 17) == vstd::utf8::encode_utf8(
                "__KOMODO_END_OF_OUTPUT__"@,
            ) ==> item == (StreamItem::End { remove: id })
        },
{
}

/// The contents of a message for a terminal tell what it is, and hold all of it.
pub proof fn law_contents_of_input(message: StdinMessage)
    ensures
        message is Bytes <==> message@ is Bytes,
        message is Bytes ==> message@->Bytes_0 == message->Bytes_0@,
        message is Resize <==> message@ is Resize,
        message is Resize ==> message@->Resize_0 == message->Resize_0@,
{
}

/// The contents of an action tell what it is, and hold all of it.
pub proof fn law_contents_of_a_forward_action(action: ForwardAction)
    ensures
        action is SendHistory <==> action@ is SendHistory,
        action is SendHistory ==> action@->SendHistory_0 == action->SendHistory_0@,
        action is Abandon <==> action@ is Abandon,
        action is Run <==> action@ is Run,
        action is Receive <==> action@ is Receive,
        action is Stdin <==> action@ is Stdin,
        action is Stdin ==> action@->Stdin_0 == action->Stdin_0@,
        action is ReadStdout <==> action@ is ReadStdout,
        action is SendOutput <==> action@ is SendOutput,
        action is SendOutput ==> action@->SendOutput_0 == action->SendOutput_0@,
        action is Stop <==> action@ is Stop,
        action is Stop ==> action@->Stop_cancel == action->Stop_cancel,
        action is Stop ==> action@->Stop_finish == action->Stop_finish,
{
}

/// The contents of an action tell what it is, and hold all of it.
pub proof fn law_contents_of_a_response_action(action: ResponseAction)
    ensures
        action is Read <==> action@ is Read,
        action is Send <==> action@ is Send,
        action is Send ==> action@->Send_0 == action->Send_0@,
        action is End <==> action@ is End,
        action is End ==> action@->End_frame == action->End_frame@,
        action is End ==> action@->End_clean_up == action->End_clean_up,
        action is Stop <==> action@ is Stop,
{
}

} // verus!
