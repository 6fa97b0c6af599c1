//! What normalizes websocket messages, and streamlines the handling of them.

use vstd::prelude::*;
use vstd::string::StrSliceExecFns;

verus! {

/// Flattened websocket message possibilites for easier handling.
pub enum WebsocketMessage<CloseFrame> {
    /// Standard message
    Binary(Vec<u8>),
    /// Graceful close message
    Close(Option<CloseFrame>),
    /// Stream closed
    Closed,
}

/// A message as it comes from a websocket.
pub enum RawMessage<CloseFrame> {
    Binary(Vec<u8>),
    Text(String),
    Close(Option<CloseFrame>),
    /// A ping, a pong or a raw frame.
    Other,
}

/// Whether `r` is what a raw message, or the end of the stream, comes to:
/// nothing, where it is passed over.
pub open spec fn is_flattened<CloseFrame>(
    next: Option<RawMessage<CloseFrame>>,
    r: Option<WebsocketMessage<CloseFrame>>,
) -> bool {
    match next {
        None => r == Some(WebsocketMessage::<CloseFrame>::Closed),
        Some(RawMessage::Binary(data)) => r == Some(WebsocketMessage::<CloseFrame>::Binary(data)),
        Some(RawMessage::Text(text)) => {
            &&& r matches Some(WebsocketMessage::Binary(data))
            &&& data@ == vstd::utf8::encode_utf8(text@)
        },
        Some(RawMessage::Close(frame)) => r == Some(WebsocketMessage::Close(frame)),
        Some(RawMessage::Other) => r is None,
    }
}

/// Flattens the next raw message: `None` where the stream ended. Gives nothing
/// for a message that is not significant.
pub fn try_next<CloseFrame>(next: Option<RawMessage<CloseFrame>>) -> (r: Option<WebsocketMessage<CloseFrame>>)
    ensures
        is_flattened(next, r),
{
    match next {
        Some(RawMessage::Binary(data)) => Some(WebsocketMessage::Binary(data)),
        Some(RawMessage::Text(text)) => Some(WebsocketMessage::Binary(text.as_str().as_bytes_vec())),
        Some(RawMessage::Close(frame)) => Some(WebsocketMessage::Close(frame)),
        None => Some(WebsocketMessage::Closed),
        // Ignored messages
        Some(RawMessage::Other) => None,
    }
}

/// Why no bytes came.
pub enum RecvError<CloseFrame, Error> {
    /// The websocket failed.
    Failed(Error),
    /// Connection closed with frame.
    Close(Option<CloseFrame>),
    /// Connection already closed.
    Closed,
}

/// The bytes of what was received.
pub fn recv_bytes<CloseFrame, Error>(received: Result<WebsocketMessage<CloseFrame>, Error>) -> (r: Result<
    Vec<u8>,
    RecvError<CloseFrame, Error>,
>)
    ensures
        match received {
            Ok(WebsocketMessage::Binary(bytes)) => r == Ok::<Vec<u8>, RecvError<CloseFrame, Error>>(bytes),
            Ok(WebsocketMessage::Close(frame)) => r == Err::<Vec<u8>, RecvError<CloseFrame, Error>>(
                RecvError::Close(frame),
            ),
            Ok(WebsocketMessage::Closed) => r == Err::<Vec<u8>, RecvError<CloseFrame, Error>>(RecvError::Closed),
            Err(e) => r == Err::<Vec<u8>, RecvError<CloseFrame, Error>>(RecvError::Failed(e)),
        },
{
    match received {
        Ok(WebsocketMessage::Binary(bytes)) => Ok(bytes),
        Ok(WebsocketMessage::Close(frame)) => Err(RecvError::Close(frame)),
        Ok(WebsocketMessage::Closed) => Err(RecvError::Closed),
        Err(e) => Err(RecvError::Failed(e)),
    }
}

/// What a periphery presents when it connects to a core.
pub struct PeripheryConnectionQuery {
    /// Server Id or name
    pub server: String,
}

/// Only a message with data has bytes: those that came, or those of its text.
/// Only the end of the stream reads as closed, and only a close frame as a close;
/// only what is not significant is passed over.
pub proof fn law_flattened_message<CloseFrame>(
    next: Option<RawMessage<CloseFrame>>,
    r: Option<WebsocketMessage<CloseFrame>>,
)
    requires
        is_flattened(next, r),
    ensures
        r is None <==> next == Some(RawMessage::<CloseFrame>::Other),
        r == Some(WebsocketMessage::<CloseFrame>::Closed) <==> next is None,
        r matches Some(WebsocketMessage::Close(frame)) ==> next == Some(RawMessage::Close(frame)),
        next matches Some(RawMessage::Close(frame)) ==> r == Some(WebsocketMessage::Close(frame)),
        next matches Some(RawMessage::Binary(data)) ==> (r matches Some(WebsocketMessage::Binary(bytes)) && bytes@
            == data@),
        next matches Some(RawMessage::Text(text)) ==> (r matches Some(WebsocketMessage::Binary(bytes)) && bytes@
            == vstd::utf8::encode_utf8(text@)),
        r matches Some(WebsocketMessage::Binary(bytes)) ==> next matches Some(RawMessage::Binary(_)) || next matches
            Some(RawMessage::Text(_)),
{
}

} // verus!
