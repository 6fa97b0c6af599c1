//! Header-first messages: the sixteen bytes of the channel id, one state byte,
//! then the data.

use vstd::prelude::*;
use vstd::slice::slice_subrange;
use vstd::slice::slice_to_vec;
use uuid::Uuid;
use crate::bytes::FrameError;
use crate::ids;

verus! {

/// How far the work on a message is.
#[derive(Debug, Clone, Copy, PartialEq, Eq, Structural)]
pub enum MessageState {
    Successful,
    Failed,
    InProgress,
}

/// The byte that stands for `state` on the wire.
pub open spec fn state_byte(state: MessageState) -> u8 {
    match state {
        MessageState::Successful => 0,
        MessageState::Failed => 1,
        MessageState::InProgress => 2,
    }
}

/// The state that `byte` stands for.
pub open spec fn byte_state(byte: u8) -> MessageState {
    if byte == 0 {
        MessageState::Successful
    } else if byte == 1 {
        MessageState::Failed
    } else {
        MessageState::InProgress
    }
}

impl MessageState {
    /// - 0 => Successful
    /// - 1 => Failed
    /// - other => InProgress
    pub fn from_byte(byte: u8) -> (state: MessageState)
        ensures
            state == byte_state(byte),
    {
        match byte {
            0 => MessageState::Successful,
            1 => MessageState::Failed,
            _ => MessageState::InProgress,
        }
    }

    pub fn as_byte(&self) -> (byte: u8)
        ensures
            byte == state_byte(*self),
    {
        match self {
            MessageState::Successful => 0,
            MessageState::Failed => 1,
            MessageState::InProgress => 2,
        }
    }
}

/// The message that carries `data` on channel `id`.
pub open spec fn message(id: Uuid, state: MessageState, data: Seq<u8>) -> Seq<u8> {
    ids::uuid_bytes(id).push(state_byte(state)) + data
}

/// Serializes channel id, state and data to bytes.
/// The first sixteen bytes are the id, then come the state and the data.
pub fn to_transport_bytes(id: Uuid, state: MessageState, data: &[u8]) -> (r: Vec<u8>)
    ensures
        r@ == message(id, state, data@),
        r@.len() == data@.len() + 17,
{
    let id_bytes: [u8; 16] = id.into_bytes();
    // Index 0..15
    let mut res: Vec<u8> = slice_to_vec(&id_bytes);
    // Index 16
    res.push(state.as_byte());
    // Index 17..end
    res.extend_from_slice(data);
    res
}

/// Reads the channel id, the state and the data of incoming transport bytes.
pub fn from_transport_bytes(bytes: &[u8]) -> (r: Result<(Uuid, MessageState, Vec<u8>), FrameError>)
    ensures
        r is Ok <==> bytes@.len() >= 17,
        r matches Ok((id, state, data)) ==> ids::is_id_of(id, bytes@.take(16)),
        r matches Ok((id, state, data)) ==> state == byte_state(bytes@[16]),
        r matches Ok((id, state, data)) ==> data@ == bytes@.skip(17),
        r matches Err(e) ==> e == FrameError::TooShort,
{
    let len: usize = bytes.len();
    if len < 17 {
        return Err(FrameError::TooShort);
    }
    let id: Uuid = match Uuid::from_slice(slice_subrange(bytes, 0, 16)) {
        Ok(id) => id,
        Err(_) => return Err(FrameError::InvalidId),
    };
    let state: MessageState = MessageState::from_byte(bytes[16]);
    let data: Vec<u8> = slice_to_vec(slice_subrange(bytes, 17, len));
    assert(data@ =~= bytes@.skip(17));
    Ok((id, state, data))
}

/// Reading the state byte of a state gives the state back.
pub proof fn law_state_round_trip(state: MessageState)
    ensures
        byte_state(state_byte(state)) == state,
{
}

/// Reading a message gives back the channel id, the state and the data that it
/// was written from.
pub proof fn law_message_round_trip(id: Uuid, state: MessageState, data: Seq<u8>)
    requires
        ids::uuid_bytes(id).len() == 16,
    ensures
        message(id, state, data).len() == data.len() + 17,
        message(id, state, data).take(16) == ids::uuid_bytes(id),
        byte_state(message(id, state, data)[16]) == state,
        message(id, state, data).skip(17) == data,
{
    let bytes = message(id, state, data);
    assert(bytes.take(16) =~= ids::uuid_bytes(id));
    assert(bytes.skip(17) =~= data);
}

/// The bytes of the states on the wire: every byte above 1 says that the work is
/// in progress.
pub proof fn law_states_on_the_wire(byte: u8, state: MessageState)
    ensures
        byte_state(byte) == MessageState::Successful <==> byte == 0,
        byte_state(byte) == MessageState::Failed <==> byte == 1,
        byte_state(byte) == MessageState::InProgress <==> byte >= 2,
        state_byte(state) <= 2,
        byte_state(state_byte(state)) == state,
{
}

} // verus!
