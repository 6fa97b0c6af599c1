//! Transport frames: the data, then the sixteen bytes of the channel id, then
//! one state byte.

use vstd::prelude::*;
use vstd::slice::slice_subrange;
use uuid::Uuid;
use crate::ids;

verus! {

/// What a transport frame is about.
#[derive(Debug, Clone, Copy, PartialEq, Eq, Structural)]
pub enum MessageState {
    Successful,
    Failed,
    Terminal,
    Request,
    InProgress,
}

/// Why transport bytes cannot be read.
#[derive(Debug, Clone, Copy, PartialEq, Eq, Structural)]
pub enum FrameError {
    /// Fewer bytes than the channel id and the state byte take.
    TooShort,
    /// The bytes in the place of the channel id are no id.
    InvalidId,
}

/// The byte that stands for `state` on the wire.
pub open spec fn state_byte(state: MessageState) -> u8 {
    match state {
        MessageState::Request => 0,
        MessageState::Terminal => 1,
        MessageState::Successful => 2,
        MessageState::Failed => 3,
        MessageState::InProgress => 4,
    }
}

/// The state that `byte` stands for. Every byte above 3 is `InProgress`.
pub open spec fn byte_state(byte: u8) -> MessageState {
    if byte == 0 {
        MessageState::Request
    } else if byte == 1 {
        MessageState::Terminal
    } else if byte == 2 {
        MessageState::Successful
    } else if byte == 3 {
        MessageState::Failed
    } else {
        MessageState::InProgress
    }
}

impl MessageState {
    pub fn from_byte(byte: u8) -> (state: MessageState)
        ensures
            state == byte_state(byte),
    {
        match byte {
            0 => MessageState::Request,
            1 => MessageState::Terminal,
            2 => MessageState::Successful,
            3 => MessageState::Failed,
            _ => MessageState::InProgress,
        }
    }

    pub fn as_byte(&self) -> (byte: u8)
        ensures
            byte == state_byte(*self),
    {
        match self {
            MessageState::Request => 0,
            MessageState::Terminal => 1,
            MessageState::Successful => 2,
            MessageState::Failed => 3,
            MessageState::InProgress => 4,
        }
    }
}

/// The frame that carries `data` on channel `id`.
pub open spec fn frame(data: Seq<u8>, id: Uuid, state: MessageState) -> Seq<u8> {
    (data + ids::uuid_bytes(id)).push(state_byte(state))
}

/// The data of a frame.
pub open spec fn frame_data(bytes: Seq<u8>) -> Seq<u8> {
    bytes.take(bytes.len() - 17)
}

/// The place of the channel id in a frame.
pub open spec fn frame_id(bytes: Seq<u8>) -> Seq<u8> {
    bytes.subrange(bytes.len() - 17, bytes.len() - 1)
}

/// Serializes data, channel id and state to bytes.
/// The last byte is the state, and the sixteen before that are the id.
pub fn to_transport_bytes(data: Vec<u8>, id: Uuid, state: MessageState) -> (r: Vec<u8>)
    ensures
        r@ == frame(data@, id, state),
        r@.len() == data@.len() + 17,
{
    let mut data = data;
    let id_bytes: [u8; 16] = id.into_bytes();
    data.extend_from_slice(&id_bytes);
    data.push(state.as_byte());
    data
}

/// Reads the channel id of incoming transport bytes.
pub fn id_from_transport_bytes(bytes: &[u8]) -> (r: Result<Uuid, FrameError>)
    ensures
        r is Ok <==> bytes@.len() >= 17,
        r matches Ok(id) ==> ids::is_id_of(id, frame_id(bytes@)),
        r matches Err(e) ==> e == FrameError::TooShort,
{
    let len: usize = bytes.len();
    if len < 17 {
        return Err(FrameError::TooShort);
    }
    match Uuid::from_slice(slice_subrange(bytes, len - 17, len - 1)) {
        Ok(id) => Ok(id),
        Err(_) => Err(FrameError::InvalidId),
    }
}

/// Reads the channel id and the state of incoming transport bytes.
pub fn id_state_from_transport_bytes(bytes: &[u8]) -> (r: Result<(Uuid, MessageState), FrameError>)
    ensures
        r is Ok <==> bytes@.len() >= 17,
        r matches Ok((id, state)) ==> ids::is_id_of(id, frame_id(bytes@)),
        r matches Ok((id, state)) ==> state == byte_state(bytes@.last()),
        r matches Err(e) ==> e == FrameError::TooShort,
{
    let len: usize = bytes.len();
    if len < 17 {
        return Err(FrameError::TooShort);
    }
    let id: Uuid = match Uuid::from_slice(slice_subrange(bytes, len - 17, len - 1)) {
        Ok(id) => id,
        Err(_) => return Err(FrameError::InvalidId),
    };
    let state: MessageState = MessageState::from_byte(bytes[len - 1]);
    Ok((id, state))
}

/// Extracts the data of incoming transport bytes, which it consumes.
pub fn data_from_transport_bytes(bytes: Vec<u8>) -> (r: Result<Vec<u8>, FrameError>)
    ensures
        r is Ok <==> bytes@.len() >= 17,
        r matches Ok(data) ==> data@ == frame_data(bytes@),
        r matches Err(e) ==> e == FrameError::TooShort,
{
    let len: usize = bytes.len();
    if len < 17 {
        return Err(FrameError::TooShort);
    }
    let mut data: Vec<u8> = bytes;
    data.truncate(len - 17);
    Ok(data)
}

/// Reads the channel id, the state and the data of incoming transport bytes.
pub fn from_transport_bytes(bytes: Vec<u8>) -> (r: Result<(Uuid, MessageState, Vec<u8>), FrameError>)
    ensures
        r is Ok <==> bytes@.len() >= 17,
        r matches Ok((id, state, data)) ==> ids::is_id_of(id, frame_id(bytes@)),
        r matches Ok((id, state, data)) ==> state == byte_state(bytes@.last()),
        r matches Ok((id, state, data)) ==> data@ == frame_data(bytes@),
        r matches Err(e) ==> e == FrameError::TooShort,
{
    let (id, state): (Uuid, MessageState) = match id_state_from_transport_bytes(bytes.as_slice()) {
        Ok(res) => res,
        Err(e) => return Err(e),
    };
    let mut data: Vec<u8> = bytes;
    let len: usize = data.len();
    data.truncate(len - 17);
    Ok((id, state, data))
}

/// A state as a message of its own: the one state byte.
pub fn state_to_bytes(state: MessageState) -> (r: Vec<u8>)
    ensures
        r@ == seq![state_byte(state)],
{
    let mut r: Vec<u8> = Vec::new();
    r.push(state.as_byte());
    assert(r@ =~= seq![state_byte(state)]);
    r
}

/// Reading the state byte of a state gives the state back.
pub proof fn law_state_round_trip(state: MessageState)
    ensures
        byte_state(state_byte(state)) == state,
{
}

/// Two states share no byte.
pub proof fn law_state_bytes_distinct(a: MessageState, b: MessageState)
    requires
        state_byte(a) == state_byte(b),
    ensures
        a == b,
{
}

/// Reading a frame gives back the data, the channel id and the state that it
/// was written from.
pub proof fn law_frame_round_trip(data: Seq<u8>, id: Uuid, state: MessageState)
    requires
        ids::uuid_bytes(id).len() == 16,
    ensures
        frame(data, id, state).len() == data.len() + 17,
        frame_data(frame(data, id, state)) == data,
        frame_id(frame(data, id, state)) == ids::uuid_bytes(id),
        byte_state(frame(data, id, state).last()) == state,
{
    let bytes = frame(data, id, state);
    assert(frame_data(bytes) =~= data);
    assert(frame_id(bytes) =~= ids::uuid_bytes(id));
}

/// Every sequence of at least seventeen bytes whose state byte is in use is the
/// frame of what is read from it.
pub proof fn law_frame_reads_back(bytes: Seq<u8>, id: Uuid)
    requires
        bytes.len() >= 17,
        ids::uuid_bytes(id) == frame_id(bytes),
        bytes.last() <= 4,
    ensures
        frame(frame_data(bytes), id, byte_state(bytes.last())) == bytes,
{
    assert(frame(frame_data(bytes), id, byte_state(bytes.last())) =~= bytes);
}

/// The bytes of the states on the wire: every byte above 3 says that a request
/// is in progress.
pub proof fn law_states_on_the_wire(byte: u8, state: MessageState)
    ensures
        byte_state(byte) == MessageState::Request <==> byte == 0,
        byte_state(byte) == MessageState::Terminal <==> byte == 1,
        byte_state(byte) == MessageState::Successful <==> byte == 2,
        byte_state(byte) == MessageState::Failed <==> byte == 3,
        byte_state(byte) == MessageState::InProgress <==> byte >= 4,
        state_byte(state) <= 4,
        byte_state(state_byte(state)) == state,
{
}

/// A frame is its data, then the sixteen bytes of the channel id, then the byte
/// of the state; and the data and the id are read where they were written.
pub proof fn law_frame_layout(data: Seq<u8>, id: Uuid, state: MessageState, bytes: Seq<u8>)
    requires
        ids::uuid_bytes(id).len() == 16,
        bytes.len() >= 17,
    ensures
        frame(data, id, state).len() == data.len() + 17,
        frame(data, id, state).take(data.len() as int) == data,
        frame(data, id, state).subrange(data.len() as int, data.len() as int + 16) == ids::uuid_bytes(id),
        frame(data, id, state)[data.len() as int + 16] == state_byte(state),
        bytes == (frame_data(bytes) + frame_id(bytes)).push(bytes[bytes.len() - 1]),
        frame_id(bytes).len() == 16,
{
    let written = frame(data, id, state);
    assert(written.take(data.len() as int) =~= data);
    assert(written.subrange(data.len() as int, data.len() as int + 16) =~= ids::uuid_bytes(id));
    assert(bytes =~= (frame_data(bytes) + frame_id(bytes)).push(bytes[bytes.len() - 1]));
}

} // verus!
