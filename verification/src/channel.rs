//! Channels: the buffer that keeps a message until its transmission is
//! confirmed, and the map from channel ids to the ends of channels.

use vstd::prelude::*;
use std::collections::HashMap;
use uuid::Uuid;
use crate::bytes;
use crate::bytes::id_from_transport_bytes;
use crate::ids;
use crate::ids::uuid_number;

verus! {

/// How many messages a buffered channel holds.
pub const RESPONSE_BUFFER_MAX_LEN: usize = 1_024;

/// Wrapper around the receiver of a channel to control when the latest message
/// is dropped, in case it must be re-transmitted. The wrapper holds the latest
/// message; the caller holds the receiver.
#[derive(Debug)]
pub struct BufferedReceiver<T> {
    buffer: Option<T>,
}

impl<T> View for BufferedReceiver<T> {
    type V = Option<T>;

    closed spec fn view(&self) -> Option<T> {
        self.buffer
    }
}

/// A buffered channel: the number of messages that the channel holds, and the
/// buffer of its receiver.
pub fn buffered_channel<T>() -> (r: (usize, BufferedReceiver<T>))
    ensures
        r.0 == RESPONSE_BUFFER_MAX_LEN,
        r.1@ is None,
{
    (RESPONSE_BUFFER_MAX_LEN, BufferedReceiver::new())
}

impl<T> BufferedReceiver<T> {
    pub fn new() -> (r: BufferedReceiver<T>)
        ensures
            r@ is None,
    {
        BufferedReceiver { buffer: None }
    }

    /// Whether the next message is to be taken from the channel.
    pub fn is_empty(&self) -> (r: bool)
        ensures
            r == (self@ is None),
    {
        self.buffer.is_none()
    }

    /// Gives the message in the buffer. Where there is none, `next` is what the
    /// channel gave: it is stored in the buffer first.
    pub fn recv(&mut self, next: Option<T>) -> (r: Option<&T>)
        requires
            old(self)@ is Some ==> next is None,
        ensures
            final(self)@ == (if old(self)@ is Some {
                old(self)@
            } else {
                next
            }),
            forall|channel: Seq<T>|
                next == taken(old(self)@, channel) ==> final(self)@ == #[trigger] received(old(self)@, channel).0,
            r is Some <==> final(self)@ is Some,
            r matches Some(message) ==> final(self)@ == Some(*message),
    {
        if self.buffer.is_none() {
            self.buffer = next;
        }
        self.buffer.as_ref()
    }

    /// Clears buffer.
    /// Should be called after transmission confirmed.
    pub fn clear_buffer(&mut self)
        ensures
            final(self)@ is None,
    {
        self.buffer = None;
    }
}

/// What a buffered receiver has yet to give: the message in its buffer, and
/// after it those in the channel.
pub open spec fn pending<T>(buffer: Option<T>, channel: Seq<T>) -> Seq<T> {
    match buffer {
        Some(message) => seq![message] + channel,
        None => channel,
    }
}

/// What is taken from the channel to receive a message.
pub open spec fn taken<T>(buffer: Option<T>, channel: Seq<T>) -> Option<T> {
    if buffer is None && channel.len() > 0 {
        Some(channel[0])
    } else {
        None
    }
}

/// The buffer and the channel after a message was received.
pub open spec fn received<T>(buffer: Option<T>, channel: Seq<T>) -> (Option<T>, Seq<T>) {
    if buffer is None && channel.len() > 0 {
        (Some(channel[0]), channel.skip(1))
    } else {
        (buffer, channel)
    }
}

/// No message is lost: receiving gives the first message that is pending and
/// drops none, so that it is given again until the buffer is cleared; clearing
/// the buffer after that drops this one message and no other.
pub proof fn law_message_is_kept_until_confirmed<T>(buffer: Option<T>, channel: Seq<T>)
    requires
        pending(buffer, channel).len() > 0,
    ensures
        received(buffer, channel).0 == Some(pending(buffer, channel)[0]),
        pending(received(buffer, channel).0, received(buffer, channel).1) == pending(buffer, channel),
        received(received(buffer, channel).0, received(buffer, channel).1) == received(buffer, channel),
        pending(None, received(buffer, channel).1) == pending(buffer, channel).skip(1),
{
    let (buffer_after, channel_after) = received(buffer, channel);
    assert(pending(buffer_after, channel_after) =~= pending(buffer, channel));
    assert(pending(None, channel_after) =~= pending(buffer, channel).skip(1));
}

/// Why bytes cannot be handed on.
#[derive(Debug, Clone, Copy, PartialEq, Eq, Structural)]
pub enum RouteError {
    /// The channel id could not be read.
    NoId,
    /// There is no channel with the id.
    NoChannel,
}

/// The channels of a connection: for each channel id, the end of a channel.
pub struct Channels<S> {
    map: HashMap<u128, S>,
}

impl<S> View for Channels<S> {
    type V = Map<u128, S>;

    closed spec fn view(&self) -> Map<u128, S> {
        self.map@
    }
}

impl<S> Channels<S> {
    pub fn new() -> (r: Channels<S>)
        ensures
            r@ == Map::<u128, S>::empty(),
    {
        Channels { map: HashMap::new() }
    }

    /// Opens channel `id`. Gives the end that the id had before.
    pub fn insert(&mut self, id: Uuid, channel: S) -> (r: Option<S>)
        ensures
            final(self)@ == old(self)@.insert(ids::id_number(id), channel),
            r == (if old(self)@.contains_key(ids::id_number(id)) {
                Some(old(self)@[ids::id_number(id)])
            } else {
                None
            }),
    {
        self.map.insert(uuid_number(&id), channel)
    }

    /// The end of channel `id`.
    pub fn get(&self, id: Uuid) -> (r: Option<&S>)
        ensures
            match r {
                Some(channel) => self@.contains_key(ids::id_number(id)) && *channel == self@[ids::id_number(id)],
                None => !self@.contains_key(ids::id_number(id)),
            },
    {
        let number: u128 = uuid_number(&id);
        self.map.get(&number)
    }

    /// Closes channel `id`. Gives the end that it had.
    pub fn remove(&mut self, id: Uuid) -> (r: Option<S>)
        ensures
            final(self)@ == old(self)@.remove(ids::id_number(id)),
            r == (if old(self)@.contains_key(ids::id_number(id)) {
                Some(old(self)@[ids::id_number(id)])
            } else {
                None
            }),
    {
        let number: u128 = uuid_number(&id);
        self.map.remove(&number)
    }

    /// The end of the channel on which incoming transport bytes are to be
    /// handed on, unchanged.
    pub fn handle_incoming_bytes(&self, bytes: &[u8]) -> (r: Result<&S, RouteError>)
        ensures
            r matches Err(RouteError::NoId) <==> bytes@.len() < 17,
            bytes@.len() >= 17 ==> {
                let number = ids::big_endian(bytes::frame_id(bytes@)) as u128;
                match r {
                    Ok(channel) => self@.contains_key(number) && *channel == self@[number],
                    Err(_) => !self@.contains_key(number),
                }
            },
    {
        let id: Uuid = match id_from_transport_bytes(bytes) {
            Ok(id) => id,
            Err(_) => return Err(RouteError::NoId),
        };
        match self.get(id) {
            Some(channel) => Ok(channel),
            None => Err(RouteError::NoChannel),
        }
    }
}

/// A frame is handed on to the channel that was opened with its id, whatever
/// else was opened or closed.
pub proof fn law_frame_finds_its_channel<S>(
    channels: Map<u128, S>,
    id: Uuid,
    other: Uuid,
    channel: S,
    other_channel: S,
    data: Seq<u8>,
    state: bytes::MessageState,
)
    requires
        ids::uuid_bytes(id).len() == 16,
        ids::uuid_bytes(other).len() == 16,
        ids::uuid_bytes(other) != ids::uuid_bytes(id),
    ensures
        ids::big_endian(bytes::frame_id(bytes::frame(data, id, state))) as u128 == ids::id_number(id),
        channels.insert(ids::id_number(id), channel).insert(ids::id_number(other), other_channel).remove(
            ids::id_number(other),
        )[ids::id_number(id)] == channel,
        channels.insert(ids::id_number(id), channel).insert(ids::id_number(other), other_channel)[ids::id_number(id)]
            == channel,
{
    bytes::law_frame_round_trip(data, id, state);
    ids::law_numbers_tell_ids_apart(id, other);
}

/// The messages that a buffered receiver has yet to give: the one in its buffer
/// first, then those of its channel. Only where the buffer is empty is one taken
/// from the channel, the first.
pub proof fn law_buffer_comes_before_the_channel<T>(message: T, channel: Seq<T>)
    ensures
        pending(None, channel) == channel,
        pending(Some(message), channel) == seq![message] + channel,
        taken(Some(message), channel) is None,
        received(Some(message), channel) == (Some(message), channel),
        channel.len() > 0 ==> taken(None, channel) == Some(channel[0]) && received(None, channel) == (
            Some(channel[0]),
            channel.skip(1),
        ),
        channel.len() == 0 ==> taken(None, channel) is None && received(None, channel) == (None::<T>, channel),
{
}

} // verus!
