use transport::bytes::{
    data_from_transport_bytes, from_transport_bytes, id_from_transport_bytes, id_state_from_transport_bytes,
    state_to_bytes, to_transport_bytes, FrameError, MessageState,
};
use transport::channel::{buffered_channel, BufferedReceiver, Channels, RouteError};
use transport::ids::uuid_number;
use transport::message;
use uuid::Uuid;

fn id() -> Uuid {
    Uuid::from_u128(0x000102030405060708090a0b0c0d0e0f)
}

#[test]
fn frame_is_data_then_id_then_state() {
    let frame = to_transport_bytes(vec![0xaa, 0xbb], id(), MessageState::Failed);
    assert_eq!(frame, vec![0xaa, 0xbb, 0, 1, 2, 3, 4, 5, 6, 7, 8, 9, 10, 11, 12, 13, 14, 15, 3]);
}

#[test]
fn frame_round_trip() {
    let states = [
        MessageState::Successful,
        MessageState::Failed,
        MessageState::Terminal,
        MessageState::Request,
        MessageState::InProgress,
    ];
    for state in states {
        for data in [vec![], vec![7u8], vec![1, 2, 3, 4]] {
            let frame = to_transport_bytes(data.clone(), id(), state);
            assert_eq!(id_from_transport_bytes(&frame), Ok(id()));
            assert_eq!(id_state_from_transport_bytes(&frame), Ok((id(), state)));
            assert_eq!(data_from_transport_bytes(frame.clone()), Ok(data.clone()));
            assert_eq!(from_transport_bytes(frame), Ok((id(), state, data)));
        }
    }
}

#[test]
fn short_frames_are_refused() {
    let bytes = vec![0u8; 16];
    assert_eq!(id_from_transport_bytes(&bytes), Err(FrameError::TooShort));
    assert_eq!(id_state_from_transport_bytes(&bytes), Err(FrameError::TooShort));
    assert_eq!(data_from_transport_bytes(bytes.clone()), Err(FrameError::TooShort));
    assert_eq!(from_transport_bytes(bytes), Err(FrameError::TooShort));
    assert_eq!(data_from_transport_bytes(vec![0u8; 17]), Ok(vec![]));
}

#[test]
fn state_bytes() {
    assert_eq!(MessageState::Request.as_byte(), 0);
    assert_eq!(MessageState::Terminal.as_byte(), 1);
    assert_eq!(MessageState::Successful.as_byte(), 2);
    assert_eq!(MessageState::Failed.as_byte(), 3);
    assert_eq!(MessageState::InProgress.as_byte(), 4);
    assert_eq!(MessageState::from_byte(0), MessageState::Request);
    assert_eq!(MessageState::from_byte(1), MessageState::Terminal);
    assert_eq!(MessageState::from_byte(2), MessageState::Successful);
    assert_eq!(MessageState::from_byte(3), MessageState::Failed);
    assert_eq!(MessageState::from_byte(4), MessageState::InProgress);
    assert_eq!(MessageState::from_byte(200), MessageState::InProgress);
    assert_eq!(state_to_bytes(MessageState::Successful), vec![2]);
}

#[test]
fn message_is_id_then_state_then_data() {
    let bytes = message::to_transport_bytes(id(), message::MessageState::Failed, &[0xaa]);
    assert_eq!(bytes, vec![0, 1, 2, 3, 4, 5, 6, 7, 8, 9, 10, 11, 12, 13, 14, 15, 1, 0xaa]);
    assert_eq!(message::from_transport_bytes(&bytes), Ok((id(), message::MessageState::Failed, vec![0xaa])));
    assert_eq!(message::from_transport_bytes(&bytes[..16]), Err(FrameError::TooShort));
}

#[test]
fn message_state_bytes() {
    assert_eq!(message::MessageState::Successful.as_byte(), 0);
    assert_eq!(message::MessageState::Failed.as_byte(), 1);
    assert_eq!(message::MessageState::InProgress.as_byte(), 2);
    assert_eq!(message::MessageState::from_byte(0), message::MessageState::Successful);
    assert_eq!(message::MessageState::from_byte(1), message::MessageState::Failed);
    assert_eq!(message::MessageState::from_byte(9), message::MessageState::InProgress);
}

#[test]
fn buffered_receiver_keeps_a_message_until_cleared() {
    let (len, mut receiver): (usize, BufferedReceiver<u32>) = buffered_channel();
    assert_eq!(len, 1024);
    assert!(receiver.is_empty());
    assert_eq!(receiver.recv(None), None);
    assert_eq!(receiver.recv(Some(1)), Some(&1));
    assert!(!receiver.is_empty());
    assert_eq!(receiver.recv(None), Some(&1));
    assert_eq!(receiver.recv(None), Some(&1));
    receiver.clear_buffer();
    assert!(receiver.is_empty());
    assert_eq!(receiver.recv(Some(2)), Some(&2));
}

#[test]
fn frames_go_to_the_channel_of_their_id() {
    let mut channels = Channels::new();
    let other = Uuid::from_u128(2);
    assert_eq!(channels.insert(id(), "one"), None);
    assert_eq!(channels.insert(other, "two"), None);
    assert_eq!(channels.insert(other, "three"), Some("two"));
    let frame = to_transport_bytes(vec![1], id(), MessageState::Successful);
    let other_frame = to_transport_bytes(vec![1], other, MessageState::Terminal);
    assert_eq!(channels.handle_incoming_bytes(&frame), Ok(&"one"));
    assert_eq!(channels.handle_incoming_bytes(&other_frame), Ok(&"three"));
    assert_eq!(channels.remove(other), Some("three"));
    assert_eq!(channels.get(other), None);
    assert_eq!(channels.handle_incoming_bytes(&other_frame), Err(RouteError::NoChannel));
    assert_eq!(channels.handle_incoming_bytes(&frame), Ok(&"one"));
    assert_eq!(channels.handle_incoming_bytes(&frame[..10]), Err(RouteError::NoId));
}

#[test]
fn ids_have_numbers() {
    assert_eq!(uuid_number(&id()), 0x000102030405060708090a0b0c0d0e0f);
    assert_ne!(uuid_number(&id()), uuid_number(&Uuid::from_u128(1)));
}
