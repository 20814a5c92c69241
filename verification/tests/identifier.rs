use inx_types::{wire, Error, MessageId, MilestoneId, MESSAGE_ID_LENGTH, MILESTONE_ID_LENGTH};

#[test]
fn message_id_exact_length_round_trips() {
    let bytes: Vec<u8> = (0..32).map(|i| i as u8).collect();
    let decoded = MessageId::try_from(wire::MessageId { id: bytes.clone() }).unwrap();
    assert_eq!(decoded.as_bytes(), &bytes);
}

#[test]
fn message_id_short_buffer_rejected() {
    let bytes = vec![0u8; 31];
    let r = MessageId::try_from(wire::MessageId { id: bytes });
    assert_eq!(r, Err(Error::InvalidBufferLength));
}

#[test]
fn message_id_long_buffer_rejected() {
    let bytes = vec![0u8; 33];
    let r = MessageId::try_from(wire::MessageId { id: bytes });
    assert_eq!(r, Err(Error::InvalidBufferLength));
}

#[test]
fn message_id_empty_buffer_rejected() {
    let r = MessageId::try_from(wire::MessageId { id: Vec::new() });
    assert_eq!(r, Err(Error::InvalidBufferLength));
}

#[test]
fn milestone_id_exact_length_round_trips() {
    let bytes: Vec<u8> = (0..32).map(|i| (255 - i) as u8).collect();
    let decoded = MilestoneId::try_from(wire::MilestoneId { id: bytes.clone() }).unwrap();
    assert_eq!(decoded.as_bytes(), &bytes);
}

#[test]
fn milestone_id_wrong_length_rejected() {
    for len in [0usize, 1, 31, 33, 64] {
        let r = MilestoneId::try_from(wire::MilestoneId { id: vec![9u8; len] });
        assert_eq!(r, Err(Error::InvalidBufferLength));
    }
}

#[test]
fn mandated_lengths_are_the_protocol_constants() {
    assert_eq!(MESSAGE_ID_LENGTH, 32);
    assert_eq!(MILESTONE_ID_LENGTH, 32);
}
