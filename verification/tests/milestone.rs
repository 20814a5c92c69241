use inx_types::{wire, Error, Milestone};

fn valid_milestone() -> wire::Milestone {
    wire::Milestone {
        milestone_index: 12,
        milestone_timestamp: 1650000000,
        message_id: Some(wire::MessageId { id: vec![4u8; 32] }),
        milestone_id: Some(wire::MilestoneId { id: vec![8u8; 32] }),
    }
}

#[test]
fn milestone_converts() {
    let converted = Milestone::try_from(valid_milestone()).unwrap();
    assert_eq!(converted.milestone_index, 12);
    assert_eq!(converted.milestone_timestamp, 1650000000);
    assert_eq!(converted.message_id.as_bytes(), &vec![4u8; 32]);
    assert_eq!(converted.milestone_id.as_bytes(), &vec![8u8; 32]);
}

#[test]
fn milestone_missing_message_id() {
    let mut record = valid_milestone();
    record.message_id = None;
    let r = Milestone::try_from(record);
    assert_eq!(r, Err(Error::MissingField("message_id")));
}

#[test]
fn milestone_missing_milestone_id() {
    let mut record = valid_milestone();
    record.milestone_id = None;
    let r = Milestone::try_from(record);
    assert_eq!(r, Err(Error::MissingField("milestone_id")));
}

#[test]
fn milestone_message_id_checked_first() {
    let record = wire::Milestone {
        milestone_index: 0,
        milestone_timestamp: 0,
        message_id: None,
        milestone_id: None,
    };
    let r = Milestone::try_from(record);
    assert_eq!(r, Err(Error::MissingField("message_id")));
}

#[test]
fn milestone_missing_field_beats_malformed_field() {
    // The message identifier is malformed and the milestone identifier is
    // absent: the missing field must be reported, not the bad buffer.
    let mut record = valid_milestone();
    record.message_id = Some(wire::MessageId { id: vec![4u8; 5] });
    record.milestone_id = None;
    let r = Milestone::try_from(record);
    assert_eq!(r, Err(Error::MissingField("milestone_id")));
}

#[test]
fn milestone_bad_message_id_length() {
    let mut record = valid_milestone();
    record.message_id = Some(wire::MessageId { id: vec![4u8; 20] });
    let r = Milestone::try_from(record);
    assert_eq!(r, Err(Error::InvalidBufferLength));
}

#[test]
fn milestone_bad_milestone_id_length() {
    let mut record = valid_milestone();
    record.milestone_id = Some(wire::MilestoneId { id: vec![8u8; 40] });
    let r = Milestone::try_from(record);
    assert_eq!(r, Err(Error::InvalidBufferLength));
}
