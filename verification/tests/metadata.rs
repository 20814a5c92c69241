use inx_types::{wire, ConflictReason, Error, LedgerInclusionState, MessageMetadata};

fn valid_metadata() -> wire::MessageMetadata {
    wire::MessageMetadata {
        message_id: Some(wire::MessageId { id: vec![1u8; 32] }),
        parents: vec![
            wire::MessageId { id: vec![2u8; 32] },
            wire::MessageId { id: vec![3u8; 32] },
        ],
        solid: true,
        should_promote: false,
        should_reattach: false,
        referenced_by_milestone_index: 100,
        milestone_index: 100,
        ledger_inclusion_state: wire::LedgerInclusionState::Included,
        conflict_reason: wire::ConflictReason::NoConflict,
    }
}

#[test]
fn metadata_end_to_end() {
    let converted = MessageMetadata::try_from(valid_metadata()).unwrap();
    assert_eq!(converted.message_id.as_bytes(), &vec![1u8; 32]);
    assert_eq!(converted.parents.len(), 2);
    assert_eq!(converted.parents[0].as_bytes(), &vec![2u8; 32]);
    assert_eq!(converted.parents[1].as_bytes(), &vec![3u8; 32]);
    assert!(converted.is_solid);
    assert!(!converted.should_promote);
    assert!(!converted.should_reattach);
    assert_eq!(converted.referenced_by_milestone_index, 100);
    assert_eq!(converted.milestone_index, 100);
    assert_eq!(converted.ledger_inclusion_state, LedgerInclusionState::Included);
    assert_eq!(converted.conflict_reason, ConflictReason::NoConflict);
}

#[test]
fn metadata_missing_message_id_takes_precedence() {
    // The record's own identifier is absent and the parents are malformed:
    // the missing identifier must be reported, not the parent failure.
    let mut record = valid_metadata();
    record.message_id = None;
    record.parents = vec![wire::MessageId { id: vec![2u8; 3] }];
    let r = MessageMetadata::try_from(record);
    assert_eq!(r, Err(Error::MissingField("message_id")));
}

#[test]
fn metadata_missing_message_id_alone() {
    let mut record = valid_metadata();
    record.message_id = None;
    let r = MessageMetadata::try_from(record);
    assert_eq!(r, Err(Error::MissingField("message_id")));
}

#[test]
fn metadata_bad_parent_aborts_conversion() {
    let mut record = valid_metadata();
    record.parents.insert(1, wire::MessageId { id: vec![9u8; 31] });
    let r = MessageMetadata::try_from(record);
    assert_eq!(r, Err(Error::InvalidBufferLength));
}

#[test]
fn metadata_bad_message_id_length() {
    let mut record = valid_metadata();
    record.message_id = Some(wire::MessageId { id: vec![1u8; 33] });
    let r = MessageMetadata::try_from(record);
    assert_eq!(r, Err(Error::InvalidBufferLength));
}

#[test]
fn metadata_empty_parent_list_converts() {
    let mut record = valid_metadata();
    record.parents = Vec::new();
    let converted = MessageMetadata::try_from(record).unwrap();
    assert!(converted.parents.is_empty());
}

#[test]
fn inclusion_state_total_mapping() {
    assert_eq!(
        LedgerInclusionState::from(wire::LedgerInclusionState::NoTransaction),
        LedgerInclusionState::NoTransaction
    );
    assert_eq!(
        LedgerInclusionState::from(wire::LedgerInclusionState::Included),
        LedgerInclusionState::Included
    );
    assert_eq!(
        LedgerInclusionState::from(wire::LedgerInclusionState::Conflicting),
        LedgerInclusionState::Conflicting
    );
}

#[test]
fn conflict_reason_total_mapping() {
    let table = [
        (wire::ConflictReason::NoConflict, ConflictReason::NoConflict),
        (
            wire::ConflictReason::InputAlreadySpent,
            ConflictReason::InputUtxoAlreadySpent,
        ),
        (
            wire::ConflictReason::InputAlreadySpentInThisMilestone,
            ConflictReason::InputUtxoAlreadySpentInThisMilestone,
        ),
        (
            wire::ConflictReason::InputNotFound,
            ConflictReason::InputUtxoNotFound,
        ),
        (
            wire::ConflictReason::InputOutputSumMismatch,
            ConflictReason::CreatedConsumedAmountMismatch,
        ),
        (
            wire::ConflictReason::InvalidSignature,
            ConflictReason::InvalidSignature,
        ),
        (
            wire::ConflictReason::InvalidNetworkId,
            ConflictReason::SemanticValidationFailed,
        ),
        (
            wire::ConflictReason::SemanticValidationFailed,
            ConflictReason::SemanticValidationFailed,
        ),
    ];
    for (wire_reason, domain_reason) in table {
        assert_eq!(ConflictReason::from(wire_reason), domain_reason);
    }
}

#[test]
fn conflict_reason_deprecation_collapse() {
    // The deprecated network-identifier wire reason and the semantic
    // validation failure map onto the same domain reason, on purpose.
    assert_eq!(
        ConflictReason::from(wire::ConflictReason::InvalidNetworkId),
        ConflictReason::from(wire::ConflictReason::SemanticValidationFailed)
    );
    assert_eq!(
        ConflictReason::from(wire::ConflictReason::InvalidNetworkId),
        ConflictReason::SemanticValidationFailed
    );
}
