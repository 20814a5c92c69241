//! The message-metadata record assembler and the enumeration remappers.

use vstd::prelude::*;

use crate::error::Error;
use crate::identifier::{MessageId, MESSAGE_ID_LENGTH};
use crate::wire;

verus! {

/// Whether a message is part of the ledger state.
#[derive(PartialEq, Eq, Debug, Clone, Copy)]
pub enum LedgerInclusionState {
    /// The message carries no transaction.
    NoTransaction,
    /// The message's transaction is part of the ledger state.
    Included,
    /// The message's transaction conflicts with the ledger state.
    Conflicting,
}

/// Why a transaction-carrying message was not admitted into the ledger
/// state.
#[derive(PartialEq, Eq, Debug, Clone, Copy)]
pub enum ConflictReason {
    /// No conflict occurred.
    NoConflict,
    /// An input was already spent.
    InputUtxoAlreadySpent,
    /// An input was already spent while confirming this milestone.
    InputUtxoAlreadySpentInThisMilestone,
    /// An input was not found.
    InputUtxoNotFound,
    /// The created and consumed amounts do not match.
    CreatedConsumedAmountMismatch,
    /// A signature is invalid.
    InvalidSignature,
    /// Semantic validation failed.
    SemanticValidationFailed,
}

/// The total, explicit mapping from wire inclusion-state codes onto domain
/// inclusion states. Every wire variant has exactly one destination; there
/// is no fallback arm, so a new wire variant cannot silently fall through.
pub open spec fn inclusion_state_from_wire(value: wire::LedgerInclusionState)
    -> LedgerInclusionState {
    match value {
        wire::LedgerInclusionState::NoTransaction => LedgerInclusionState::NoTransaction,
        wire::LedgerInclusionState::Included => LedgerInclusionState::Included,
        wire::LedgerInclusionState::Conflicting => LedgerInclusionState::Conflicting,
    }
}

/// The total, explicit mapping from wire conflict-reason codes onto domain
/// conflict reasons. Every wire variant has exactly one destination; the
/// mapping is many-to-one: the deprecated network-identifier variant
/// collapses onto the same domain reason as a semantic validation failure,
/// the distinction no longer being meaningful in the domain model.
pub open spec fn conflict_reason_from_wire(value: wire::ConflictReason) -> ConflictReason {
    match value {
        wire::ConflictReason::NoConflict => ConflictReason::NoConflict,
        wire::ConflictReason::InputAlreadySpent => ConflictReason::InputUtxoAlreadySpent,
        wire::ConflictReason::InputAlreadySpentInThisMilestone => ConflictReason::InputUtxoAlreadySpentInThisMilestone,
        wire::ConflictReason::InputNotFound => ConflictReason::InputUtxoNotFound,
        wire::ConflictReason::InputOutputSumMismatch => ConflictReason::CreatedConsumedAmountMismatch,
        wire::ConflictReason::InvalidSignature => ConflictReason::InvalidSignature,
        // Slated for removal from the wire protocol; kept collapsed on purpose.
        wire::ConflictReason::InvalidNetworkId => ConflictReason::SemanticValidationFailed,
        wire::ConflictReason::SemanticValidationFailed => ConflictReason::SemanticValidationFailed,
    }
}

/// The deprecated wire reason for a network-identifier mismatch and the
/// wire reason for a failed semantic validation both map onto the single
/// domain reason [`ConflictReason::SemanticValidationFailed`]. This pins
/// the documented deprecation collapse: it is a design choice, not an
/// oversight.
pub proof fn lemma_conflict_reason_collapse()
    ensures
        conflict_reason_from_wire(wire::ConflictReason::InvalidNetworkId)
            == ConflictReason::SemanticValidationFailed,
        conflict_reason_from_wire(wire::ConflictReason::SemanticValidationFailed)
            == ConflictReason::SemanticValidationFailed,
{
}

impl LedgerInclusionState {
    /// Remaps a wire inclusion-state code onto its domain inclusion state.
    pub fn from(value: wire::LedgerInclusionState) -> (r: LedgerInclusionState)
        ensures
            r == inclusion_state_from_wire(value),
    {
        match value {
            wire::LedgerInclusionState::NoTransaction => LedgerInclusionState::NoTransaction,
            wire::LedgerInclusionState::Included => LedgerInclusionState::Included,
            wire::LedgerInclusionState::Conflicting => LedgerInclusionState::Conflicting,
        }
    }
}

impl ConflictReason {
    /// Remaps a wire conflict-reason code onto its domain conflict reason,
    /// collapsing the deprecated network-identifier variant onto
    /// [`ConflictReason::SemanticValidationFailed`].
    pub fn from(value: wire::ConflictReason) -> (r: ConflictReason)
        ensures
            r == conflict_reason_from_wire(value),
    {
        match value {
            wire::ConflictReason::NoConflict => ConflictReason::NoConflict,
            wire::ConflictReason::InputAlreadySpent => ConflictReason::InputUtxoAlreadySpent,
            wire::ConflictReason::InputAlreadySpentInThisMilestone => ConflictReason::InputUtxoAlreadySpentInThisMilestone,
            wire::ConflictReason::InputNotFound => ConflictReason::InputUtxoNotFound,
            wire::ConflictReason::InputOutputSumMismatch => ConflictReason::CreatedConsumedAmountMismatch,
            wire::ConflictReason::InvalidSignature => ConflictReason::InvalidSignature,
            // This wire variant will be removed in future protocol versions.
            wire::ConflictReason::InvalidNetworkId => ConflictReason::SemanticValidationFailed,
            wire::ConflictReason::SemanticValidationFailed => ConflictReason::SemanticValidationFailed,
        }
    }
}

/// The metadata of a message: its identifier, its parents in wire order,
/// its status flags and milestone indices copied verbatim, and its two
/// enumerations remapped onto the domain variants.
#[derive(PartialEq, Eq, Debug)]
pub struct MessageMetadata {
    /// The identifier of the message.
    pub message_id: MessageId,
    /// The identifiers of the message's parents, in wire order.
    pub parents: Vec<MessageId>,
    /// Whether the message is solid.
    pub is_solid: bool,
    /// Whether the message should be promoted.
    pub should_promote: bool,
    /// Whether the message should be reattached.
    pub should_reattach: bool,
    /// The index of the milestone that referenced the message.
    pub referenced_by_milestone_index: u32,
    /// The corresponding milestone index.
    pub milestone_index: u32,
    /// Whether the message is part of the ledger state.
    pub ledger_inclusion_state: LedgerInclusionState,
    /// Why the message's transaction conflicts with the ledger state, if it
    /// does.
    pub conflict_reason: ConflictReason,
}

/// Every parent identifier in the wire record has the exact mandated
/// length.
pub open spec fn metadata_parents_valid(parents: Seq<wire::MessageId>) -> bool {
    forall|i: int| 0 <= i < parents.len() ==> #[trigger] parents[i].id@.len() == MESSAGE_ID_LENGTH
}

/// The wire record carries every field the domain metadata requires: the
/// message identifier present and of its exact length, and every parent
/// identifier of its exact length.
pub open spec fn metadata_wire_valid(v: wire::MessageMetadata) -> bool {
    &&& v.message_id matches Some(m) && m.id@.len() == MESSAGE_ID_LENGTH
    &&& metadata_parents_valid(v.parents@)
}

/// The first failure the assembler finds in a wire metadata record. The
/// record's own identifier is checked before its parent list: an absent
/// identifier is reported as missing whatever the state of the parents.
pub open spec fn metadata_wire_error(v: wire::MessageMetadata) -> Error {
    if v.message_id is None {
        Error::MissingField("message_id")
    } else {
        Error::InvalidBufferLength
    }
}

/// A wire metadata record whose own identifier is absent fails with
/// [`Error::MissingField`] naming that identifier and with no other error
/// kind, whatever the state of the other fields: the record's own
/// identifier is checked before its parent list.
pub proof fn lemma_metadata_missing_field_takes_precedence(v: wire::MessageMetadata)
    requires
        v.message_id is None,
    ensures
        !metadata_wire_valid(v),
        metadata_wire_error(v) == Error::MissingField("message_id"),
{
}

/// The domain metadata is the wire record, validated: the identifier and
/// the parents decoded byte-for-byte and in order, the scalars copied
/// verbatim, and the enumerations remapped.
pub open spec fn metadata_matches(d: MessageMetadata, v: wire::MessageMetadata) -> bool {
    &&& v.message_id matches Some(m) && d.message_id@ == m.id@
    &&& d.parents@.len() == v.parents@.len()
    &&& forall|i: int|
        0 <= i < d.parents@.len() ==> #[trigger] d.parents@[i]@ == v.parents@[i].id@
    &&& d.is_solid == v.solid
    &&& d.should_promote == v.should_promote
    &&& d.should_reattach == v.should_reattach
    &&& d.referenced_by_milestone_index == v.referenced_by_milestone_index
    &&& d.milestone_index == v.milestone_index
    &&& d.ledger_inclusion_state == inclusion_state_from_wire(v.ledger_inclusion_state)
    &&& d.conflict_reason == conflict_reason_from_wire(v.conflict_reason)
}

impl MessageMetadata {
    /// Converts a wire metadata record into a domain [`MessageMetadata`].
    ///
    /// The record's own identifier is checked first — if it is absent the
    /// conversion fails with [`Error::MissingField`] naming it, whatever
    /// the state of the other fields. The parents are then decoded
    /// element-wise in wire order, and the first wrong-length parent
    /// aborts the whole conversion: no partial parent list escapes.
    pub fn try_from(value: wire::MessageMetadata) -> (r: Result<MessageMetadata, Error>)
        ensures
            metadata_wire_valid(value) ==> (r matches Ok(d) && metadata_matches(d, value)),
            !metadata_wire_valid(value) ==> (r matches Err(e) && e == metadata_wire_error(value)),
    {
        if value.message_id.is_none() {
            return Err(Error::MissingField("message_id"));
        }

        let n = value.parents.len();
        let mut parents: Vec<MessageId> = Vec::new();
        let mut i: usize = 0;
        while i < n
            invariant
                value.message_id is Some,
                n == value.parents@.len(),
                i <= n,
                parents@.len() == i,
                forall|j: int| 0 <= j < i ==> #[trigger] value.parents@[j].id@.len()
                    == MESSAGE_ID_LENGTH,
                forall|j: int| 0 <= j < i ==> #[trigger] parents@[j]@ == value.parents@[j].id@,
            decreases n - i,
        {
            let parent = &value.parents[i];
            let decoded = MessageId::try_from(wire::MessageId { id: parent.id.clone() })?;
            parents.push(decoded);
            i += 1;
        }

        let ledger_inclusion_state = LedgerInclusionState::from(value.ledger_inclusion_state);
        let conflict_reason = ConflictReason::from(value.conflict_reason);

        let message_id = match value.message_id {
            Some(id) => MessageId::try_from(id)?,
            None => {
                return Err(Error::MissingField("message_id"));
            },
        };

        Ok(
            MessageMetadata {
                message_id,
                parents,
                is_solid: value.solid,
                should_promote: value.should_promote,
                should_reattach: value.should_reattach,
                referenced_by_milestone_index: value.referenced_by_milestone_index,
                milestone_index: value.milestone_index,
                ledger_inclusion_state,
                conflict_reason,
            },
        )
    }
}

} // verus!
