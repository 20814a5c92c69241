//! Conversion of loosely-typed node-introspection wire records into fully
//! validated domain values.
//!
//! Wire records arrive with optional fields, raw byte buffers and numeric
//! enumeration codes; the domain model requires fixed-length identifiers,
//! structurally verified payloads and closed enumerations. Every conversion
//! either yields a fully valid domain value or the first failure found,
//! tagged so the caller can pinpoint the offending field.

mod error;
mod identifier;
mod message;
mod metadata;
mod milestone;
mod node_status;
mod payload;
pub mod wire;

pub use error::Error;
pub use message::{
    lemma_message_missing_field_takes_precedence, message_wire_error, message_wire_valid, Message,
};
pub use metadata::{
    conflict_reason_from_wire, inclusion_state_from_wire, lemma_conflict_reason_collapse,
    lemma_metadata_missing_field_takes_precedence, metadata_matches, metadata_parents_valid,
    metadata_wire_error, metadata_wire_valid, ConflictReason, LedgerInclusionState,
    MessageMetadata,
};
pub use milestone::{
    lemma_milestone_missing_field_takes_precedence, milestone_matches, milestone_wire_error,
    milestone_wire_valid, Milestone,
};
pub use node_status::{
    lemma_node_configuration_missing_field_takes_precedence,
    lemma_node_status_missing_field_takes_precedence, node_configuration_matches,
    node_configuration_wire_error, node_configuration_wire_valid, node_status_matches,
    node_status_wire_error, node_status_wire_valid, BaseToken, MilestoneKeyRange,
    NodeConfiguration, NodeStatus, ProtocolParameters,
};
pub use payload::{block_bytes, can_unpack, message_to_bytes, reencoded, verify_message};
pub use identifier::{MessageId, MilestoneId, MESSAGE_ID_LENGTH, MILESTONE_ID_LENGTH};
