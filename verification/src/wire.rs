//! Wire records as the node-introspection interface delivers them.
//!
//! These mirror the external schema: fields the domain model requires are
//! optional here, identifiers are raw byte buffers, payloads are opaque byte
//! buffers, and enumerations are closed numeric codes already decoded to
//! their declared variants. Nothing in this module is validated; validation
//! happens when a record is converted into its domain counterpart.

use vstd::prelude::*;

verus! {

/// A raw message identifier: a byte buffer of any length.
#[derive(PartialEq, Eq, Debug)]
pub struct MessageId {
    /// The identifier bytes.
    pub id: Vec<u8>,
}

/// A raw milestone identifier: a byte buffer of any length.
#[derive(PartialEq, Eq, Debug)]
pub struct MilestoneId {
    /// The identifier bytes.
    pub id: Vec<u8>,
}

/// An opaque byte buffer claimed to encode a message in the ledger's native
/// binary format.
#[derive(PartialEq, Eq, Debug)]
pub struct RawMessage {
    /// The encoded message bytes.
    pub data: Vec<u8>,
}

/// A message record: an identifier together with the raw message bytes.
#[derive(PartialEq, Eq, Debug)]
pub struct Message {
    /// The identifier of the message, if present.
    pub message_id: Option<MessageId>,
    /// The encoded message, if present.
    pub message: Option<RawMessage>,
}

/// A milestone record.
#[derive(PartialEq, Eq, Debug)]
pub struct Milestone {
    /// The index of the milestone.
    pub milestone_index: u32,
    /// The timestamp of the milestone.
    pub milestone_timestamp: u32,
    /// The identifier of the message that carried the milestone, if present.
    pub message_id: Option<MessageId>,
    /// The identifier of the milestone itself, if present.
    pub milestone_id: Option<MilestoneId>,
}

/// The wire code describing whether a message is part of the ledger state.
#[derive(PartialEq, Eq, Debug, Clone, Copy)]
pub enum LedgerInclusionState {
    /// The message carries no transaction.
    NoTransaction,
    /// The message's transaction is part of the ledger state.
    Included,
    /// The message's transaction conflicts with the ledger state.
    Conflicting,
}

/// The wire code explaining why a transaction-carrying message was not
/// admitted into the ledger state.
#[derive(PartialEq, Eq, Debug, Clone, Copy)]
pub enum ConflictReason {
    /// No conflict occurred.
    NoConflict,
    /// An input was already spent.
    InputAlreadySpent,
    /// An input was already spent while confirming this milestone.
    InputAlreadySpentInThisMilestone,
    /// An input was not found.
    InputNotFound,
    /// The created and consumed amounts do not match.
    InputOutputSumMismatch,
    /// A signature is invalid.
    InvalidSignature,
    /// The network identifier does not match. Deprecated: newer versions of
    /// the wire protocol report this as a semantic validation failure.
    InvalidNetworkId,
    /// Semantic validation failed.
    SemanticValidationFailed,
}

/// A message-metadata record.
#[derive(PartialEq, Eq, Debug)]
pub struct MessageMetadata {
    /// The identifier of the message, if present.
    pub message_id: Option<MessageId>,
    /// The identifiers of the message's parents, in wire order.
    pub parents: Vec<MessageId>,
    /// Whether the message is solid.
    pub solid: bool,
    /// Whether the message should be promoted.
    pub should_promote: bool,
    /// Whether the message should be reattached.
    pub should_reattach: bool,
    /// The index of the milestone that referenced the message.
    pub referenced_by_milestone_index: u32,
    /// The corresponding milestone index.
    pub milestone_index: u32,
    /// Whether the message is part of the ledger state.
    pub ledger_inclusion_state: LedgerInclusionState,
    /// Why the message's transaction conflicts with the ledger state, if it
    /// does.
    pub conflict_reason: ConflictReason,
}

/// A range of milestone indices over which one public key signs milestones.
#[derive(PartialEq, Eq, Debug)]
pub struct MilestoneKeyRange {
    /// The public key.
    pub public_key: Vec<u8>,
    /// The first milestone index of the range.
    pub start_index: u32,
    /// The last milestone index of the range.
    pub end_index: u32,
}

/// The protocol parameters in force on the network, delivered verbatim.
#[derive(PartialEq, Eq, Debug)]
pub struct ProtocolParameters {
    /// The version of the protocol.
    pub protocol_version: u32,
    /// The serialized parameters.
    pub params: Vec<u8>,
}

/// Display metadata of the network's underlying token.
#[derive(PartialEq, Eq, Debug)]
pub struct BaseToken {
    /// The name of the token.
    pub name: String,
    /// The ticker symbol of the token.
    pub ticker_symbol: String,
    /// The unit of the token.
    pub unit: String,
    /// The sub-unit of the token.
    pub subunit: String,
    /// The number of decimal places of the token.
    pub decimals: u32,
    /// Whether the token uses the metric prefix.
    pub use_metric_prefix: bool,
}

/// A node-configuration record.
#[derive(PartialEq, Eq, Debug)]
pub struct NodeConfiguration {
    /// The protocol parameters, if present.
    pub protocol_parameters: Option<ProtocolParameters>,
    /// The number of public keys in a milestone.
    pub milestone_public_key_count: u32,
    /// The key ranges used to sign milestones, in wire order.
    pub milestone_key_ranges: Vec<MilestoneKeyRange>,
    /// The base token of the network, if present.
    pub base_token: Option<BaseToken>,
}

/// A node-status record.
#[derive(PartialEq, Eq, Debug)]
pub struct NodeStatus {
    /// Whether the node is healthy.
    pub is_healthy: bool,
    /// The latest milestone seen by the node, if present.
    pub latest_milestone: Option<Milestone>,
    /// The last confirmed milestone, if present.
    pub confirmed_milestone: Option<Milestone>,
    /// The pruning index of the node.
    pub pruning_index: u32,
    /// The ledger index of the node.
    pub ledger_index: u32,
}

} // verus!
