//! The milestone record assembler.

use vstd::prelude::*;

use crate::error::Error;
use crate::identifier::{MessageId, MilestoneId, MESSAGE_ID_LENGTH, MILESTONE_ID_LENGTH};
use crate::wire;

verus! {

/// A fully validated milestone: its index and timestamp copied verbatim,
/// and its two identifiers each of the exact mandated length.
#[derive(PartialEq, Eq, Debug)]
pub struct Milestone {
    /// The index of the milestone.
    pub milestone_index: u32,
    /// The timestamp of the milestone.
    pub milestone_timestamp: u32,
    /// The identifier of the message that carried the milestone.
    pub message_id: MessageId,
    /// The identifier of the milestone itself.
    pub milestone_id: MilestoneId,
}

/// The wire record carries every field the domain milestone requires, each
/// identifier present and of its exact length.
pub open spec fn milestone_wire_valid(v: wire::Milestone) -> bool {
    &&& v.message_id matches Some(m) && m.id@.len() == MESSAGE_ID_LENGTH
    &&& v.milestone_id matches Some(m) && m.id@.len() == MILESTONE_ID_LENGTH
}

/// The first failure the assembler finds in a wire milestone record. An
/// absent required field is reported before any transformation is
/// attempted, whatever the state of the other fields; fields are checked
/// in declaration order.
pub open spec fn milestone_wire_error(v: wire::Milestone) -> Error {
    if v.message_id is None {
        Error::MissingField("message_id")
    } else if v.milestone_id is None {
        Error::MissingField("milestone_id")
    } else {
        Error::InvalidBufferLength
    }
}

/// A wire milestone record missing a required field fails with
/// [`Error::MissingField`] naming the first absent field in declared order
/// and with no other error kind, whatever the state of the other fields.
pub proof fn lemma_milestone_missing_field_takes_precedence(v: wire::Milestone)
    requires
        v.message_id is None || v.milestone_id is None,
    ensures
        !milestone_wire_valid(v),
        v.message_id is None ==> milestone_wire_error(v) == Error::MissingField("message_id"),
        v.message_id is Some && v.milestone_id is None ==> milestone_wire_error(v)
            == Error::MissingField("milestone_id"),
{
}

/// The domain milestone is the wire record, validated: scalars copied
/// verbatim and identifiers decoded byte-for-byte.
pub open spec fn milestone_matches(d: Milestone, v: wire::Milestone) -> bool {
    &&& d.milestone_index == v.milestone_index
    &&& d.milestone_timestamp == v.milestone_timestamp
    &&& v.message_id matches Some(m) && d.message_id@ == m.id@
    &&& v.milestone_id matches Some(m) && d.milestone_id@ == m.id@
}

impl Milestone {
    /// Converts a wire milestone record into a domain [`Milestone`].
    ///
    /// Succeeds if and only if both identifiers are present and of their
    /// exact length. An absent identifier is reported before any
    /// transformation is attempted, in the record's declared field order;
    /// only then are the identifiers decoded.
    pub fn try_from(value: wire::Milestone) -> (r: Result<Milestone, Error>)
        ensures
            milestone_wire_valid(value) ==> (r matches Ok(d) && milestone_matches(d, value)),
            !milestone_wire_valid(value) ==> (r matches Err(e) && e == milestone_wire_error(
                value,
            )),
    {
        let (raw_message_id, raw_milestone_id) = match (value.message_id, value.milestone_id) {
            (None, _) => {
                return Err(Error::MissingField("message_id"));
            },
            (_, None) => {
                return Err(Error::MissingField("milestone_id"));
            },
            (Some(m), Some(i)) => (m, i),
        };
        let message_id = MessageId::try_from(raw_message_id)?;
        let milestone_id = MilestoneId::try_from(raw_milestone_id)?;
        Ok(
            Milestone {
                milestone_index: value.milestone_index,
                milestone_timestamp: value.milestone_timestamp,
                message_id,
                milestone_id,
            },
        )
    }
}

} // verus!
