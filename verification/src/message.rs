//! The message record assembler.

use vstd::prelude::*;

use crate::error::Error;
use crate::identifier::{MessageId, MESSAGE_ID_LENGTH};
use crate::payload::{block_bytes, can_unpack, pack_block, reencoded, verify_message};
use crate::wire;

verus! {

/// A fully validated message: its identifier paired with its structurally
/// verified payload. The two are constructed together and never mutated
/// afterwards.
#[derive(Debug)]
pub struct Message {
    /// The identifier of the message.
    pub message_id: MessageId,
    /// The structurally verified payload of the message.
    pub message: bee_block::Block,
}

/// The wire record carries every field the domain message requires: the
/// identifier is present with its exact length and the raw message is
/// present. Whether the raw bytes decode is for the structural verifier to
/// decide.
pub open spec fn message_wire_valid(v: wire::Message) -> bool {
    &&& v.message_id matches Some(m) && m.id@.len() == MESSAGE_ID_LENGTH
    &&& v.message is Some
}

/// The first failure the assembler finds in a wire message record, among
/// those that do not depend on the payload decoder. An absent required
/// field is reported before any transformation is attempted, whatever the
/// state of the other fields; fields are checked in declaration order.
pub open spec fn message_wire_error(v: wire::Message) -> Error {
    if v.message_id is None {
        Error::MissingField("message_id")
    } else if v.message is None {
        Error::MissingField("message")
    } else {
        Error::InvalidBufferLength
    }
}

/// A wire message record missing a required field fails with
/// [`Error::MissingField`] naming the first absent field in declared order
/// and with no other error kind, whatever the state of the other fields.
pub proof fn lemma_message_missing_field_takes_precedence(v: wire::Message)
    requires
        v.message_id is None || v.message is None,
    ensures
        !message_wire_valid(v),
        v.message_id is None ==> message_wire_error(v) == Error::MissingField("message_id"),
        v.message_id is Some && v.message is None ==> message_wire_error(v)
            == Error::MissingField("message"),
{
}

impl Message {
    /// Converts a wire message record into a domain [`Message`].
    ///
    /// An absent field fails with [`Error::MissingField`] naming it before
    /// any transformation is attempted, the identifier checked first. Only
    /// then is the identifier decoded — a wrong length fails with
    /// [`Error::InvalidBufferLength`] — and the raw bytes structurally
    /// verified: the conversion succeeds if and only if the raw bytes
    /// decode with the format's own self-checks and re-encode to
    /// themselves, the payload then re-encoding byte-for-byte to the raw
    /// wire bytes, and any payload failure is reported as
    /// [`Error::PackableError`], never wrapped or downgraded.
    pub fn try_from(value: wire::Message) -> (r: Result<Message, Error>)
        ensures
            !message_wire_valid(value) ==> (r matches Err(e) && e == message_wire_error(value)),
            message_wire_valid(value) ==> match r {
                Ok(d) => {
                    &&& d.message_id@ == value.message_id->Some_0.id@
                    &&& d.message_id.is_valid()
                    &&& block_bytes(d.message) == value.message->Some_0.data@
                    &&& can_unpack(value.message->Some_0.data@)
                    &&& reencoded(value.message->Some_0.data@) == value.message->Some_0.data@
                },
                Err(e) => {
                    &&& e == Error::PackableError
                    &&& !(can_unpack(value.message->Some_0.data@) && reencoded(
                        value.message->Some_0.data@,
                    ) == value.message->Some_0.data@)
                },
            },
    {
        let (raw_message_id, raw_message) = match (value.message_id, value.message) {
            (None, _) => {
                return Err(Error::MissingField("message_id"));
            },
            (_, None) => {
                return Err(Error::MissingField("message"));
            },
            (Some(id), Some(raw)) => (id, raw),
        };
        let message_id = MessageId::try_from(raw_message_id)?;
        let message = verify_message(raw_message)?;
        Ok(Message { message_id, message })
    }

    /// Returns the canonical binary encoding of the message's payload.
    pub fn message_bytes(&self) -> (r: Vec<u8>)
        ensures
            r@ == block_bytes(self.message),
    {
        pack_block(&self.message)
    }
}

} // verus!
