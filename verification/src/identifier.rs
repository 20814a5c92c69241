//! Fixed-length identifiers and their decoder.
//!
//! A wire identifier is a byte buffer of any length; the domain model
//! requires an exact, protocol-mandated length. Decoding succeeds if and
//! only if the buffer has exactly that length: no truncation, no padding.

use vstd::prelude::*;

use crate::error::Error;
use crate::wire;

verus! {

/// The exact length, in bytes, of a message identifier.
pub const MESSAGE_ID_LENGTH: usize = 32;

/// The exact length, in bytes, of a milestone identifier.
pub const MILESTONE_ID_LENGTH: usize = 32;

/// A message identifier: exactly [`MESSAGE_ID_LENGTH`] bytes.
#[derive(PartialEq, Eq, Debug)]
pub struct MessageId(pub Vec<u8>);

impl View for MessageId {
    type V = Seq<u8>;

    open spec fn view(&self) -> Seq<u8> {
        self.0@
    }
}

impl MessageId {
    /// The identifier holds exactly the mandated number of bytes.
    pub open spec fn is_valid(&self) -> bool {
        self@.len() == MESSAGE_ID_LENGTH
    }

    /// Decodes a wire message identifier, accepting exactly
    /// [`MESSAGE_ID_LENGTH`] bytes and rejecting every other length.
    pub fn try_from(value: wire::MessageId) -> (r: Result<MessageId, Error>)
        ensures
            value.id@.len() == MESSAGE_ID_LENGTH ==> (r matches Ok(m) && m@ == value.id@
                && m.is_valid()),
            value.id@.len() != MESSAGE_ID_LENGTH ==> (r matches Err(e) && e
                == Error::InvalidBufferLength),
    {
        if value.id.len() == MESSAGE_ID_LENGTH {
            Ok(MessageId(value.id))
        } else {
            Err(Error::InvalidBufferLength)
        }
    }

    /// Returns the identifier's bytes.
    pub fn as_bytes(&self) -> (r: &Vec<u8>)
        ensures
            r@ == self@,
    {
        &self.0
    }
}

/// A milestone identifier: exactly [`MILESTONE_ID_LENGTH`] bytes.
#[derive(PartialEq, Eq, Debug)]
pub struct MilestoneId(pub Vec<u8>);

impl View for MilestoneId {
    type V = Seq<u8>;

    open spec fn view(&self) -> Seq<u8> {
        self.0@
    }
}

impl MilestoneId {
    /// The identifier holds exactly the mandated number of bytes.
    pub open spec fn is_valid(&self) -> bool {
        self@.len() == MILESTONE_ID_LENGTH
    }

    /// Decodes a wire milestone identifier, accepting exactly
    /// [`MILESTONE_ID_LENGTH`] bytes and rejecting every other length.
    pub fn try_from(value: wire::MilestoneId) -> (r: Result<MilestoneId, Error>)
        ensures
            value.id@.len() == MILESTONE_ID_LENGTH ==> (r matches Ok(m) && m@ == value.id@
                && m.is_valid()),
            value.id@.len() != MILESTONE_ID_LENGTH ==> (r matches Err(e) && e
                == Error::InvalidBufferLength),
    {
        if value.id.len() == MILESTONE_ID_LENGTH {
            Ok(MilestoneId(value.id))
        } else {
            Err(Error::InvalidBufferLength)
        }
    }

    /// Returns the identifier's bytes.
    pub fn as_bytes(&self) -> (r: &Vec<u8>)
        ensures
            r@ == self@,
    {
        &self.0
    }
}

} // verus!
