//! The payload structural verifier.
//!
//! A wire message arrives as an opaque byte buffer claimed to encode a
//! message in the ledger's native binary format. Decoding and verification
//! are one atomic step: the buffer is structurally decoded and the format's
//! own self-checks run at the same time (internal length fields must agree
//! with the bytes actually consumed, parents must be unique and ordered,
//! no bytes may trail the message), and the decoded object must re-encode
//! byte-for-byte to the buffer it came from. A buffer that fails any of
//! this is rejected whole; no partially decoded payload ever escapes.

use vstd::prelude::*;

use crate::error::Error;
use crate::wire;
use packable::PackableExt;

verus! {

/// The decoded payload object of the ledger's native binary format.
#[verifier::external_type_specification]
#[verifier::external_body]
pub struct ExBlock(bee_block::Block);

/// The canonical binary encoding of a decoded payload object, the byte
/// sequence that `packable::PackableExt::pack_to_vec` returns for it.
pub uninterp spec fn block_bytes(b: bee_block::Block) -> Seq<u8>;

/// Whether `bee_block::Block::unpack_strict` decodes the byte sequence: a
/// full structural decode with the format's own self-checks, and no
/// trailing bytes. A function of the bytes alone: the decode is
/// deterministic and the default protocol parameters it runs under are a
/// constant.
pub uninterp spec fn can_unpack(data: Seq<u8>) -> bool;

/// The canonical re-encoding of what `bee_block::Block::unpack_strict`
/// decodes the byte sequence to; meaningful only where [`can_unpack`]
/// holds. A function of the bytes alone, as [`can_unpack`] is.
pub uninterp spec fn reencoded(data: Seq<u8>) -> Seq<u8>;

/// Relies on `bee_block::Block::unpack_strict`: it decodes the buffer
/// doing the format's syntactical checks (against the default protocol
/// parameters, a constant) and rejects trailing bytes, deterministically
/// in the buffer alone — so success is [`can_unpack`] of the bytes, and
/// the decoded block's canonical encoding is their [`reencoded`].
#[verifier::external_body]
fn unpack_strict(data: &Vec<u8>) -> (r: Option<bee_block::Block>)
    ensures
        r is Some <==> can_unpack(data@),
        r matches Some(b) ==> block_bytes(b) == reencoded(data@),
{
    bee_block::Block::unpack_strict(data.as_slice(), &bee_block::protocol::ProtocolParameters::default()).ok()
}

/// Relies on `packable::PackableExt::pack_to_vec`: it returns the block's
/// canonical binary encoding, a function of the block value alone.
#[verifier::external_body]
pub(crate) fn pack_block(b: &bee_block::Block) -> (r: Vec<u8>)
    ensures
        r@ == block_bytes(*b),
{
    b.pack_to_vec()
}

/// Compares two byte buffers for equality.
fn bytes_equal(a: &Vec<u8>, b: &Vec<u8>) -> (r: bool)
    ensures
        r == (a@ == b@),
{
    if a.len() != b.len() {
        return false;
    }
    let n = a.len();
    let mut i: usize = 0;
    while i < n
        invariant
            n == a@.len(),
            n == b@.len(),
            i <= n,
            forall|j: int| 0 <= j < i ==> a@[j] == b@[j],
        decreases n - i,
    {
        if a[i] != b[i] {
            return false;
        }
        i += 1;
    }
    proof {
        assert(a@ =~= b@);
    }
    true
}

/// Decodes and verifies a raw wire message in one atomic step.
///
/// The buffer is structurally decoded with the format's own self-checks,
/// and the decoded payload object is then re-encoded and compared against
/// the buffer: the conversion succeeds if and only if the buffer decodes
/// and the object's canonical encoding is exactly the input, byte for
/// byte. Any failure — a buffer that does not decode, fails a self-check,
/// or does not re-encode to itself — rejects the whole buffer with
/// [`Error::PackableError`]; no partial result escapes.
pub fn verify_message(value: wire::RawMessage) -> (r: Result<bee_block::Block, Error>)
    ensures
        r is Ok <==> (can_unpack(value.data@) && reencoded(value.data@) == value.data@),
        r matches Ok(b) ==> block_bytes(b) == value.data@,
        r matches Err(e) ==> e == Error::PackableError,
{
    match unpack_strict(&value.data) {
        Some(block) => {
            let encoded = pack_block(&block);
            if bytes_equal(&encoded, &value.data) {
                Ok(block)
            } else {
                Err(Error::PackableError)
            }
        },
        None => Err(Error::PackableError),
    }
}

/// Returns the canonical binary encoding of a decoded payload object.
pub fn message_to_bytes(b: &bee_block::Block) -> (r: Vec<u8>)
    ensures
        r@ == block_bytes(*b),
{
    pack_block(b)
}

} // verus!
