//! Record identifiers: 128 random bits, drawn anew for every store.

use vstd::prelude::*;

verus! {

/// The number of bytes in an identifier.
pub const ID_LEN: usize = 16;

/// The identifier a record is stored under.
#[derive(Clone, Copy, Debug, PartialEq, Eq, Hash)]
pub struct RecordId {
    pub bytes: [u8; 16],
}

impl View for RecordId {
    type V = Seq<u8>;

    open spec fn view(&self) -> Seq<u8> {
        self.bytes@
    }
}

/// The layout of a random identifier: sixteen bytes, of which the high half
/// of byte 6 holds the version 4 and the top two bits of byte 8 the variant
/// `10`. The other 122 bits are free.
pub open spec fn is_random_layout(bytes: Seq<u8>) -> bool {
    &&& bytes.len() == 16
    &&& bytes[6] / 16 == 4
    &&& bytes[8] / 64 == 2
}

/// Calls `uuid::Uuid::new_v4` and hands out its sixteen bytes.
///
/// The generator masks the version and variant bits into 128 random bits, so
/// the contract claims that layout and nothing about the remaining bits. The
/// generator aborts the process when the system offers no randomness.
#[verifier::external_body]
fn fresh_uuid_bytes() -> (bytes: [u8; 16])
    ensures
        is_random_layout(bytes@),
{
    uuid::Uuid::new_v4().into_bytes()
}

impl RecordId {
    /// Draws a fresh identifier. It does not depend on any record.
    pub fn generate() -> (id: RecordId)
        ensures
            is_random_layout(id@),
    {
        RecordId { bytes: fresh_uuid_bytes() }
    }

    /// The identifier with exactly these bytes.
    pub fn from_bytes(bytes: [u8; 16]) -> (id: RecordId)
        ensures
            id@ == bytes@,
            id.bytes == bytes,
    {
        RecordId { bytes }
    }

    /// The sixteen bytes, as they are used for store keys and members.
    pub fn as_bytes(&self) -> (bytes: &[u8; 16])
        ensures
            bytes@ == self@,
            bytes@.len() == 16,
    {
        &self.bytes
    }

    /// The sixteen bytes in a vector of their own.
    pub fn to_vec(&self) -> (bytes: Vec<u8>)
        ensures
            bytes@ == self@,
            bytes@.len() == 16,
    {
        let mut out: Vec<u8> = Vec::new();
        let mut i: usize = 0;
        while i < 16
            invariant
                i <= 16,
                out@ == self@.subrange(0, i as int),
            decreases 16 - i,
        {
            out.push(self.bytes[i]);
            i = i + 1;
            assert(out@ =~= self@.subrange(0, i as int));
        }
        assert(out@ =~= self@);
        out
    }
}

} // verus!
