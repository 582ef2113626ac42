//! A record of a user: a name, indexed by its exact bytes, and an age,
//! indexed by its number.

use vstd::prelude::*;
use crate::error::{DecodingError, EncodingError, IndexBuildError};
use crate::index::{append_bytes, IndexDescriptor, IndexView};
use crate::record::Indexable;
use crate::score::Score;

verus! {

/// A user.
#[derive(Clone, Debug, PartialEq, Eq)]
pub struct User {
    pub name: String,
    pub age: u16,
}

/// Bytes that are the encoding of a user decode to that user's name and age.
proof fn lemma_encoded_users_decode(bytes: Seq<u8>)
    requires
        bytes.len() <= usize::MAX,
    ensures
        forall|record: User| #[trigger]
            record.encoded() == Ok::<Seq<u8>, EncodingError>(bytes) ==> crate::codec::decoding_of(
                bytes,
            ) == Ok::<(Seq<char>, u16), DecodingError>((record.name@, record.age)),
{
    assert forall|record: User| #[trigger]
        record.encoded() == Ok::<Seq<u8>, EncodingError>(
            bytes,
        ) implies crate::codec::decoding_of(bytes) == Ok::<(Seq<char>, u16), DecodingError>(
        (record.name@, record.age),
    ) by {
        crate::codec::lemma_decoding_inverts_encoding(record.name@, record.age);
    }
}

impl Indexable for User {
    open spec fn namespace() -> Seq<char> {
        "usr"@
    }

    open spec fn encoded(&self) -> Result<Seq<u8>, EncodingError> {
        Ok(crate::codec::encoding_of(self.name@, self.age))
    }

    open spec fn indices(&self) -> Result<Seq<IndexView>, IndexBuildError> {
        Ok(
            seq![
                IndexView::Exact {
                    field_name: "name"@,
                    raw_bytes: vstd::utf8::encode_utf8(self.name@),
                },
                IndexView::Numeric { field_name: "age"@, score: self.age as int },
            ],
        )
    }

    open spec fn same_record(&self, other: &Self) -> bool {
        self.name@ == other.name@ && self.age == other.age
    }

    fn storage_namespace() -> (name: &'static str) {
        "usr"
    }

    fn encode(&self) -> (out: Result<Vec<u8>, EncodingError>) {
        crate::codec::encode_name_age(self.name.as_str(), self.age)
    }

    /// Decodes a user: exactly what the binary form says of the input.
    fn decode(bytes: &[u8]) -> (out: Result<Self, DecodingError>)
        ensures
            match crate::codec::decoding_of(bytes@) {
                Ok(pair) => out is Ok && out->Ok_0.name@ == pair.0 && out->Ok_0.age == pair.1,
                Err(error) => out == Err::<User, DecodingError>(error),
            },
    {
        proof {
            assert(bytes@.len() == bytes.len());
            lemma_encoded_users_decode(bytes@);
        }
        match crate::codec::decode_name_age(bytes) {
            Ok(pair) => Ok(User { name: pair.0, age: pair.1 }),
            Err(error) => Err(error),
        }
    }

    fn build_indices(&self) -> (out: Result<Vec<IndexDescriptor>, IndexBuildError>) {
        let mut raw_bytes: Vec<u8> = Vec::new();
        append_bytes(&mut raw_bytes, self.name.as_str().as_bytes());
        let mut list: Vec<IndexDescriptor> = Vec::new();
        list.push(IndexDescriptor::Exact { field_name: "name", raw_bytes });
        list.push(
            IndexDescriptor::Numeric { field_name: "age", score: Score::from_u32(self.age as u32) },
        );
        assert(crate::index::descriptor_views(list@) =~= self.indices()->Ok_0);
        Ok(list)
    }

    fn equals(&self, other: &Self) -> (same: bool) {
        self.name == other.name && self.age == other.age
    }
}

} // verus!
