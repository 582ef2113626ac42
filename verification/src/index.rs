//! Index descriptors and the store keys derived from them.

use vstd::prelude::*;
use crate::score::Score;

verus! {

/// The byte that parts namespace, field name and value in an index key.
pub const SEPARATOR: u8 = 10;

/// One secondary index entry that a record asks for.
#[derive(Clone, Debug, PartialEq, Eq)]
pub enum IndexDescriptor {
    /// Membership index: the records whose field holds exactly these bytes.
    Exact { field_name: &'static str, raw_bytes: Vec<u8> },
    /// Ordered index: the records of the type, ordered by this field.
    Numeric { field_name: &'static str, score: Score },
}

/// What a descriptor says, as plain mathematical values.
pub enum IndexView {
    Exact { field_name: Seq<char>, raw_bytes: Seq<u8> },
    Numeric { field_name: Seq<char>, score: int },
}

impl View for IndexDescriptor {
    type V = IndexView;

    open spec fn view(&self) -> IndexView {
        match *self {
            IndexDescriptor::Exact { field_name, raw_bytes } => IndexView::Exact {
                field_name: field_name@,
                raw_bytes: raw_bytes@,
            },
            IndexDescriptor::Numeric { field_name, score } => IndexView::Numeric {
                field_name: field_name@,
                score: score@,
            },
        }
    }
}

/// The views of a list of descriptors, in order.
pub open spec fn descriptor_views(indices: Seq<IndexDescriptor>) -> Seq<IndexView> {
    Seq::new(indices.len(), |i: int| indices[i]@)
}

/// The key of the ordered index of a field: namespace, separator, field name.
pub open spec fn numeric_key(namespace: Seq<char>, field_name: Seq<char>) -> Seq<u8> {
    vstd::utf8::encode_utf8(namespace) + seq![SEPARATOR] + vstd::utf8::encode_utf8(field_name)
}

/// The key of the membership set of a field value: the ordered key's bytes,
/// a second separator, and the value.
pub open spec fn exact_key(namespace: Seq<char>, field_name: Seq<char>, raw_bytes: Seq<u8>) -> Seq<
    u8,
> {
    numeric_key(namespace, field_name) + seq![SEPARATOR] + raw_bytes
}

/// The store key under which a descriptor's entry is kept.
pub open spec fn key_of(namespace: Seq<char>, index: IndexView) -> Seq<u8> {
    match index {
        IndexView::Exact { field_name, raw_bytes } => exact_key(namespace, field_name, raw_bytes),
        IndexView::Numeric { field_name, .. } => numeric_key(namespace, field_name),
    }
}

/// Appends a copy of `src` to `dst`.
pub fn append_bytes(dst: &mut Vec<u8>, src: &[u8])
    ensures
        final(dst)@ == old(dst)@ + src@,
{
    let mut i: usize = 0;
    while i < src.len()
        invariant
            i <= src@.len(),
            dst@ == old(dst)@ + src@.subrange(0, i as int),
        decreases src@.len() - i,
    {
        dst.push(src[i]);
        i = i + 1;
        assert(dst@ =~= old(dst)@ + src@.subrange(0, i as int));
    }
    assert(src@.subrange(0, i as int) =~= src@);
}

/// Computes the store key of a descriptor under a namespace.
pub fn index_key(namespace: &str, descriptor: &IndexDescriptor) -> (key: Vec<u8>)
    ensures
        key@ == key_of(namespace@, descriptor@),
{
    let mut key: Vec<u8> = Vec::new();
    append_bytes(&mut key, namespace.as_bytes());
    key.push(SEPARATOR);
    match descriptor {
        IndexDescriptor::Exact { field_name, raw_bytes } => {
            append_bytes(&mut key, field_name.as_bytes());
            key.push(SEPARATOR);
            append_bytes(&mut key, raw_bytes.as_slice());
            assert(key@ =~= exact_key(namespace@, field_name@, raw_bytes@));
        },
        IndexDescriptor::Numeric { field_name, .. } => {
            append_bytes(&mut key, field_name.as_bytes());
            assert(key@ =~= numeric_key(namespace@, field_name@));
        },
    }
    key
}

/// Two exact descriptors of one field with equal values have one key, and
/// the key of a numeric descriptor does not depend on its score.
pub proof fn lemma_index_key_deterministic(namespace: Seq<char>, first: IndexView, second: IndexView)
    ensures
        (first matches IndexView::Exact { field_name: f1, raw_bytes: r1 }
            && second matches IndexView::Exact { field_name: f2, raw_bytes: r2 } && f1 == f2 && r1
            == r2) ==> key_of(namespace, first) == key_of(namespace, second),
        (first matches IndexView::Numeric { field_name: f1, .. }
            && second matches IndexView::Numeric { field_name: f2, .. } && f1 == f2) ==> key_of(
            namespace,
            first,
        ) == key_of(namespace, second),
{
}

} // verus!
