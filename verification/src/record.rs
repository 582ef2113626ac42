//! Storable records and the store operation.
//!
//! Storing a record has a local part and a remote part. The local part,
//! `prepare`, encodes the record, draws its identifier and assembles the
//! transaction. The caller submits the transaction to the store and hands
//! the store's answer to `conclude`.

use vstd::prelude::*;
use crate::error::{DecodingError, EncodingError, IndexBuildError, StorageError};
use crate::ident::RecordId;
use crate::index::{IndexDescriptor, IndexView};
use crate::store_model::StoreState;
use crate::transaction::{assemble, CommandView, Transaction};

verus! {

/// What a record type supplies to be stored and indexed.
///
/// The four model functions say what the five methods do. Each has a default,
/// so that a type can supply the methods alone; a type whose methods are to
/// be verified overrides the model functions to fit them.
pub trait Indexable: Sized {
    /// The namespace of the type: the name of its primary map and the
    /// first part of all its index keys. By default the empty name.
    open spec fn namespace() -> Seq<char> {
        Seq::empty()
    }

    /// The bytes that stand for the record, or why it cannot be encoded. By
    /// default no bytes.
    open spec fn encoded(&self) -> Result<Seq<u8>, EncodingError> {
        Ok(Seq::empty())
    }

    /// The index entries the record asks for, or why they cannot be built.
    /// By default no entries.
    open spec fn indices(&self) -> Result<Seq<IndexView>, IndexBuildError> {
        Ok(Seq::empty())
    }

    /// Whether two records hold the same fields. By default, whether they
    /// are the same value.
    open spec fn same_record(&self, other: &Self) -> bool {
        self == other
    }

    /// The namespace of the type.
    fn storage_namespace() -> (name: &'static str)
        ensures
            name@ == Self::namespace(),
    ;

    /// Encodes the record.
    fn encode(&self) -> (out: Result<Vec<u8>, EncodingError>)
        ensures
            match out {
                Ok(bytes) => self.encoded() == Ok::<Seq<u8>, EncodingError>(bytes@),
                Err(error) => self.encoded() == Err::<Seq<u8>, EncodingError>(error),
            },
    ;

    /// Decodes a record. The encoding of a record decodes to a record with
    /// the same fields.
    fn decode(bytes: &[u8]) -> (out: Result<Self, DecodingError>)
        ensures
            forall|record: Self|
                #[trigger] record.encoded() == Ok::<Seq<u8>, EncodingError>(bytes@) ==> out is Ok
                    && out->Ok_0.same_record(&record),
    ;

    /// Lists the index entries of the record.
    fn build_indices(&self) -> (out: Result<Vec<IndexDescriptor>, IndexBuildError>)
        ensures
            match out {
                Ok(list) => self.indices() == Ok::<Seq<IndexView>, IndexBuildError>(
                    crate::index::descriptor_views(list@),
                ),
                Err(error) => self.indices() == Err::<Seq<IndexView>, IndexBuildError>(error),
            },
    ;

    /// Compares two records field by field.
    fn equals(&self, other: &Self) -> (same: bool)
        ensures
            same == self.same_record(other),
    ;
}

/// A store operation whose transaction is assembled and not yet submitted.
#[derive(Clone, Debug, PartialEq, Eq)]
pub struct PendingStore {
    /// The identifier the record will be known by.
    pub id: RecordId,
    /// The writes to submit as one unit.
    pub transaction: Transaction,
}

/// Whether a record can be stored: it can be encoded and its index entries
/// can be built.
pub open spec fn storable<R: Indexable>(record: &R) -> bool {
    record.encoded() is Ok && record.indices() is Ok
}

/// The transaction that stores a storable record under `id`.
pub open spec fn record_transaction<R: Indexable>(record: &R, id: Seq<u8>) -> Seq<CommandView> {
    crate::transaction::transaction_of(
        R::namespace(),
        id,
        record.encoded()->Ok_0,
        record.indices()->Ok_0,
    )
}

/// Assembles the transaction that stores `encoded` under `id` with the index
/// entries of `record`. Where an index entry cannot be built, there is no
/// transaction.
pub fn plan<R: Indexable>(record: &R, id: RecordId, encoded: Vec<u8>) -> (out: Result<
    PendingStore,
    StorageError,
>)
    ensures
        match out {
            Ok(pending) => {
                &&& record.indices() is Ok
                &&& pending.id == id
                &&& pending.transaction@ == crate::transaction::transaction_of(
                    R::namespace(),
                    id@,
                    encoded@,
                    record.indices()->Ok_0,
                )
            },
            Err(StorageError::Indexing(error)) => record.indices() == Err::<
                Seq<IndexView>,
                IndexBuildError,
            >(error),
            Err(_) => false,
        },
{
    match record.build_indices() {
        Ok(indices) => {
            let transaction = assemble(R::storage_namespace(), &id, encoded, &indices);
            Ok(PendingStore { id, transaction })
        },
        Err(error) => Err(StorageError::Indexing(error)),
    }
}

/// The local part of storing a record: encodes it, draws a fresh identifier
/// and assembles the transaction. Nothing is sent. It succeeds exactly where
/// the record is storable; encoding is tried first.
pub fn prepare<R: Indexable>(record: &R) -> (out: Result<PendingStore, StorageError>)
    ensures
        match out {
            Ok(pending) => {
                &&& storable(record)
                &&& crate::ident::is_random_layout(pending.id@)
                &&& pending.transaction@ == record_transaction(record, pending.id@)
            },
            Err(StorageError::Encoding(error)) => record.encoded() == Err::<
                Seq<u8>,
                EncodingError,
            >(error),
            Err(StorageError::Indexing(error)) => record.encoded() is Ok && record.indices()
                == Err::<Seq<IndexView>, IndexBuildError>(error),
            Err(StorageError::Backend(_)) => false,
        },
{
    match record.encode() {
        Ok(encoded) => {
            let id = RecordId::generate();
            plan(record, id, encoded)
        },
        Err(error) => Err(StorageError::Encoding(error)),
    }
}

/// The end of storing a record: the identifier where the store accepted the
/// transaction, the store's own words as a backend error where it did not.
pub fn conclude(pending: PendingStore, reply: Result<(), String>) -> (out: Result<
    RecordId,
    StorageError,
>)
    ensures
        match reply {
            Ok(_) => out == Ok::<RecordId, StorageError>(pending.id),
            Err(details) => out == Err::<RecordId, StorageError>(StorageError::Backend(details)),
        },
{
    match reply {
        Ok(_) => Ok(pending.id),
        Err(details) => Err(StorageError::Backend(details)),
    }
}

/// Whether `submit` was handed the transaction that stores `record` under
/// `id` and answered `reply`.
pub open spec fn submitted<R: Indexable, F: FnOnce(&Transaction) -> Result<(), String>>(
    record: &R,
    id: Seq<u8>,
    submit: F,
    reply: Result<(), String>,
) -> bool {
    exists|transaction: Transaction|
        transaction@ == record_transaction(record, id) && #[trigger] submit.ensures(
            (&transaction,),
            reply,
        )
}

/// Stores a record and returns the identifier it was given.
///
/// The record is encoded, a fresh identifier is drawn, and the index entries
/// are built; a failure of the first or the last ends the call before
/// `submit` is called. Then `submit` is handed the whole transaction, once.
/// Where it answers `Ok`, the identifier is returned; where it answers with
/// an error, that error comes back as a backend error.
pub fn store<R: Indexable, F: FnOnce(&Transaction) -> Result<(), String>>(
    record: &R,
    submit: F,
) -> (out: Result<RecordId, StorageError>)
    requires
        forall|transaction: &Transaction| submit.requires((transaction,)),
    ensures
        match out {
            Ok(id) => {
                &&& storable(record)
                &&& crate::ident::is_random_layout(id@)
                &&& submitted(record, id@, submit, Ok::<(), String>(()))
            },
            Err(StorageError::Encoding(error)) => record.encoded() == Err::<
                Seq<u8>,
                EncodingError,
            >(error),
            Err(StorageError::Indexing(error)) => record.encoded() is Ok && record.indices()
                == Err::<Seq<IndexView>, IndexBuildError>(error),
            Err(StorageError::Backend(details)) => {
                &&& storable(record)
                &&& exists|id: Seq<u8>|
                    crate::ident::is_random_layout(id) && #[trigger] submitted(
                        record,
                        id,
                        submit,
                        Err::<(), String>(details),
                    )
            },
        },
{
    match prepare(record) {
        Ok(pending) => {
            let ghost id = pending.id@;
            let reply = submit(&pending.transaction);
            proof {
                assert(submitted(record, id, submit, reply));
                if reply is Ok {
                    let unit = reply->Ok_0;
                    assert(unit == ());
                    assert(reply == Ok::<(), String>(()));
                }
            }
            let out = conclude(pending, reply);
            assert(out is Err ==> submitted(
                record,
                id,
                submit,
                Err::<(), String>(out->Err_0->Backend_0),
            ));
            out
        },
        Err(error) => Err(error),
    }
}

/// The store after `record` was stored under `id`: where the record is
/// storable, its transaction was submitted and the store answered
/// `accepted`; where it is not, nothing was submitted.
pub open spec fn store_outcome<R: Indexable>(
    before: StoreState,
    record: &R,
    id: Seq<u8>,
    accepted: bool,
) -> StoreState {
    if storable(record) {
        before.after_submission(record_transaction(record, id), accepted)
    } else {
        before
    }
}

/// Storing is all or nothing. After an accepted store the primary entry and
/// every index entry of the record can be seen, a numeric one with the score
/// of the descriptor that has the last word on it. After a refused store the
/// store is as it was.
pub proof fn lemma_store_is_atomic<R: Indexable>(before: StoreState, record: &R, id: Seq<u8>)
    requires
        storable(record),
    ensures
        ({
            let indices = record.indices()->Ok_0;
            let after = store_outcome(before, record, id, true);
            &&& after.holds_record(R::namespace(), id, record.encoded()->Ok_0)
            &&& forall|i: int|
                0 <= i < indices.len() ==> after.lists(R::namespace(), id, #[trigger] indices[i])
            &&& forall|i: int|
                0 <= i < indices.len() && crate::store_model::settles_score(
                    R::namespace(),
                    indices,
                    i,
                ) ==> after.holds_index(R::namespace(), id, #[trigger] indices[i])
        }),
        store_outcome(before, record, id, false) == before,
{
    crate::store_model::lemma_commit_is_complete(
        before,
        R::namespace(),
        id,
        record.encoded()->Ok_0,
        record.indices()->Ok_0,
    );
}

/// A record that cannot be encoded, or whose index entries cannot be built,
/// leaves the store as it was, whatever the store would have answered.
pub proof fn lemma_failure_stores_nothing<R: Indexable>(
    before: StoreState,
    record: &R,
    id: Seq<u8>,
    accepted: bool,
)
    requires
        record.encoded() is Err || record.indices() is Err,
    ensures
        store_outcome(before, record, id, accepted) == before,
{
}

} // verus!
