//! A mathematical model of the store, and what a committed transaction
//! leaves in it.
//!
//! The store keeps hash maps, sets and ordered sets, each kind under keys of
//! its own. A transaction is applied as a whole or not at all.

use vstd::prelude::*;
use crate::index::IndexView;
use crate::transaction::CommandView;

verus! {

/// The contents of the store.
pub struct StoreState {
    /// The hash maps: key, then field, then value.
    pub maps: Map<Seq<u8>, Map<Seq<u8>, Seq<u8>>>,
    /// The membership sets.
    pub sets: Map<Seq<u8>, Set<Seq<u8>>>,
    /// The ordered sets: key, then member, then score.
    pub ordered: Map<Seq<u8>, Map<Seq<u8>, int>>,
}

impl StoreState {
    /// The hash map at `key`; an absent one is empty.
    pub open spec fn map_at(self, key: Seq<u8>) -> Map<Seq<u8>, Seq<u8>> {
        if self.maps.contains_key(key) {
            self.maps[key]
        } else {
            Map::empty()
        }
    }

    /// The set at `key`; an absent one is empty.
    pub open spec fn set_at(self, key: Seq<u8>) -> Set<Seq<u8>> {
        if self.sets.contains_key(key) {
            self.sets[key]
        } else {
            Set::empty()
        }
    }

    /// The ordered set at `key`, as the score of each member; an absent one
    /// is empty.
    pub open spec fn ordered_at(self, key: Seq<u8>) -> Map<Seq<u8>, int> {
        if self.ordered.contains_key(key) {
            self.ordered[key]
        } else {
            Map::empty()
        }
    }

    /// The store after one command.
    pub open spec fn apply(self, command: CommandView) -> StoreState {
        match command {
            CommandView::SetField { map, field, value } => StoreState {
                maps: self.maps.insert(map, self.map_at(map).insert(field, value)),
                ..self
            },
            CommandView::AddMember { set, member } => StoreState {
                sets: self.sets.insert(set, self.set_at(set).insert(member)),
                ..self
            },
            CommandView::AddScored { set, member, score } => StoreState {
                ordered: self.ordered.insert(set, self.ordered_at(set).insert(member, score)),
                ..self
            },
        }
    }

    /// The store after all commands of a transaction, applied in order.
    pub open spec fn commit(self, commands: Seq<CommandView>) -> StoreState
        decreases commands.len(),
    {
        if commands.len() == 0 {
            self
        } else {
            self.commit(commands.drop_last()).apply(commands.last())
        }
    }

    /// The store after a transaction was submitted: all of it where the
    /// store accepted it, nothing of it where the store refused.
    pub open spec fn after_submission(self, commands: Seq<CommandView>, accepted: bool) -> StoreState {
        if accepted {
            self.commit(commands)
        } else {
            self
        }
    }

    /// Whether the primary map of a namespace holds `encoded` under `id`.
    pub open spec fn holds_record(self, namespace: Seq<char>, id: Seq<u8>, encoded: Seq<u8>) -> bool {
        let map = self.map_at(vstd::utf8::encode_utf8(namespace));
        map.contains_key(id) && map[id] == encoded
    }

    /// Whether the index that a descriptor names lists `id`.
    pub open spec fn lists(self, namespace: Seq<char>, id: Seq<u8>, index: IndexView) -> bool {
        let key = crate::index::key_of(namespace, index);
        match index {
            IndexView::Exact { .. } => self.set_at(key).contains(id),
            IndexView::Numeric { .. } => self.ordered_at(key).contains_key(id),
        }
    }

    /// Whether the index that a descriptor names holds exactly its entry for
    /// `id`: membership for an exact one, membership with the descriptor's
    /// score for a numeric one.
    pub open spec fn holds_index(self, namespace: Seq<char>, id: Seq<u8>, index: IndexView) -> bool {
        let key = crate::index::key_of(namespace, index);
        match index {
            IndexView::Exact { .. } => self.set_at(key).contains(id),
            IndexView::Numeric { score, .. } => self.ordered_at(key).contains_key(id)
                && self.ordered_at(key)[id] == score,
        }
    }

    /// Whether the ordered set at `key` lists `first` before `second` on
    /// account of a lower score. Members of equal score are ordered as the
    /// store sees fit.
    pub open spec fn lists_before(self, key: Seq<u8>, first: Seq<u8>, second: Seq<u8>) -> bool {
        let scores = self.ordered_at(key);
        scores.contains_key(first) && scores.contains_key(second) && scores[first] < scores[second]
    }
}

/// Whether the descriptor at `i` has the last word on its score: every later
/// numeric descriptor of the same key carries the same score.
pub open spec fn settles_score(namespace: Seq<char>, indices: Seq<IndexView>, i: int) -> bool {
    forall|j: int|
        i < j < indices.len() && (#[trigger] indices[j]) is Numeric && crate::index::key_of(
            namespace,
            indices[j],
        ) == crate::index::key_of(namespace, indices[i]) ==> indices[j]->score
            == indices[i]->score
}

/// Whether every entry of `before` is still in `after`, but for the entries
/// of `id`, which may have changed.
pub open spec fn keeps_others(before: StoreState, after: StoreState, id: Seq<u8>) -> bool {
    &&& forall|key: Seq<u8>, field: Seq<u8>|
        field != id && #[trigger] before.map_at(key).contains_key(field) ==> after.map_at(
            key,
        ).contains_key(field) && after.map_at(key)[field] == before.map_at(key)[field]
    &&& forall|key: Seq<u8>, member: Seq<u8>| #[trigger]
        before.set_at(key).contains(member) ==> after.set_at(key).contains(member)
    &&& forall|key: Seq<u8>, member: Seq<u8>|
        member != id && #[trigger] before.ordered_at(key).contains_key(member) ==> after.ordered_at(
            key,
        ).contains_key(member) && after.ordered_at(key)[member] == before.ordered_at(key)[member]
}

/// The transaction of the first `n + 1` descriptors is that of the first `n`
/// with the command of descriptor `n` behind it.
proof fn lemma_transaction_grows(
    namespace: Seq<char>,
    id: Seq<u8>,
    encoded: Seq<u8>,
    indices: Seq<IndexView>,
    n: int,
)
    requires
        0 <= n < indices.len(),
    ensures
        crate::transaction::transaction_of(namespace, id, encoded, indices.take(n + 1))
            == crate::transaction::transaction_of(namespace, id, encoded, indices.take(n)).push(
            crate::transaction::index_command(namespace, id, indices[n]),
        ),
{
    let longer = crate::transaction::transaction_of(namespace, id, encoded, indices.take(n + 1));
    let shorter = crate::transaction::transaction_of(namespace, id, encoded, indices.take(n)).push(
        crate::transaction::index_command(namespace, id, indices[n]),
    );
    assert(longer.len() == shorter.len());
    assert forall|k: int| 0 <= k < longer.len() implies longer[k] == shorter[k] by {
        if 0 < k {
            assert(indices.take(n + 1)[k - 1] == indices[k - 1]);
            if k - 1 < n {
                assert(indices.take(n)[k - 1] == indices[k - 1]);
            }
        }
    }
    assert(longer =~= shorter);
}

/// What holds of the store after the primary write and the first `n` index
/// writes of a record.
spec fn complete_up_to(
    after: StoreState,
    namespace: Seq<char>,
    id: Seq<u8>,
    encoded: Seq<u8>,
    indices: Seq<IndexView>,
    n: int,
) -> bool {
    &&& after.holds_record(namespace, id, encoded)
    &&& forall|i: int|
        0 <= i < n ==> after.lists(namespace, id, #[trigger] indices[i]) && (settles_score(
            namespace,
            indices.take(n),
            i,
        ) ==> after.holds_index(namespace, id, indices[i]))
}

/// Committing the primary write and the first `n` index writes of a record
/// leaves the store complete up to `n`, and keeps what it held for others.
proof fn lemma_commit_prefix(
    before: StoreState,
    namespace: Seq<char>,
    id: Seq<u8>,
    encoded: Seq<u8>,
    indices: Seq<IndexView>,
    n: int,
)
    requires
        0 <= n <= indices.len(),
    ensures
        complete_up_to(
            before.commit(
                crate::transaction::transaction_of(namespace, id, encoded, indices.take(n)),
            ),
            namespace,
            id,
            encoded,
            indices,
            n,
        ),
        keeps_others(
            before,
            before.commit(
                crate::transaction::transaction_of(namespace, id, encoded, indices.take(n)),
            ),
            id,
        ),
    decreases n,
{
    let commands = crate::transaction::transaction_of(namespace, id, encoded, indices.take(n));
    if n == 0 {
        assert(commands.drop_last() =~= Seq::<CommandView>::empty());
        assert(before.commit(commands.drop_last()) == before);
    } else {
        lemma_commit_prefix(before, namespace, id, encoded, indices, n - 1);
        lemma_transaction_grows(namespace, id, encoded, indices, n - 1);
        let shorter = crate::transaction::transaction_of(
            namespace,
            id,
            encoded,
            indices.take(n - 1),
        );
        let command = crate::transaction::index_command(namespace, id, indices[n - 1]);
        assert(commands.drop_last() =~= shorter);
        let middle = before.commit(shorter);
        let after = before.commit(commands);
        assert(after == middle.apply(command));
        assert(keeps_others(middle, after, id));
        assert forall|i: int| 0 <= i < n implies after.lists(
            namespace,
            id,
            #[trigger] indices[i],
        ) && (settles_score(namespace, indices.take(n), i) ==> after.holds_index(
            namespace,
            id,
            indices[i],
        )) by {
            if i < n - 1 {
                assert(middle.lists(namespace, id, indices[i]));
                if settles_score(namespace, indices.take(n), i) {
                    assert(indices.take(n)[n - 1] == indices[n - 1]);
                    assert(settles_score(namespace, indices.take(n - 1), i)) by {
                        assert forall|j: int|
                            i < j < indices.take(n - 1).len() && (#[trigger] indices.take(
                                n - 1,
                            )[j]) is Numeric && crate::index::key_of(
                                namespace,
                                indices.take(n - 1)[j],
                            ) == crate::index::key_of(
                                namespace,
                                indices.take(n - 1)[i],
                            ) implies indices.take(n - 1)[j]->score == indices.take(
                            n - 1,
                        )[i]->score by {
                            assert(indices.take(n)[j] == indices.take(n - 1)[j]);
                        }
                    }
                }
            }
        }
    }
}

/// After a transaction is committed, the record is in its primary map and
/// every index that its descriptors name lists it; a numeric index holds the
/// score of the descriptor that has the last word on it.
pub proof fn lemma_commit_is_complete(
    before: StoreState,
    namespace: Seq<char>,
    id: Seq<u8>,
    encoded: Seq<u8>,
    indices: Seq<IndexView>,
)
    ensures
        ({
            let after = before.commit(
                crate::transaction::transaction_of(namespace, id, encoded, indices),
            );
            &&& after.holds_record(namespace, id, encoded)
            &&& forall|i: int|
                0 <= i < indices.len() ==> after.lists(namespace, id, #[trigger] indices[i])
            &&& forall|i: int|
                0 <= i < indices.len() && settles_score(namespace, indices, i)
                    ==> after.holds_index(namespace, id, #[trigger] indices[i])
        }),
{
    lemma_commit_prefix(before, namespace, id, encoded, indices, indices.len() as int);
    assert(indices.take(indices.len() as int) =~= indices);
}

/// Committing the transaction of one record leaves what the store held for
/// other records: their primary entries, every set member, and the scores of
/// other members.
pub proof fn lemma_commit_keeps_others(
    before: StoreState,
    namespace: Seq<char>,
    id: Seq<u8>,
    encoded: Seq<u8>,
    indices: Seq<IndexView>,
)
    ensures
        keeps_others(
            before,
            before.commit(crate::transaction::transaction_of(namespace, id, encoded, indices)),
            id,
        ),
{
    lemma_commit_prefix(before, namespace, id, encoded, indices, indices.len() as int);
    assert(indices.take(indices.len() as int) =~= indices);
}

/// A refused transaction leaves the store as it was: no primary entry and no
/// index entry of it can be seen.
pub proof fn lemma_refusal_changes_nothing(before: StoreState, commands: Seq<CommandView>)
    ensures
        before.after_submission(commands, false) == before,
{
}

/// Two records of one namespace whose exact descriptors name the same field
/// with equal bytes have one index key, and once both are stored the set at
/// that key lists both identifiers.
pub proof fn lemma_equal_values_share_a_set(
    before: StoreState,
    namespace: Seq<char>,
    first_id: Seq<u8>,
    first_encoded: Seq<u8>,
    first_indices: Seq<IndexView>,
    i: int,
    second_id: Seq<u8>,
    second_encoded: Seq<u8>,
    second_indices: Seq<IndexView>,
    j: int,
)
    requires
        0 <= i < first_indices.len(),
        0 <= j < second_indices.len(),
        first_indices[i] is Exact,
        second_indices[j] is Exact,
        first_indices[i]->Exact_field_name == second_indices[j]->Exact_field_name,
        first_indices[i]->raw_bytes == second_indices[j]->raw_bytes,
    ensures
        crate::index::key_of(namespace, first_indices[i]) == crate::index::key_of(
            namespace,
            second_indices[j],
        ),
        ({
            let after = before.commit(
                crate::transaction::transaction_of(
                    namespace,
                    first_id,
                    first_encoded,
                    first_indices,
                ),
            ).commit(
                crate::transaction::transaction_of(
                    namespace,
                    second_id,
                    second_encoded,
                    second_indices,
                ),
            );
            let set = after.set_at(crate::index::key_of(namespace, first_indices[i]));
            set.contains(first_id) && set.contains(second_id)
        }),
{
    let middle = before.commit(
        crate::transaction::transaction_of(namespace, first_id, first_encoded, first_indices),
    );
    let after = middle.commit(
        crate::transaction::transaction_of(namespace, second_id, second_encoded, second_indices),
    );
    lemma_commit_is_complete(before, namespace, first_id, first_encoded, first_indices);
    lemma_commit_is_complete(middle, namespace, second_id, second_encoded, second_indices);
    lemma_commit_keeps_others(middle, namespace, second_id, second_encoded, second_indices);
    let key = crate::index::key_of(namespace, first_indices[i]);
    assert(middle.lists(namespace, first_id, first_indices[i]));
    assert(middle.set_at(key).contains(first_id));
    assert(after.lists(namespace, second_id, second_indices[j]));
}

/// Two records with different identifiers whose numeric descriptors name the
/// same field, the first with the lower score: once both are stored, the
/// ordered set of that field holds each under its score and lists the first
/// before the second.
pub proof fn lemma_lower_score_is_listed_first(
    before: StoreState,
    namespace: Seq<char>,
    first_id: Seq<u8>,
    first_encoded: Seq<u8>,
    first_indices: Seq<IndexView>,
    i: int,
    second_id: Seq<u8>,
    second_encoded: Seq<u8>,
    second_indices: Seq<IndexView>,
    j: int,
)
    requires
        first_id != second_id,
        0 <= i < first_indices.len(),
        0 <= j < second_indices.len(),
        first_indices[i] is Numeric,
        second_indices[j] is Numeric,
        first_indices[i]->Numeric_field_name == second_indices[j]->Numeric_field_name,
        settles_score(namespace, first_indices, i),
        settles_score(namespace, second_indices, j),
        first_indices[i]->score < second_indices[j]->score,
    ensures
        ({
            let after = before.commit(
                crate::transaction::transaction_of(
                    namespace,
                    first_id,
                    first_encoded,
                    first_indices,
                ),
            ).commit(
                crate::transaction::transaction_of(
                    namespace,
                    second_id,
                    second_encoded,
                    second_indices,
                ),
            );
            let key = crate::index::key_of(namespace, first_indices[i]);
            &&& key == crate::index::key_of(namespace, second_indices[j])
            &&& after.ordered_at(key)[first_id] == first_indices[i]->score
            &&& after.ordered_at(key)[second_id] == second_indices[j]->score
            &&& after.lists_before(key, first_id, second_id)
        }),
{
    let middle = before.commit(
        crate::transaction::transaction_of(namespace, first_id, first_encoded, first_indices),
    );
    let after = middle.commit(
        crate::transaction::transaction_of(namespace, second_id, second_encoded, second_indices),
    );
    lemma_commit_is_complete(before, namespace, first_id, first_encoded, first_indices);
    lemma_commit_is_complete(middle, namespace, second_id, second_encoded, second_indices);
    lemma_commit_keeps_others(middle, namespace, second_id, second_encoded, second_indices);
    let key = crate::index::key_of(namespace, first_indices[i]);
    assert(middle.holds_index(namespace, first_id, first_indices[i]));
    assert(middle.ordered_at(key).contains_key(first_id));
    assert(after.holds_index(namespace, second_id, second_indices[j]));
}

} // verus!
