//! The batch of writes that stores one record with its index entries.

use vstd::prelude::*;
use crate::ident::RecordId;
use crate::index::{append_bytes, index_key, IndexDescriptor, IndexView};
use crate::score::Score;

verus! {

/// One write of a transaction.
#[derive(Clone, Debug, PartialEq, Eq)]
pub enum Command {
    /// Sets a field of the hash map at `map`.
    SetField { map: Vec<u8>, field: Vec<u8>, value: Vec<u8> },
    /// Adds a member to the set at `set`.
    AddMember { set: Vec<u8>, member: Vec<u8> },
    /// Adds a member to the ordered set at `set`, or moves it to `score`.
    AddScored { set: Vec<u8>, member: Vec<u8>, score: Score },
}

/// What a command says, as plain mathematical values.
pub enum CommandView {
    SetField { map: Seq<u8>, field: Seq<u8>, value: Seq<u8> },
    AddMember { set: Seq<u8>, member: Seq<u8> },
    AddScored { set: Seq<u8>, member: Seq<u8>, score: int },
}

impl View for Command {
    type V = CommandView;

    open spec fn view(&self) -> CommandView {
        match *self {
            Command::SetField { map, field, value } => CommandView::SetField {
                map: map@,
                field: field@,
                value: value@,
            },
            Command::AddMember { set, member } => CommandView::AddMember {
                set: set@,
                member: member@,
            },
            Command::AddScored { set, member, score } => CommandView::AddScored {
                set: set@,
                member: member@,
                score: score@,
            },
        }
    }
}

/// The writes of one store operation, to be applied together or not at all.
#[derive(Clone, Debug, PartialEq, Eq)]
pub struct Transaction {
    pub commands: Vec<Command>,
}

impl View for Transaction {
    type V = Seq<CommandView>;

    open spec fn view(&self) -> Seq<CommandView> {
        Seq::new(self.commands@.len(), |i: int| self.commands@[i]@)
    }
}

/// The primary write: the encoded record under its identifier, in the hash
/// map named by the namespace.
pub open spec fn primary_command(namespace: Seq<char>, id: Seq<u8>, encoded: Seq<u8>) -> CommandView {
    CommandView::SetField { map: vstd::utf8::encode_utf8(namespace), field: id, value: encoded }
}

/// The write that one descriptor asks for.
pub open spec fn index_command(namespace: Seq<char>, id: Seq<u8>, index: IndexView) -> CommandView {
    match index {
        IndexView::Exact { .. } => CommandView::AddMember {
            set: crate::index::key_of(namespace, index),
            member: id,
        },
        IndexView::Numeric { score, .. } => CommandView::AddScored {
            set: crate::index::key_of(namespace, index),
            member: id,
            score,
        },
    }
}

/// The transaction of a record: the primary write, then one write for each
/// descriptor, in the order of the descriptors.
pub open spec fn transaction_of(
    namespace: Seq<char>,
    id: Seq<u8>,
    encoded: Seq<u8>,
    indices: Seq<IndexView>,
) -> Seq<CommandView> {
    seq![primary_command(namespace, id, encoded)] + Seq::new(
        indices.len(),
        |i: int| index_command(namespace, id, indices[i]),
    )
}

/// Builds the write that one descriptor asks for.
pub fn command_for(namespace: &str, id: &RecordId, descriptor: &IndexDescriptor) -> (command:
    Command)
    ensures
        command@ == index_command(namespace@, id@, descriptor@),
{
    let set = index_key(namespace, descriptor);
    let member = id.to_vec();
    match descriptor {
        IndexDescriptor::Exact { .. } => Command::AddMember { set, member },
        IndexDescriptor::Numeric { score, .. } => Command::AddScored { set, member, score: *score },
    }
}

/// Assembles the transaction that stores `encoded` under `id` and creates
/// every index entry of `indices`.
pub fn assemble(
    namespace: &str,
    id: &RecordId,
    encoded: Vec<u8>,
    indices: &Vec<IndexDescriptor>,
) -> (transaction: Transaction)
    ensures
        transaction@ == transaction_of(
            namespace@,
            id@,
            encoded@,
            crate::index::descriptor_views(indices@),
        ),
{
    let mut map: Vec<u8> = Vec::new();
    append_bytes(&mut map, namespace.as_bytes());
    let mut commands: Vec<Command> = Vec::new();
    commands.push(Command::SetField { map, field: id.to_vec(), value: encoded });
    let mut i: usize = 0;
    while i < indices.len()
        invariant
            i <= indices@.len(),
            commands@.len() == i + 1,
            commands@[0]@ == primary_command(namespace@, id@, encoded@),
            forall|j: int|
                0 <= j < i ==> (#[trigger] commands@[j + 1])@ == index_command(
                    namespace@,
                    id@,
                    indices@[j]@,
                ),
        decreases indices@.len() - i,
    {
        let command = command_for(namespace, id, &indices[i]);
        commands.push(command);
        i = i + 1;
    }
    let transaction = Transaction { commands };
    assert(transaction@ =~= transaction_of(
        namespace@,
        id@,
        encoded@,
        crate::index::descriptor_views(indices@),
    )) by {
        let expected = transaction_of(
            namespace@,
            id@,
            encoded@,
            crate::index::descriptor_views(indices@),
        );
        assert(transaction@.len() == expected.len());
        assert forall|k: int| 0 <= k < expected.len() implies transaction@[k] == expected[k] by {
            if k > 0 {
                assert(transaction.commands@[(k - 1) + 1]@ == index_command(
                    namespace@,
                    id@,
                    indices@[k - 1]@,
                ));
            }
        }
    }
    transaction
}

} // verus!
