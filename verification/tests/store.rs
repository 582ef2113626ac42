use record_index::error::{DecodingError, EncodingError, IndexBuildError, StorageError};
use record_index::ident::RecordId;
use record_index::index::IndexDescriptor;
use record_index::record::{conclude, plan, prepare, Indexable, PendingStore};
use record_index::score::{Score, SCORE_LIMIT};
use record_index::transaction::{Command, Transaction};
use record_index::user::User;

/// A record of one numeric field, which may be too large to index, and a
/// flag that makes it refuse to be encoded.
#[derive(Clone, Debug, PartialEq, Eq)]
struct Reading {
    value: i64,
    broken: bool,
}

impl Indexable for Reading {
    fn storage_namespace() -> &'static str {
        "reading"
    }

    fn encode(&self) -> Result<Vec<u8>, EncodingError> {
        if self.broken {
            Err(EncodingError::SizeLimit)
        } else {
            Ok(self.value.to_be_bytes().to_vec())
        }
    }

    fn decode(bytes: &[u8]) -> Result<Self, DecodingError> {
        if bytes.len() < 8 {
            return Err(DecodingError::Io);
        }
        let mut raw = [0u8; 8];
        raw.copy_from_slice(&bytes[..8]);
        Ok(Reading { value: i64::from_be_bytes(raw), broken: false })
    }

    fn build_indices(&self) -> Result<Vec<IndexDescriptor>, IndexBuildError> {
        let score = Score::new(self.value)?;
        Ok(vec![IndexDescriptor::Numeric { field_name: "value", score }])
    }

    fn equals(&self, other: &Self) -> bool {
        self == other
    }
}

fn andy() -> User {
    User { name: "Andy".to_string(), age: 32 }
}

#[test]
fn user_namespace_is_usr() {
    assert_eq!(User::storage_namespace(), "usr");
}

#[test]
fn user_indices_are_name_and_age() {
    assert_eq!(
        andy().build_indices(),
        Ok(vec![
            IndexDescriptor::Exact { field_name: "name", raw_bytes: b"Andy".to_vec() },
            IndexDescriptor::Numeric { field_name: "age", score: Score::new(32).unwrap() },
        ])
    );
}

#[test]
fn plan_assembles_the_whole_transaction() {
    let id = RecordId::from_bytes([9u8; 16]);
    let encoded = andy().encode().unwrap();
    let pending = plan(&andy(), id, encoded.clone()).unwrap();
    assert_eq!(pending.id, id);
    assert_eq!(
        pending.transaction.commands,
        vec![
            Command::SetField { map: b"usr".to_vec(), field: vec![9u8; 16], value: encoded },
            Command::AddMember { set: b"usr\nname\nAndy".to_vec(), member: vec![9u8; 16] },
            Command::AddScored {
                set: b"usr\nage".to_vec(),
                member: vec![9u8; 16],
                score: Score::from_u32(32),
            },
        ]
    );
}

#[test]
fn prepare_uses_the_encoding_and_a_fresh_id() {
    let pending = prepare(&andy()).unwrap();
    let id = pending.id.to_vec();
    assert_eq!(pending.transaction.commands.len(), 3);
    assert_eq!(
        pending.transaction.commands[0],
        Command::SetField {
            map: b"usr".to_vec(),
            field: id.clone(),
            value: vec![0u8, 0, 0, 0, 0, 0, 0, 4, b'A', b'n', b'd', b'y', 0, 32],
        }
    );
    assert_eq!(
        pending.transaction.commands[1],
        Command::AddMember { set: b"usr\nname\nAndy".to_vec(), member: id.clone() }
    );
    assert_eq!(
        pending.transaction.commands[2],
        Command::AddScored { set: b"usr\nage".to_vec(), member: id, score: Score::from_u32(32) }
    );
}

#[test]
fn prepare_draws_a_new_id_each_time() {
    let first = prepare(&andy()).unwrap();
    let second = prepare(&andy()).unwrap();
    assert_ne!(first.id, second.id);
}

#[test]
fn prepare_reports_a_record_that_cannot_be_encoded() {
    let reading = Reading { value: 1, broken: true };
    assert_eq!(prepare(&reading), Err(StorageError::Encoding(EncodingError::SizeLimit)));
}

#[test]
fn prepare_reports_an_index_that_cannot_be_built() {
    let reading = Reading { value: SCORE_LIMIT + 1, broken: false };
    assert_eq!(
        prepare(&reading),
        Err(StorageError::Indexing(IndexBuildError::ScoreOutOfRange))
    );
}

#[test]
fn encoding_is_tried_before_indexing() {
    let reading = Reading { value: SCORE_LIMIT + 1, broken: true };
    assert_eq!(prepare(&reading), Err(StorageError::Encoding(EncodingError::SizeLimit)));
}

#[test]
fn plan_without_indices_reports_the_failure() {
    let reading = Reading { value: -SCORE_LIMIT - 1, broken: false };
    let id = RecordId::from_bytes([1u8; 16]);
    assert_eq!(
        plan(&reading, id, vec![1, 2, 3]),
        Err(StorageError::Indexing(IndexBuildError::ScoreOutOfRange))
    );
}

#[test]
fn prepare_of_a_custom_record() {
    let reading = Reading { value: -40, broken: false };
    let pending = prepare(&reading).unwrap();
    let id = pending.id.to_vec();
    assert_eq!(
        pending.transaction.commands,
        vec![
            Command::SetField {
                map: b"reading".to_vec(),
                field: id.clone(),
                value: vec![0xFF, 0xFF, 0xFF, 0xFF, 0xFF, 0xFF, 0xFF, 0xD8],
            },
            Command::AddScored {
                set: b"reading\nvalue".to_vec(),
                member: id,
                score: Score::new(-40).unwrap(),
            },
        ]
    );
}

#[test]
fn conclude_returns_the_id_of_an_accepted_store() {
    let id = RecordId::from_bytes([3u8; 16]);
    let pending = PendingStore { id, transaction: Transaction { commands: Vec::new() } };
    assert_eq!(conclude(pending, Ok(())), Ok(id));
}

#[test]
fn conclude_passes_on_what_the_store_said() {
    let id = RecordId::from_bytes([3u8; 16]);
    let pending = PendingStore { id, transaction: Transaction { commands: Vec::new() } };
    assert_eq!(
        conclude(pending, Err("connection refused".to_string())),
        Err(StorageError::Backend("connection refused".to_string()))
    );
}

#[test]
fn errors_describe_themselves() {
    assert_eq!(EncodingError::Io.describe(), "the writer refused the encoded bytes");
    assert_eq!(EncodingError::SizeLimit.describe(), "the encoded record exceeds the size limit");
    assert_eq!(
        IndexBuildError::ScoreOutOfRange.describe(),
        "a numeric field is outside the exact score range"
    );
}
