use record_index::ident::RecordId;
use record_index::index::{index_key, IndexDescriptor};
use record_index::score::Score;
use record_index::transaction::{assemble, Command};

fn args_of(pipeline: &redis::Pipeline) -> Vec<Vec<Vec<u8>>> {
    let mut out = Vec::new();
    for cmd in pipeline.cmd_iter() {
        let mut args = Vec::new();
        for arg in cmd.args_iter() {
            match arg {
                redis::Arg::Simple(bytes) => args.push(bytes.to_vec()),
                _ => panic!("only plain arguments are queued"),
            }
        }
        out.push(args);
    }
    out
}

#[test]
fn andy_is_stored_with_both_indices() {
    let id = RecordId::from_bytes([7u8; 16]);
    let encoded = vec![0u8, 0, 0, 0, 0, 0, 0, 4, b'A', b'n', b'd', b'y', 0, 32];
    let indices = vec![
        IndexDescriptor::Exact { field_name: "name", raw_bytes: b"Andy".to_vec() },
        IndexDescriptor::Numeric { field_name: "age", score: Score::new(32).unwrap() },
    ];
    let tx = assemble("usr", &id, encoded.clone(), &indices);
    assert_eq!(
        tx.commands,
        vec![
            Command::SetField { map: b"usr".to_vec(), field: vec![7u8; 16], value: encoded.clone() },
            Command::AddMember { set: b"usr\nname\nAndy".to_vec(), member: vec![7u8; 16] },
            Command::AddScored {
                set: b"usr\nage".to_vec(),
                member: vec![7u8; 16],
                score: Score::new(32).unwrap(),
            },
        ]
    );
    let pipeline = tx.to_pipeline();
    assert!(pipeline.is_transaction());
    assert_eq!(
        args_of(&pipeline),
        vec![
            vec![b"HSET".to_vec(), b"usr".to_vec(), vec![7u8; 16], encoded],
            vec![b"SADD".to_vec(), b"usr\nname\nAndy".to_vec(), vec![7u8; 16]],
            vec![b"ZADD".to_vec(), b"usr\nage".to_vec(), b"32".to_vec(), vec![7u8; 16]],
        ]
    );
}

#[test]
fn index_keys_of_the_example() {
    let exact = IndexDescriptor::Exact { field_name: "name", raw_bytes: b"Andy".to_vec() };
    let numeric = IndexDescriptor::Numeric { field_name: "age", score: Score::from_u32(32) };
    assert_eq!(index_key("usr", &exact), b"usr\nname\nAndy".to_vec());
    assert_eq!(index_key("usr", &numeric), b"usr\nage".to_vec());
}
