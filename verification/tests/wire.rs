use record_index::ident::RecordId;
use record_index::score::{Score, SCORE_LIMIT};
use record_index::transaction::{Command, Transaction};

fn args_of(pipeline: &redis::Pipeline) -> Vec<Vec<Vec<u8>>> {
    let mut out = Vec::new();
    for cmd in pipeline.cmd_iter() {
        let mut args = Vec::new();
        for arg in cmd.args_iter() {
            match arg {
                redis::Arg::Simple(bytes) => args.push(bytes.to_vec()),
                _ => panic!("only plain arguments are queued"),
            }
        }
        out.push(args);
    }
    out
}

fn scored(score: i64) -> Transaction {
    Transaction {
        commands: vec![Command::AddScored {
            set: b"k".to_vec(),
            member: b"m".to_vec(),
            score: Score::new(score).unwrap(),
        }],
    }
}

#[test]
fn empty_transaction_is_an_empty_atomic_pipeline() {
    let pipeline = Transaction { commands: Vec::new() }.to_pipeline();
    assert!(pipeline.is_transaction());
    assert!(pipeline.is_empty());
    assert_eq!(pipeline.get_packed_pipeline(), b"*1\r\n$5\r\nMULTI\r\n*1\r\n$4\r\nEXEC\r\n".to_vec());
}

#[test]
fn set_field_is_queued_as_hset() {
    let tx = Transaction {
        commands: vec![Command::SetField {
            map: b"usr".to_vec(),
            field: vec![0, 1, 2],
            value: vec![255, 10, 13],
        }],
    };
    assert_eq!(
        args_of(&tx.to_pipeline()),
        vec![vec![b"HSET".to_vec(), b"usr".to_vec(), vec![0, 1, 2], vec![255, 10, 13]]]
    );
}

#[test]
fn add_member_is_queued_as_sadd() {
    let tx = Transaction {
        commands: vec![Command::AddMember { set: b"usr\nname\nAndy".to_vec(), member: vec![7; 16] }],
    };
    assert_eq!(
        args_of(&tx.to_pipeline()),
        vec![vec![b"SADD".to_vec(), b"usr\nname\nAndy".to_vec(), vec![7; 16]]]
    );
}

#[test]
fn empty_byte_strings_are_arguments_of_their_own() {
    let tx = Transaction {
        commands: vec![
            Command::SetField { map: Vec::new(), field: Vec::new(), value: Vec::new() },
            Command::AddMember { set: Vec::new(), member: Vec::new() },
        ],
    };
    assert_eq!(
        args_of(&tx.to_pipeline()),
        vec![
            vec![b"HSET".to_vec(), Vec::new(), Vec::new(), Vec::new()],
            vec![b"SADD".to_vec(), Vec::new(), Vec::new()],
        ]
    );
}

#[test]
fn add_scored_is_queued_as_zadd_with_the_score_before_the_member() {
    assert_eq!(
        args_of(&scored(32).to_pipeline()),
        vec![vec![b"ZADD".to_vec(), b"k".to_vec(), b"32".to_vec(), b"m".to_vec()]]
    );
}

#[test]
fn scores_are_written_in_decimal() {
    let cases: Vec<(i64, &str)> = vec![
        (0, "0"),
        (7, "7"),
        (10, "10"),
        (-1, "-1"),
        (-120, "-120"),
        (SCORE_LIMIT, "9007199254740992"),
        (-SCORE_LIMIT, "-9007199254740992"),
    ];
    for (score, text) in cases {
        assert_eq!(args_of(&scored(score).to_pipeline())[0][2], text.as_bytes().to_vec());
    }
}

#[test]
fn written_scores_read_back_as_the_same_double() {
    for score in [0i64, 32, -5, SCORE_LIMIT, -SCORE_LIMIT, SCORE_LIMIT - 1] {
        let text = args_of(&scored(score).to_pipeline())[0][2].clone();
        let read: f64 = String::from_utf8(text).unwrap().parse().unwrap();
        assert_eq!(read, score as f64);
        assert_eq!(read as i64, score);
    }
}

#[test]
fn commands_are_queued_in_order_between_multi_and_exec() {
    let id = RecordId::from_bytes([b'i'; 16]);
    let tx = Transaction {
        commands: vec![
            Command::SetField { map: b"u".to_vec(), field: id.to_vec(), value: b"v".to_vec() },
            Command::AddScored { set: b"z".to_vec(), member: id.to_vec(), score: Score::from_u32(5) },
        ],
    };
    let pipeline = tx.to_pipeline();
    assert_eq!(pipeline.len(), 2);
    let mut expected = Vec::new();
    expected.extend_from_slice(b"*1\r\n$5\r\nMULTI\r\n");
    expected.extend_from_slice(b"*4\r\n$4\r\nHSET\r\n$1\r\nu\r\n$16\r\niiiiiiiiiiiiiiii\r\n$1\r\nv\r\n");
    expected.extend_from_slice(b"*4\r\n$4\r\nZADD\r\n$1\r\nz\r\n$1\r\n5\r\n$16\r\niiiiiiiiiiiiiiii\r\n");
    expected.extend_from_slice(b"*1\r\n$4\r\nEXEC\r\n");
    assert_eq!(pipeline.get_packed_pipeline(), expected);
}
