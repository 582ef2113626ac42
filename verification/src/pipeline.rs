//! Transactions as pipelines of the store's client.

use vstd::prelude::*;
use crate::transaction::{Command, CommandView, Transaction};

verus! {

/// A pipeline of the store's client: the commands queued so far and the mode
/// they will be sent in.
#[verifier::external_type_specification]
#[verifier::external_body]
pub struct ExPipeline(redis::Pipeline);

/// The commands queued in a pipeline, each as the list of its arguments, the
/// command word first.
pub uninterp spec fn queued(pipeline: redis::Pipeline) -> Seq<Seq<Seq<u8>>>;

/// Whether a pipeline is sent as one all-or-nothing unit.
pub uninterp spec fn atomic_mode(pipeline: redis::Pipeline) -> bool;

/// The word `HSET`.
pub open spec fn hset_word() -> Seq<u8> {
    seq![72u8, 83u8, 69u8, 84u8]
}

/// The word `SADD`.
pub open spec fn sadd_word() -> Seq<u8> {
    seq![83u8, 65u8, 68u8, 68u8]
}

/// The word `ZADD`.
pub open spec fn zadd_word() -> Seq<u8> {
    seq![90u8, 65u8, 68u8, 68u8]
}

/// The arguments a command is queued with. An ordered-set write carries its
/// score as decimal text, before the member.
pub open spec fn wire_form(command: CommandView) -> Seq<Seq<u8>> {
    match command {
        CommandView::SetField { map, field, value } => seq![hset_word(), map, field, value],
        CommandView::AddMember { set, member } => seq![sadd_word(), set, member],
        CommandView::AddScored { set, member, score } => seq![
            zadd_word(),
            set,
            crate::score::decimal_text(score),
            member,
        ],
    }
}

/// The queue that holds a whole transaction.
pub open spec fn wire_forms(commands: Seq<CommandView>) -> Seq<Seq<Seq<u8>>> {
    Seq::new(commands.len(), |i: int| wire_form(commands[i]))
}

/// Calls `redis::Pipeline::new`: a pipeline with nothing queued, not atomic.
#[verifier::external_body]
fn empty_pipeline() -> (pipeline: redis::Pipeline)
    ensures
        queued(pipeline) == Seq::<Seq<Seq<u8>>>::empty(),
        !atomic_mode(pipeline),
{
    redis::Pipeline::new()
}

/// Calls `redis::Pipeline::atomic`: switches the pipeline to atomic mode and
/// leaves its queue as it is.
#[verifier::external_body]
fn make_atomic(pipeline: &mut redis::Pipeline)
    ensures
        atomic_mode(*final(pipeline)),
        queued(*final(pipeline)) == queued(*old(pipeline)),
{
    pipeline.atomic();
}

/// Calls `redis::Pipeline::hset`: queues `HSET key field value` behind what
/// is queued, each byte string as one argument, and leaves the mode.
#[verifier::external_body]
fn queue_hset(pipeline: &mut redis::Pipeline, key: &[u8], field: &[u8], value: &[u8])
    ensures
        queued(*final(pipeline)) == queued(*old(pipeline)).push(
            seq![hset_word(), key@, field@, value@],
        ),
        atomic_mode(*final(pipeline)) == atomic_mode(*old(pipeline)),
{
    pipeline.hset(key, field, value);
}

/// Calls `redis::Pipeline::sadd`: queues `SADD key member` behind what is
/// queued, each byte string as one argument, and leaves the mode.
#[verifier::external_body]
fn queue_sadd(pipeline: &mut redis::Pipeline, key: &[u8], member: &[u8])
    ensures
        queued(*final(pipeline)) == queued(*old(pipeline)).push(
            seq![sadd_word(), key@, member@],
        ),
        atomic_mode(*final(pipeline)) == atomic_mode(*old(pipeline)),
{
    pipeline.sadd(key, member);
}

/// Calls `redis::Pipeline::zadd`: queues `ZADD key score member` behind what
/// is queued and leaves the mode. The client writes an integer score as its
/// decimal text.
#[verifier::external_body]
fn queue_zadd(pipeline: &mut redis::Pipeline, key: &[u8], member: &[u8], score: i64)
    ensures
        queued(*final(pipeline)) == queued(*old(pipeline)).push(
            seq![zadd_word(), key@, crate::score::decimal_text(score as int), member@],
        ),
        atomic_mode(*final(pipeline)) == atomic_mode(*old(pipeline)),
{
    pipeline.zadd(key, member, score);
}

/// Queues one command of a transaction.
fn queue_command(pipeline: &mut redis::Pipeline, command: &Command)
    ensures
        queued(*final(pipeline)) == queued(*old(pipeline)).push(wire_form(command@)),
        atomic_mode(*final(pipeline)) == atomic_mode(*old(pipeline)),
{
    match command {
        Command::SetField { map, field, value } => {
            queue_hset(pipeline, map.as_slice(), field.as_slice(), value.as_slice());
        },
        Command::AddMember { set, member } => {
            queue_sadd(pipeline, set.as_slice(), member.as_slice());
        },
        Command::AddScored { set, member, score } => {
            queue_zadd(pipeline, set.as_slice(), member.as_slice(), score.value());
        },
    }
}

impl Transaction {
    /// The atomic pipeline that holds the commands of this transaction, in
    /// their order and nothing else.
    pub fn to_pipeline(&self) -> (pipeline: redis::Pipeline)
        ensures
            atomic_mode(pipeline),
            queued(pipeline) == wire_forms(self@),
    {
        let mut pipeline = empty_pipeline();
        make_atomic(&mut pipeline);
        let mut i: usize = 0;
        while i < self.commands.len()
            invariant
                i <= self.commands@.len(),
                atomic_mode(pipeline),
                queued(pipeline) == wire_forms(self@.subrange(0, i as int)),
            decreases self.commands@.len() - i,
        {
            queue_command(&mut pipeline, &self.commands[i]);
            i = i + 1;
            assert(queued(pipeline) =~= wire_forms(self@.subrange(0, i as int)));
        }
        assert(self@.subrange(0, i as int) =~= self@);
        pipeline
    }
}

} // verus!
