use vstd::prelude::*;

use crate::poll::{created, PollView};

verus! {

/// One operation on an existing poll, as `open_poll`, `close_poll` and `vote`
/// perform it.
pub ghost enum Operation {
    Open,
    Close,
    Vote { value: Seq<char>, voter: Seq<u8> },
}

/// The poll after one operation (a refused vote leaves it as it was).
pub open spec fn step(p: PollView, op: Operation) -> PollView {
    match op {
        Operation::Open => p.with_active(true),
        Operation::Close => p.with_active(false),
        Operation::Vote { value, voter } => p.after_vote(value, voter),
    }
}

/// The poll after the operations `ops`, in order.
pub open spec fn run(p: PollView, ops: Seq<Operation>) -> PollView
    decreases ops.len(),
{
    if ops.len() == 0 {
        p
    } else {
        step(run(p, ops.drop_last()), ops.last())
    }
}

proof fn lemma_step_keeps(p: PollView, op: Operation)
    requires
        p.wf(),
    ensures
        step(p, op).wf(),
        step(p, op).admin == p.admin,
        step(p, op).accepted_values == p.accepted_values,
{
}

proof fn lemma_run_keeps(p: PollView, ops: Seq<Operation>)
    requires
        p.wf(),
    ensures
        run(p, ops).wf(),
        run(p, ops).admin == p.admin,
        run(p, ops).accepted_values == p.accepted_values,
    decreases ops.len(),
{
    if ops.len() > 0 {
        lemma_run_keeps(p, ops.drop_last());
        lemma_step_keeps(run(p, ops.drop_last()), ops.last());
    }
}

/// Whatever operations follow the creation of a poll, no identity appears
/// twice among its voters.
pub proof fn lemma_voters_unique(
    question: Seq<char>,
    admin_can_vote: bool,
    active: bool,
    accepted_values: Seq<Seq<char>>,
    admin: Seq<u8>,
    ops: Seq<Operation>,
)
    ensures
        run(created(question, admin_can_vote, active, accepted_values, admin), ops).voters_unique(),
{
    lemma_run_keeps(created(question, admin_can_vote, active, accepted_values, admin), ops);
}

/// Whatever operations follow the creation of a poll, it holds as many votes
/// as voters.
pub proof fn lemma_votes_parallel(
    question: Seq<char>,
    admin_can_vote: bool,
    active: bool,
    accepted_values: Seq<Seq<char>>,
    admin: Seq<u8>,
    ops: Seq<Operation>,
)
    ensures
        run(created(question, admin_can_vote, active, accepted_values, admin), ops).votes.len()
            == run(created(question, admin_can_vote, active, accepted_values, admin), ops).voters.len(),
{
    lemma_run_keeps(created(question, admin_can_vote, active, accepted_values, admin), ops);
}

/// Whatever operations follow the creation of a poll, every vote is one of the
/// values accepted at creation.
pub proof fn lemma_votes_accepted(
    question: Seq<char>,
    admin_can_vote: bool,
    active: bool,
    accepted_values: Seq<Seq<char>>,
    admin: Seq<u8>,
    ops: Seq<Operation>,
)
    ensures
        forall|i: int|
            0 <= i < run(created(question, admin_can_vote, active, accepted_values, admin), ops).votes.len()
                ==> accepted_values.contains(
                #[trigger] run(created(question, admin_can_vote, active, accepted_values, admin), ops).votes[i],
            ),
{
    lemma_run_keeps(created(question, admin_can_vote, active, accepted_values, admin), ops);
}

/// Whatever operations follow the creation of a poll, its admin is the
/// identity that created it.
pub proof fn lemma_admin_unchanged(
    question: Seq<char>,
    admin_can_vote: bool,
    active: bool,
    accepted_values: Seq<Seq<char>>,
    admin: Seq<u8>,
    ops: Seq<Operation>,
)
    ensures
        run(created(question, admin_can_vote, active, accepted_values, admin), ops).admin == admin,
{
    lemma_run_keeps(created(question, admin_can_vote, active, accepted_values, admin), ops);
}

/// Opening a poll twice leaves it as opening it once does.
pub proof fn lemma_open_idempotent(p: PollView)
    ensures
        step(step(p, Operation::Open), Operation::Open) == step(p, Operation::Open),
        step(step(p, Operation::Open), Operation::Open).active == step(p, Operation::Open).active,
{
}

/// Closing a poll twice leaves it as closing it once does.
pub proof fn lemma_close_idempotent(p: PollView)
    ensures
        step(step(p, Operation::Close), Operation::Close) == step(p, Operation::Close),
        step(step(p, Operation::Close), Operation::Close).active == step(p, Operation::Close).active,
{
}

/// A refused vote leaves the votes and the voters as they were.
pub proof fn lemma_refused_vote_unchanged(p: PollView, value: Seq<char>, voter: Seq<u8>)
    requires
        p.vote_check(value, voter) is Err,
    ensures
        p.after_vote(value, voter).votes == p.votes,
        p.after_vote(value, voter).voters == p.voters,
{
}

} // verus!
