use vstd::prelude::*;

use crate::identity::Identity;

verus! {

/// Why a vote is refused.
#[derive(Clone, Copy, Debug, PartialEq, Eq, Structural)]
pub enum Errors {
    /// The admin tried to vote on a poll that does not let the admin vote.
    AdminCantVote,
    /// The poll is not accepting votes.
    PollIsClosed,
    /// The value is not one of the poll's accepted values.
    WrongValue,
    /// This identity has already voted on the poll.
    AlreadyVoted,
}

/// One poll: its configuration, its open/closed state, and the votes cast so far.
/// `votes[i]` was cast by `voters[i]`.
pub struct Poll {
    question: String,
    admin_can_vote: bool,
    active: bool,
    accepted_values: Vec<String>,
    votes: Vec<String>,
    voters: Vec<Identity>,
    admin: Identity,
}

/// The mathematical model of a poll.
pub ghost struct PollView {
    pub question: Seq<char>,
    pub admin_can_vote: bool,
    pub active: bool,
    pub accepted_values: Seq<Seq<char>>,
    pub votes: Seq<Seq<char>>,
    pub voters: Seq<Seq<u8>>,
    pub admin: Seq<u8>,
}

/// The texts of a sequence of strings.
pub open spec fn strings_view(v: Seq<String>) -> Seq<Seq<char>> {
    v.map_values(|s: String| s@)
}

/// The key bytes of a sequence of identities.
pub open spec fn identities_view(v: Seq<Identity>) -> Seq<Seq<u8>> {
    v.map_values(|u: Identity| u@)
}

impl View for Poll {
    type V = PollView;

    closed spec fn view(&self) -> PollView {
        PollView {
            question: self.question@,
            admin_can_vote: self.admin_can_vote,
            active: self.active,
            accepted_values: strings_view(self.accepted_values@),
            votes: strings_view(self.votes@),
            voters: identities_view(self.voters@),
            admin: self.admin@,
        }
    }
}

impl PollView {
    /// There is one voter for each vote.
    pub open spec fn parallel(self) -> bool {
        self.votes.len() == self.voters.len()
    }

    /// No identity appears twice among the voters.
    pub open spec fn voters_unique(self) -> bool {
        forall|i: int, j: int|
            0 <= i < self.voters.len() && 0 <= j < self.voters.len() && i != j
                ==> self.voters[i] != self.voters[j]
    }

    /// Every vote is one of the accepted values.
    pub open spec fn votes_accepted(self) -> bool {
        forall|i: int| 0 <= i < self.votes.len() ==> self.accepted_values.contains(#[trigger] self.votes[i])
    }

    /// The invariants that every poll reached from `start_poll` keeps.
    pub open spec fn wf(self) -> bool {
        self.parallel() && self.voters_unique() && self.votes_accepted()
    }

    /// The same poll with `active` set to `on`.
    pub open spec fn with_active(self, on: bool) -> PollView {
        PollView { active: on, ..self }
    }

    /// The first check that refuses a vote of `value` by `voter`, if any.
    pub open spec fn vote_check(self, value: Seq<char>, voter: Seq<u8>) -> Result<(), Errors> {
        if !self.active {
            Err(Errors::PollIsClosed)
        } else if !self.admin_can_vote && voter == self.admin {
            Err(Errors::AdminCantVote)
        } else if !self.accepted_values.contains(value) {
            Err(Errors::WrongValue)
        } else if self.voters.contains(voter) {
            Err(Errors::AlreadyVoted)
        } else {
            Ok(())
        }
    }

    /// The poll after a vote of `value` by `voter`: the vote is recorded when
    /// every check passes, and nothing changes otherwise.
    pub open spec fn after_vote(self, value: Seq<char>, voter: Seq<u8>) -> PollView {
        if self.vote_check(value, voter) is Ok {
            PollView { votes: self.votes.push(value), voters: self.voters.push(voter), ..self }
        } else {
            self
        }
    }
}

/// The poll that `start_poll` creates.
pub open spec fn created(
    question: Seq<char>,
    admin_can_vote: bool,
    active: bool,
    accepted_values: Seq<Seq<char>>,
    admin: Seq<u8>,
) -> PollView {
    PollView {
        question,
        admin_can_vote,
        active,
        accepted_values,
        votes: Seq::empty(),
        voters: Seq::empty(),
        admin,
    }
}

impl Poll {
    /// A poll with the given fields, as a storage layer holds them. It is
    /// well-formed where the fields are (`wf`), as any poll that this module's
    /// operations produced is.
    pub fn from_parts(
        question: String,
        admin_can_vote: bool,
        active: bool,
        accepted_values: Vec<String>,
        votes: Vec<String>,
        voters: Vec<Identity>,
        admin: Identity,
    ) -> (r: Poll)
        ensures
            r@ == (PollView {
                question: question@,
                admin_can_vote,
                active,
                accepted_values: strings_view(accepted_values@),
                votes: strings_view(votes@),
                voters: identities_view(voters@),
                admin: admin@,
            }),
    {
        Poll { question, admin_can_vote, active, accepted_values, votes, voters, admin }
    }

    pub fn question(&self) -> (r: &String)
        ensures
            r@ == self@.question,
    {
        &self.question
    }

    pub fn admin_can_vote(&self) -> (r: bool)
        ensures
            r == self@.admin_can_vote,
    {
        self.admin_can_vote
    }

    pub fn active(&self) -> (r: bool)
        ensures
            r == self@.active,
    {
        self.active
    }

    pub fn accepted_values(&self) -> (r: &Vec<String>)
        ensures
            strings_view(r@) == self@.accepted_values,
    {
        &self.accepted_values
    }

    pub fn votes(&self) -> (r: &Vec<String>)
        ensures
            strings_view(r@) == self@.votes,
    {
        &self.votes
    }

    pub fn voters(&self) -> (r: &Vec<Identity>)
        ensures
            identities_view(r@) == self@.voters,
    {
        &self.voters
    }

    pub fn admin(&self) -> (r: Identity)
        ensures
            r@ == self@.admin,
    {
        self.admin
    }
}

/// Creates a poll administered by `user`, with no votes yet.
pub fn start_poll(
    question: String,
    admin_can_vote: bool,
    active: bool,
    accepted_values: Vec<String>,
    user: Identity,
) -> (r: Poll)
    ensures
        r@ == created(question@, admin_can_vote, active, strings_view(accepted_values@), user@),
        r@.wf(),
{
    let r = Poll {
        question,
        admin_can_vote,
        active,
        accepted_values,
        votes: Vec::new(),
        voters: Vec::new(),
        admin: user,
    };
    assert(strings_view(r.votes@) =~= Seq::empty());
    assert(identities_view(r.voters@) =~= Seq::empty());
    r
}

/// Opens the poll for votes. Anyone may call it.
pub fn open_poll(poll: &mut Poll)
    ensures
        final(poll)@ == old(poll)@.with_active(true),
{
    poll.active = true;
}

/// Closes the poll to votes. Anyone may call it.
pub fn close_poll(poll: &mut Poll)
    ensures
        final(poll)@ == old(poll)@.with_active(false),
{
    poll.active = false;
}

/// Whether `value` is one of the strings of `values`.
fn contains_value(values: &Vec<String>, value: &String) -> (r: bool)
    ensures
        r == strings_view(values@).contains(value@),
{
    let mut i: usize = 0;
    while i < values.len()
        invariant
            0 <= i <= values.len(),
            forall|k: int| 0 <= k < i ==> values@[k]@ != value@,
        decreases values.len() - i,
    {
        if values[i] == *value {
            assert(strings_view(values@)[i as int] == value@);
            return true;
        }
        i = i + 1;
    }
    assert(!strings_view(values@).contains(value@)) by {
        if strings_view(values@).contains(value@) {
            let k = choose|k: int| 0 <= k < strings_view(values@).len() && strings_view(values@)[k] == value@;
            assert(values@[k]@ == value@);
        }
    }
    false
}

/// Whether `user` is one of the identities of `users`.
fn contains_identity(users: &Vec<Identity>, user: &Identity) -> (r: bool)
    ensures
        r == identities_view(users@).contains(user@),
{
    let mut i: usize = 0;
    while i < users.len()
        invariant
            0 <= i <= users.len(),
            forall|k: int| 0 <= k < i ==> users@[k]@ != user@,
        decreases users.len() - i,
    {
        if users[i].same_as(user) {
            assert(identities_view(users@)[i as int] == user@);
            return true;
        }
        i = i + 1;
    }
    assert(!identities_view(users@).contains(user@)) by {
        if identities_view(users@).contains(user@) {
            let k = choose|k: int| 0 <= k < identities_view(users@).len() && identities_view(users@)[k] == user@;
            assert(users@[k]@ == user@);
        }
    }
    false
}

/// Casts a vote of `value` by `user`. The checks run in this order, and the
/// first that fails decides the error: the poll is open; the admin votes only
/// where the poll allows it; the value is accepted; the user has not voted yet.
/// On success the vote and the voter are appended; on failure nothing changes.
pub fn vote(poll: &mut Poll, value: String, user: Identity) -> (r: Result<(), Errors>)
    ensures
        r == old(poll)@.vote_check(value@, user@),
        final(poll)@ == old(poll)@.after_vote(value@, user@),
        old(poll)@.wf() ==> final(poll)@.wf(),
{
    if !poll.active {
        return Err(Errors::PollIsClosed);
    }
    if !poll.admin_can_vote && poll.admin.same_as(&user) {
        return Err(Errors::AdminCantVote);
    }
    if !contains_value(&poll.accepted_values, &value) {
        return Err(Errors::WrongValue);
    }
    if contains_identity(&poll.voters, &user) {
        return Err(Errors::AlreadyVoted);
    }
    let ghost v = value@;
    poll.votes.push(value);
    poll.voters.push(user);
    assert(strings_view(poll.votes@) =~= old(poll)@.votes.push(v));
    assert(identities_view(poll.voters@) =~= old(poll)@.voters.push(user@));
    Ok(())
}

} // verus!
