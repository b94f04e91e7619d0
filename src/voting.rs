//! Applying one vote to one match.
use vstd::prelude::*;
use vstd::string::StringExecFns;
use crate::ids::{ObjectId, VoterId};
use crate::model::{voters, Match, TournamentUser};

verus! {

#[derive(Clone, Copy, Debug, PartialEq, Eq, Structural)]
pub enum VoteError {
    /// The voter already has a vote in this match.
    AlreadyVoted,
    /// The vote names neither side of the match.
    InvalidOpponent,
}

impl VoteError {
    pub open spec fn text(self) -> Seq<char> {
        match self {
            VoteError::AlreadyVoted => "User has already voted"@,
            VoteError::InvalidOpponent => "Invalid opponent"@,
        }
    }

    pub fn message(&self) -> (r: String)
        ensures
            r@ == self.text(),
    {
        match self {
            VoteError::AlreadyVoted => String::from_str("User has already voted"),
            VoteError::InvalidOpponent => String::from_str("Invalid opponent"),
        }
    }
}

/// Whether `v` is among the identities of `list`.
pub fn contains_voter(list: &Vec<VoterId>, v: &VoterId) -> (r: bool)
    ensures
        r == voters(list@).contains(v@),
{
    let mut i: usize = 0;
    while i < list.len()
        invariant
            i <= list@.len(),
            forall|j: int| 0 <= j < i ==> list@[j]@ != v@,
        decreases list@.len() - i,
    {
        if list[i] == *v {
            assert(voters(list@)[i as int] == v@);
            return true;
        }
        i = i + 1;
    }
    assert forall|j: int| 0 <= j < voters(list@).len() implies voters(list@)[j] != v@ by {
        assert(list@[j]@ != v@);
    }
    false
}

/// What applying `voter`'s vote for `voted_for` to `old` does, in a tournament
/// of `participants` voters: `new` is the match afterwards and `r` the result.
pub open spec fn vote_outcome(
    old: Match,
    new: Match,
    voter: VoterId,
    voted_for: ObjectId,
    participants: int,
    r: Result<Option<ObjectId>, VoteError>,
) -> bool {
    if old.has_voted(voter@) {
        r == Err::<Option<ObjectId>, VoteError>(VoteError::AlreadyVoted) && new == old
    } else if voted_for != old.opponent1 && voted_for != old.opponent2 {
        r == Err::<Option<ObjectId>, VoteError>(VoteError::InvalidOpponent) && new == old
    } else {
        &&& new.match_id == old.match_id
        &&& new.opponent1 == old.opponent1
        &&& new.opponent2 == old.opponent2
        &&& new.match_date == old.match_date
        &&& new.opponent1_votes@ == if voted_for == old.opponent1 {
            old.opponent1_votes@.push(voter)
        } else {
            old.opponent1_votes@
        }
        &&& new.opponent2_votes@ == if voted_for == old.opponent1 {
            old.opponent2_votes@
        } else {
            old.opponent2_votes@.push(voter)
        }
        &&& if new.total_votes() == participants {
            &&& r == Ok::<Option<ObjectId>, VoteError>(Some(new.leader()))
            &&& new.winner == Some(new.leader())
        } else {
            &&& r == Ok::<Option<ObjectId>, VoteError>(None)
            &&& new.winner == old.winner
        }
    }
}

impl Match {
    /// Records `voter_id`'s vote for `voted_for`. Once as many votes have been
    /// cast as there are participants, the side with more votes becomes the
    /// winner (the first opponent on a tie) and is returned.
    pub fn process_vote(
        &mut self,
        voter_id: VoterId,
        voted_for: ObjectId,
        all_users: &[TournamentUser],
    ) -> (r: Result<Option<ObjectId>, VoteError>)
        ensures
            vote_outcome(*old(self), *final(self), voter_id, voted_for, all_users@.len() as int, r),
    {
        if contains_voter(&self.opponent1_votes, &voter_id) || contains_voter(
            &self.opponent2_votes,
            &voter_id,
        ) {
            return Err(VoteError::AlreadyVoted);
        }
        if voted_for != self.opponent1 && voted_for != self.opponent2 {
            return Err(VoteError::InvalidOpponent);
        }
        if voted_for == self.opponent1 {
            self.opponent1_votes.push(voter_id);
        } else {
            self.opponent2_votes.push(voter_id);
        }
        let votes_1: usize = self.opponent1_votes.len();
        let votes_2: usize = self.opponent2_votes.len();
        let needed: usize = all_users.len();
        if votes_2 <= needed && votes_1 == needed - votes_2 {
            let winner = if votes_1 >= votes_2 {
                self.opponent1
            } else {
                self.opponent2
            };
            self.winner = Some(winner);
            Ok(Some(winner))
        } else {
            Ok(None)
        }
    }
}

} // verus!
