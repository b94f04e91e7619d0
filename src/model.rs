//! The tournament aggregate and the records it is made of.
use vstd::prelude::*;
use crate::ids::{ObjectId, VoterId, VoterView};

verus! {

/// An entry of the bracket, frozen from the opponents catalog at creation.
#[derive(Clone, Debug, PartialEq)]
pub struct TournamentOpponent {
    pub opponent_id: ObjectId,
    pub url: String,
}

/// A participant entitled to vote.
#[derive(Clone, Debug, PartialEq)]
pub struct TournamentUser {
    pub voter_id: VoterId,
    pub name: String,
}

/// One pairing of a round, with the votes cast for each side.
#[derive(Clone, Debug, PartialEq)]
pub struct Match {
    pub match_id: String,
    pub opponent1: ObjectId,
    pub opponent2: ObjectId,
    pub opponent1_votes: Vec<VoterId>,
    pub opponent2_votes: Vec<VoterId>,
    pub winner: Option<ObjectId>,
    pub match_date: i64,
}

/// The pairings of one round, and the entrants that advance without a vote.
#[derive(Clone, Debug, PartialEq)]
pub struct Round {
    pub round_number: i32,
    pub matches: Vec<Match>,
    pub automatic_winners: Vec<ObjectId>,
}

#[derive(Clone, Copy, Debug, PartialEq, Eq, Structural)]
pub enum TournamentStatus {
    Active,
    Paused,
    Completed,
}

#[derive(Clone, Debug)]
pub struct Tournament {
    pub id: Option<ObjectId>,
    pub name: String,
    pub created_by: ObjectId,
    pub opponents: Vec<TournamentOpponent>,
    pub users: Vec<TournamentUser>,
    pub rounds: Vec<Round>,
    pub status: TournamentStatus,
    pub winner: Option<ObjectId>,
    pub created_at: i64,
    pub updated_at: i64,
}

/// A code that admits anonymous voters to one tournament, a bounded number of
/// times, until it expires.
#[derive(Clone, Debug)]
pub struct TournamentInvite {
    pub id: Option<ObjectId>,
    pub code: String,
    pub tournament_id: ObjectId,
    pub max_uses: u32,
    pub current_uses: u32,
    pub expires_at: i64,
    pub created_by: ObjectId,
    pub created_at: i64,
}

#[derive(Clone, Debug)]
pub struct OpponentDto {
    pub id: ObjectId,
    pub url: String,
}

#[derive(Clone, Debug)]
pub struct UserDto {
    pub id: ObjectId,
    pub name: String,
}

#[derive(Debug)]
pub struct CreateTournamentDto {
    pub name: String,
    pub opponents: Vec<OpponentDto>,
    pub users: Vec<UserDto>,
}

#[derive(Debug)]
pub struct UpdateTournamentDto {
    pub name: Option<String>,
}

#[derive(Debug)]
pub struct VoteMatchDto {
    pub tournament_id: ObjectId,
    pub match_id: String,
    pub voted_for: ObjectId,
}

#[derive(Debug)]
pub struct CreateInviteDto {
    pub max_uses: Option<u32>,
    pub expires_in_hours: Option<u32>,
}

#[derive(Debug)]
pub struct InviteResponse {
    pub code: String,
    pub tournament_id: ObjectId,
    pub max_uses: u32,
    pub expires_at: i64,
}

#[derive(Debug)]
pub struct JoinTournamentDto {
    pub invite_code: String,
    pub display_name: String,
}

#[derive(Debug)]
pub struct JoinTournamentResponse {
    pub access_token: String,
    pub token_type: String,
    pub session_id: String,
    pub display_name: String,
    pub tournament_id: ObjectId,
}

#[derive(Debug, PartialEq)]
pub struct TournamentUserResponse {
    pub voter_id: String,
    pub name: String,
}

/// The identities behind a list of votes.
pub open spec fn voters(v: Seq<VoterId>) -> Seq<VoterView> {
    v.map_values(|x: VoterId| x@)
}

impl Match {
    /// Whether `v` has already voted in this match, for either side.
    pub open spec fn has_voted(self, v: VoterView) -> bool {
        voters(self.opponent1_votes@).contains(v) || voters(self.opponent2_votes@).contains(v)
    }

    pub open spec fn total_votes(self) -> int {
        self.opponent1_votes.len() + self.opponent2_votes.len()
    }

    /// The side with more votes; the first opponent wins a tie.
    pub open spec fn leader(self) -> ObjectId {
        if self.opponent1_votes.len() >= self.opponent2_votes.len() {
            self.opponent1
        } else {
            self.opponent2
        }
    }
}

impl TournamentUser {
    /// The participant as the API renders it: the identity in text form.
    pub fn to_response(&self) -> (r: TournamentUserResponse)
        ensures
            r.voter_id@ == match self.voter_id@ {
                VoterView::Registered(id) => id.hex(),
                VoterView::Anonymous(s) => s,
            },
            r.name@ == self.name@,
    {
        TournamentUserResponse { voter_id: self.voter_id.as_string(), name: self.name.clone() }
    }
}

} // verus!
