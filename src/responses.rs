//! The tournament as the API renders it: identities in text form.
use vstd::prelude::*;
use crate::ids::{ObjectId, VoterId, VoterView};
use crate::model::{
    Match, Round, Tournament, TournamentOpponent, TournamentStatus, TournamentUser,
    TournamentUserResponse,
};

verus! {

/// The text form of an identity: the account id in hexadecimal, or the
/// session string.
pub open spec fn voter_text(v: VoterView) -> Seq<char> {
    match v {
        VoterView::Registered(id) => id.hex(),
        VoterView::Anonymous(s) => s,
    }
}

#[derive(Debug, PartialEq)]
pub struct TournamentOpponentResponse {
    pub opponent_id: ObjectId,
    pub url: String,
}

/// A match with each side's votes given as the voters' text forms.
#[derive(Debug, PartialEq)]
pub struct MatchResponse {
    pub match_id: String,
    pub opponent1: ObjectId,
    pub opponent2: ObjectId,
    pub votes: Vec<(ObjectId, Vec<String>)>,
    pub winner: Option<ObjectId>,
    pub match_date: i64,
}

#[derive(Debug, PartialEq)]
pub struct RoundResponse {
    pub round_number: i32,
    pub matches: Vec<MatchResponse>,
    pub automatic_winners: Vec<ObjectId>,
}

#[derive(Debug)]
pub struct TournamentResponse {
    pub id: ObjectId,
    pub name: String,
    pub created_by: ObjectId,
    pub opponents: Vec<TournamentOpponentResponse>,
    pub users: Vec<TournamentUserResponse>,
    pub rounds: Vec<RoundResponse>,
    pub status: TournamentStatus,
    pub winner: Option<ObjectId>,
    pub created_at: i64,
    pub updated_at: i64,
}

/// `texts` are the text forms of `votes`, in order.
pub open spec fn renders_votes(votes: Seq<VoterId>, texts: Seq<String>) -> bool {
    &&& texts.len() == votes.len()
    &&& forall|i: int| 0 <= i < texts.len() ==> (#[trigger] texts[i])@ == voter_text(votes[i]@)
}

pub open spec fn renders_match(m: Match, r: MatchResponse) -> bool {
    &&& r.match_id == m.match_id
    &&& r.opponent1 == m.opponent1
    &&& r.opponent2 == m.opponent2
    &&& r.votes@.len() == 2
    &&& r.votes@[0].0 == m.opponent1
    &&& renders_votes(m.opponent1_votes@, r.votes@[0].1@)
    &&& r.votes@[1].0 == m.opponent2
    &&& renders_votes(m.opponent2_votes@, r.votes@[1].1@)
    &&& r.winner == m.winner
    &&& r.match_date == m.match_date
}

pub open spec fn renders_round(round: Round, r: RoundResponse) -> bool {
    &&& r.round_number == round.round_number
    &&& r.matches@.len() == round.matches@.len()
    &&& forall|i: int|
        0 <= i < r.matches@.len() ==> renders_match(round.matches@[i], #[trigger] r.matches@[i])
    &&& r.automatic_winners@ == round.automatic_winners@
}

fn render_votes(votes: &Vec<VoterId>) -> (r: Vec<String>)
    ensures
        renders_votes(votes@, r@),
{
    let mut r: Vec<String> = Vec::new();
    let mut i: usize = 0;
    while i < votes.len()
        invariant
            i <= votes@.len(),
            r@.len() == i,
            forall|j: int| 0 <= j < i ==> (#[trigger] r@[j])@ == voter_text(votes@[j]@),
        decreases votes@.len() - i,
    {
        r.push(votes[i].as_string());
        i = i + 1;
    }
    r
}

fn copy_ids(ids: &Vec<ObjectId>) -> (r: Vec<ObjectId>)
    ensures
        r@ == ids@,
{
    let mut r: Vec<ObjectId> = Vec::new();
    let mut i: usize = 0;
    while i < ids.len()
        invariant
            i <= ids@.len(),
            r@ == ids@.subrange(0, i as int),
        decreases ids@.len() - i,
    {
        r.push(ids[i]);
        i = i + 1;
    }
    assert(ids@.subrange(0, ids@.len() as int) =~= ids@);
    r
}

impl MatchResponse {
    pub fn from_match(m: &Match) -> (r: MatchResponse)
        ensures
            renders_match(*m, r),
    {
        let mut votes: Vec<(ObjectId, Vec<String>)> = Vec::new();
        votes.push((m.opponent1, render_votes(&m.opponent1_votes)));
        votes.push((m.opponent2, render_votes(&m.opponent2_votes)));
        MatchResponse {
            match_id: m.match_id.clone(),
            opponent1: m.opponent1,
            opponent2: m.opponent2,
            votes,
            winner: m.winner,
            match_date: m.match_date,
        }
    }
}

impl RoundResponse {
    pub fn from_round(round: &Round) -> (r: RoundResponse)
        ensures
            renders_round(*round, r),
    {
        let mut matches: Vec<MatchResponse> = Vec::new();
        let mut i: usize = 0;
        while i < round.matches.len()
            invariant
                i <= round.matches@.len(),
                matches@.len() == i,
                forall|j: int|
                    0 <= j < i ==> renders_match(round.matches@[j], #[trigger] matches@[j]),
            decreases round.matches@.len() - i,
        {
            matches.push(MatchResponse::from_match(&round.matches[i]));
            i = i + 1;
        }
        RoundResponse {
            round_number: round.round_number,
            matches,
            automatic_winners: copy_ids(&round.automatic_winners),
        }
    }
}

impl TournamentResponse {
    /// The rendering of a stored tournament (one that has an id): every
    /// identity in text form, everything else as it is.
    pub fn from_tournament(t: &Tournament) -> (r: TournamentResponse)
        requires
            t.id is Some,
        ensures
            r.id == t.id->Some_0,
            r.name == t.name,
            r.created_by == t.created_by,
            r.opponents@.len() == t.opponents@.len(),
            forall|i: int|
                0 <= i < r.opponents@.len() ==> (#[trigger] r.opponents@[i]).opponent_id
                    == t.opponents@[i].opponent_id && r.opponents@[i].url == t.opponents@[i].url,
            r.users@.len() == t.users@.len(),
            forall|i: int|
                0 <= i < r.users@.len() ==> (#[trigger] r.users@[i]).voter_id@ == voter_text(
                    t.users@[i].voter_id@,
                ) && r.users@[i].name@ == t.users@[i].name@,
            r.rounds@.len() == t.rounds@.len(),
            forall|i: int| 0 <= i < r.rounds@.len() ==> renders_round(t.rounds@[i], #[trigger] r.rounds@[i]),
            r.status == t.status,
            r.winner == t.winner,
            r.created_at == t.created_at,
            r.updated_at == t.updated_at,
    {
        let mut opponents: Vec<TournamentOpponentResponse> = Vec::new();
        let mut i: usize = 0;
        while i < t.opponents.len()
            invariant
                i <= t.opponents@.len(),
                opponents@.len() == i,
                forall|j: int|
                    0 <= j < i ==> (#[trigger] opponents@[j]).opponent_id == t.opponents@[j].opponent_id
                        && opponents@[j].url == t.opponents@[j].url,
            decreases t.opponents@.len() - i,
        {
            let o: &TournamentOpponent = &t.opponents[i];
            opponents.push(TournamentOpponentResponse { opponent_id: o.opponent_id, url: o.url.clone() });
            i = i + 1;
        }
        let mut users: Vec<TournamentUserResponse> = Vec::new();
        let mut j: usize = 0;
        while j < t.users.len()
            invariant
                j <= t.users@.len(),
                users@.len() == j,
                forall|k: int|
                    0 <= k < j ==> (#[trigger] users@[k]).voter_id@ == voter_text(t.users@[k].voter_id@)
                        && users@[k].name@ == t.users@[k].name@,
            decreases t.users@.len() - j,
        {
            let u: &TournamentUser = &t.users[j];
            users.push(u.to_response());
            j = j + 1;
        }
        let mut rounds: Vec<RoundResponse> = Vec::new();
        let mut k: usize = 0;
        while k < t.rounds.len()
            invariant
                k <= t.rounds@.len(),
                rounds@.len() == k,
                forall|q: int| 0 <= q < k ==> renders_round(t.rounds@[q], #[trigger] rounds@[q]),
            decreases t.rounds@.len() - k,
        {
            rounds.push(RoundResponse::from_round(&t.rounds[k]));
            k = k + 1;
        }
        let id = match t.id {
            Some(id) => id,
            None => t.created_by,
        };
        TournamentResponse {
            id,
            name: t.name.clone(),
            created_by: t.created_by,
            opponents,
            users,
            rounds,
            status: t.status,
            winner: t.winner,
            created_at: t.created_at,
            updated_at: t.updated_at,
        }
    }
}

} // verus!
