//! The tournament lifecycle: creation, vote intake with round advancement,
//! and pausing.
use vstd::prelude::*;
use vstd::string::StringExecFns;
use crate::bracket::{
    is_fresh, create_initial_round, create_next_round, get_round_winners, is_round_complete, opponent_ids,
    pairs, round_complete, round_winners,
};
use crate::ids::{ObjectId, VoterId, VoterView};
use crate::model::{
    voters, CreateTournamentDto, Match, OpponentDto, Round, Tournament, TournamentOpponent,
    TournamentStatus, TournamentUser, UserDto,
};
use crate::runtime::now_millis;
use crate::text::{blank, is_blank};
use crate::voting::{contains_voter, vote_outcome, VoteError};

verus! {

#[derive(Clone, Copy, Debug, PartialEq, Eq, Structural)]
pub enum TournamentError {
    EmptyName,
    TooFewOpponents,
    NoUsers,
    NotFound,
    NotParticipant,
    MatchNotFound,
    AlreadyVoted,
    InvalidOpponent,
    NotActive,
    NotOwner,
    AlreadyCompleted,
    NotPaused,
    EmptyDisplayName,
    InvalidInviteCode,
    InviteTournamentMismatch,
    InviteExpired,
    InviteExhausted,
}

impl TournamentError {
    pub open spec fn text(self) -> Seq<char> {
        match self {
            TournamentError::EmptyName => "Tournament name cannot be empty"@,
            TournamentError::TooFewOpponents => "Tournament must have at least 2 opponents"@,
            TournamentError::NoUsers => "Tournament must have at least 1 user"@,
            TournamentError::NotFound => "Tournament not found"@,
            TournamentError::NotParticipant => "Voter is not a participant in this tournament"@,
            TournamentError::MatchNotFound => "Match not found"@,
            TournamentError::AlreadyVoted => "User has already voted"@,
            TournamentError::InvalidOpponent => "Invalid opponent"@,
            TournamentError::NotActive => "Tournament is not active"@,
            TournamentError::NotOwner => "Only the tournament owner can do this"@,
            TournamentError::AlreadyCompleted => "Tournament is already completed"@,
            TournamentError::NotPaused => "Tournament is not paused"@,
            TournamentError::EmptyDisplayName => "Display name cannot be empty"@,
            TournamentError::InvalidInviteCode => "Invalid invite code"@,
            TournamentError::InviteTournamentMismatch => "Invite code does not match tournament"@,
            TournamentError::InviteExpired => "Invite code has expired"@,
            TournamentError::InviteExhausted => "Invite code has reached maximum uses"@,
        }
    }

    pub fn message(&self) -> (r: String)
        ensures
            r@ == self.text(),
    {
        match self {
            TournamentError::EmptyName => String::from_str("Tournament name cannot be empty"),
            TournamentError::TooFewOpponents => String::from_str(
                "Tournament must have at least 2 opponents",
            ),
            TournamentError::NoUsers => String::from_str("Tournament must have at least 1 user"),
            TournamentError::NotFound => String::from_str("Tournament not found"),
            TournamentError::NotParticipant => String::from_str(
                "Voter is not a participant in this tournament",
            ),
            TournamentError::MatchNotFound => String::from_str("Match not found"),
            TournamentError::AlreadyVoted => String::from_str("User has already voted"),
            TournamentError::InvalidOpponent => String::from_str("Invalid opponent"),
            TournamentError::NotActive => String::from_str("Tournament is not active"),
            TournamentError::NotOwner => String::from_str("Only the tournament owner can do this"),
            TournamentError::AlreadyCompleted => String::from_str("Tournament is already completed"),
            TournamentError::NotPaused => String::from_str("Tournament is not paused"),
            TournamentError::EmptyDisplayName => String::from_str("Display name cannot be empty"),
            TournamentError::InvalidInviteCode => String::from_str("Invalid invite code"),
            TournamentError::InviteTournamentMismatch => String::from_str(
                "Invite code does not match tournament",
            ),
            TournamentError::InviteExpired => String::from_str("Invite code has expired"),
            TournamentError::InviteExhausted => String::from_str(
                "Invite code has reached maximum uses",
            ),
        }
    }

    pub open spec fn from_vote(e: VoteError) -> TournamentError {
        match e {
            VoteError::AlreadyVoted => TournamentError::AlreadyVoted,
            VoteError::InvalidOpponent => TournamentError::InvalidOpponent,
        }
    }
}

fn vote_error(e: VoteError) -> (r: TournamentError)
    ensures
        r == TournamentError::from_vote(e),
{
    match e {
        VoteError::AlreadyVoted => TournamentError::AlreadyVoted,
        VoteError::InvalidOpponent => TournamentError::InvalidOpponent,
    }
}

/// Match `k` is the first of `ms` with identifier `id`.
pub open spec fn first_match(ms: Seq<Match>, id: Seq<char>, k: int) -> bool {
    &&& 0 <= k < ms.len()
    &&& ms[k].match_id@ == id
    &&& forall|j: int| 0 <= j < k ==> (#[trigger] ms[j]).match_id@ != id
}

pub open spec fn has_match(ms: Seq<Match>, id: Seq<char>) -> bool {
    exists|k: int| 0 <= k < ms.len() && (#[trigger] ms[k]).match_id@ == id
}

/// Where a vote for match `id` lands: the first match with that identifier.
pub open spec fn match_position(ms: Seq<Match>, id: Seq<char>) -> int {
    choose|k: int| first_match(ms, id, k)
}

/// The registered participants that a tournament starts with.
pub open spec fn initial_users(users: Seq<UserDto>, t: Seq<TournamentUser>) -> bool {
    &&& t.len() == users.len()
    &&& forall|i: int|
        0 <= i < t.len() ==> {
            &&& (#[trigger] t[i]).voter_id@ == VoterView::Registered(users[i].id)
            &&& t[i].name@ == users[i].name@
        }
}

/// The opponents a tournament freezes from the catalog.
pub open spec fn initial_opponents(
    opponents: Seq<OpponentDto>,
    t: Seq<TournamentOpponent>,
) -> bool {
    &&& t.len() == opponents.len()
    &&& forall|i: int|
        0 <= i < t.len() ==> {
            &&& (#[trigger] t[i]).opponent_id == opponents[i].id
            &&& t[i].url@ == opponents[i].url@
        }
}

/// The parts of a tournament that voting never changes.
pub open spec fn same_setup(a: Tournament, b: Tournament) -> bool {
    &&& a.id == b.id
    &&& a.name == b.name
    &&& a.created_by == b.created_by
    &&& a.opponents == b.opponents
    &&& a.users == b.users
    &&& a.created_at == b.created_at
}

impl Tournament {
    /// A tournament as the engine keeps it: at least two opponents, a
    /// current round, and a winner exactly when it is completed.
    pub open spec fn wf(self) -> bool {
        &&& self.opponents@.len() >= 2
        &&& self.rounds@.len() >= 1
        &&& (self.winner is Some <==> self.status == TournamentStatus::Completed)
        &&& self.votes_by_participants()
    }

    /// Every vote in `m` was cast by a participant.
    pub open spec fn participants_voted(self, m: Match) -> bool {
        &&& forall|x: VoterView| voters(m.opponent1_votes@).contains(x) ==> self.is_participant(x)
        &&& forall|x: VoterView| voters(m.opponent2_votes@).contains(x) ==> self.is_participant(x)
    }

    /// Every vote of every round was cast by a participant.
    pub open spec fn votes_by_participants(self) -> bool {
        forall|i: int, j: int|
            0 <= i < self.rounds@.len() && 0 <= j < self.rounds@[i].matches@.len()
                ==> self.participants_voted(#[trigger] self.rounds@[i].matches@[j])
    }

    /// The round that accepts votes: the last one.
    pub open spec fn current(self) -> Round {
        self.rounds@.last()
    }

    pub open spec fn is_participant(self, v: VoterView) -> bool {
        exists|i: int| 0 <= i < self.users@.len() && (#[trigger] self.users@[i]).voter_id@ == v
    }

    /// A new active tournament with `initial_round` as its first round; every
    /// user joins as a registered voter.
    pub fn new(
        name: String,
        created_by: ObjectId,
        opponents: Vec<OpponentDto>,
        users: Vec<UserDto>,
        initial_round: Round,
    ) -> (r: Tournament)
        ensures
            r.id is None,
            r.name == name,
            r.created_by == created_by,
            initial_opponents(opponents@, r.opponents@),
            initial_users(users@, r.users@),
            r.rounds@ == seq![initial_round],
            r.status == TournamentStatus::Active,
            r.winner is None,
            r.created_at == r.updated_at,
    {
        let now: i64 = now_millis();
        let mut tournament_opponents: Vec<TournamentOpponent> = Vec::new();
        let mut i: usize = 0;
        while i < opponents.len()
            invariant
                i <= opponents@.len(),
                initial_opponents(opponents@.subrange(0, i as int), tournament_opponents@),
            decreases opponents@.len() - i,
        {
            let o = &opponents[i];
            tournament_opponents.push(TournamentOpponent { opponent_id: o.id, url: o.url.clone() });
            i = i + 1;
        }
        assert(opponents@.subrange(0, opponents@.len() as int) =~= opponents@);
        let mut tournament_users: Vec<TournamentUser> = Vec::new();
        let mut j: usize = 0;
        while j < users.len()
            invariant
                j <= users@.len(),
                initial_users(users@.subrange(0, j as int), tournament_users@),
            decreases users@.len() - j,
        {
            let u = &users[j];
            tournament_users.push(
                TournamentUser { voter_id: VoterId::Registered(u.id), name: u.name.clone() },
            );
            j = j + 1;
        }
        assert(users@.subrange(0, users@.len() as int) =~= users@);
        let mut rounds: Vec<Round> = Vec::new();
        rounds.push(initial_round);
        Tournament {
            id: None,
            name,
            created_by,
            opponents: tournament_opponents,
            users: tournament_users,
            rounds,
            status: TournamentStatus::Active,
            winner: None,
            created_at: now,
            updated_at: now,
        }
    }

    /// Whether `voter` is among the participants.
    pub fn has_participant(&self, voter: &VoterId) -> (r: bool)
        ensures
            r == self.is_participant(voter@),
    {
        let mut i: usize = 0;
        while i < self.users.len()
            invariant
                i <= self.users@.len(),
                forall|j: int| 0 <= j < i ==> (#[trigger] self.users@[j]).voter_id@ != voter@,
            decreases self.users@.len() - i,
        {
            if self.users[i].voter_id == *voter {
                return true;
            }
            i = i + 1;
        }
        false
    }
}

/// Validates `dto` and builds the tournament, with round one paired in the
/// order of `dto.opponents`.
pub fn create_tournament(dto: CreateTournamentDto, created_by: ObjectId) -> (r: Result<
    Tournament,
    TournamentError,
>)
    ensures
        is_blank(dto.name@) ==> r == Err::<Tournament, TournamentError>(TournamentError::EmptyName),
        !is_blank(dto.name@) && dto.opponents@.len() < 2 ==> r == Err::<
            Tournament,
            TournamentError,
        >(TournamentError::TooFewOpponents),
        !is_blank(dto.name@) && dto.opponents@.len() >= 2 && dto.users@.len() == 0 ==> r == Err::<
            Tournament,
            TournamentError,
        >(TournamentError::NoUsers),
        r matches Ok(t) ==> {
            &&& !is_blank(dto.name@)
            &&& t.wf()
            &&& t.id is None
            &&& t.name == dto.name
            &&& t.created_by == created_by
            &&& initial_opponents(dto.opponents@, t.opponents@)
            &&& initial_users(dto.users@, t.users@)
            &&& t.users@.len() >= 1
            &&& t.rounds@.len() == 1
            &&& pairs(t.rounds@[0], opponent_ids(t.opponents@))
            &&& t.rounds@[0].round_number == 1
            &&& t.status == TournamentStatus::Active
        },
        !is_blank(dto.name@) && dto.opponents@.len() >= 2 && dto.users@.len() >= 1 ==> r is Ok,
{
    if blank(dto.name.as_str()) {
        return Err(TournamentError::EmptyName);
    }
    if dto.opponents.len() < 2 {
        return Err(TournamentError::TooFewOpponents);
    }
    if dto.users.len() == 0 {
        return Err(TournamentError::NoUsers);
    }
    let CreateTournamentDto { name, opponents, users } = dto;
    let mut frozen: Vec<TournamentOpponent> = Vec::new();
    let mut i: usize = 0;
    while i < opponents.len()
        invariant
            i <= opponents@.len(),
            initial_opponents(opponents@.subrange(0, i as int), frozen@),
        decreases opponents@.len() - i,
    {
        frozen.push(
            TournamentOpponent { opponent_id: opponents[i].id, url: opponents[i].url.clone() },
        );
        i = i + 1;
    }
    assert(opponents@.subrange(0, opponents@.len() as int) =~= opponents@);
    let initial_round = create_initial_round(&frozen);
    let t = Tournament::new(name, created_by, opponents, users, initial_round);
    assert(opponent_ids(t.opponents@) =~= opponent_ids(frozen@));
    Ok(t)
}

/// How the tournament moves on once the match just voted on is decided: when
/// the current round `cur` is complete, a single advancing entrant wins the
/// tournament, and several are paired into the next round in the order they
/// were collected.
pub open spec fn advanced(old: Tournament, new: Tournament, cur: Round, decided: bool) -> bool {
    let n = old.rounds@.len();
    if decided && round_complete(cur) {
        let ws = round_winners(cur);
        if ws.len() == 1 {
            &&& new.rounds@.len() == n
            &&& new.status == TournamentStatus::Completed
            &&& new.winner == Some(ws[0])
        } else {
            &&& new.rounds@.len() == n + 1
            &&& pairs(new.rounds@[n as int], ws)
            &&& new.rounds@[n as int].round_number == cur.round_number + 1
            &&& new.status == old.status
            &&& new.winner == old.winner
        }
    } else {
        &&& new.rounds@.len() == n
        &&& new.status == old.status
        &&& new.winner == old.winner
        &&& new.updated_at == old.updated_at
    }
}

/// What `voter`'s vote for `voted_for` in match `match_id` does to `old`:
/// `new` is the tournament afterwards and `r` the result, the match's winner
/// when this vote decided it.
pub open spec fn vote_applied(
    old: Tournament,
    new: Tournament,
    match_id: Seq<char>,
    voted_for: ObjectId,
    voter: VoterId,
    r: Result<Option<ObjectId>, TournamentError>,
) -> bool {
    let n = old.rounds@.len();
    let ms = old.current().matches@;
    let k = match_position(ms, match_id);
    if !old.is_participant(voter@) {
        r == Err::<Option<ObjectId>, TournamentError>(TournamentError::NotParticipant) && new
            == old
    } else if !has_match(ms, match_id) {
        r == Err::<Option<ObjectId>, TournamentError>(TournamentError::MatchNotFound) && new == old
    } else if ms[k].has_voted(voter@) {
        r == Err::<Option<ObjectId>, TournamentError>(TournamentError::AlreadyVoted) && new == old
    } else if voted_for != ms[k].opponent1 && voted_for != ms[k].opponent2 {
        r == Err::<Option<ObjectId>, TournamentError>(TournamentError::InvalidOpponent) && new
            == old
    } else {
        let cur = new.rounds@[n - 1];
        &&& r is Ok
        &&& vote_outcome(
            ms[k],
            cur.matches@[k],
            voter,
            voted_for,
            old.users@.len() as int,
            Ok::<Option<ObjectId>, VoteError>(r->Ok_0),
        )
        &&& cur.round_number == old.current().round_number
        &&& cur.automatic_winners == old.current().automatic_winners
        &&& cur.matches@.len() == ms.len()
        &&& forall|j: int| 0 <= j < ms.len() && j != k ==> cur.matches@[j] == ms[j]
        &&& forall|j: int| 0 <= j < n - 1 ==> new.rounds@[j] == old.rounds@[j]
        &&& same_setup(old, new)
        &&& advanced(old, new, cur, r->Ok_0 is Some)
    }
}

/// Tournaments with the same users and rounds agree on who voted.
proof fn lemma_votes_kept(a: Tournament, b: Tournament)
    requires
        a.votes_by_participants(),
        a.users == b.users,
        a.rounds@ == b.rounds@,
    ensures
        b.votes_by_participants(),
{
    assert forall|i: int, j: int|
        0 <= i < b.rounds@.len() && 0 <= j < b.rounds@[i].matches@.len() implies b.participants_voted(
        #[trigger] b.rounds@[i].matches@[j],
    ) by {
        let m = b.rounds@[i].matches@[j];
        assert(a.participants_voted(a.rounds@[i].matches@[j]));
        assert forall|x: VoterView| voters(m.opponent1_votes@).contains(x) implies b.is_participant(
            x,
        ) by {
            assert(a.is_participant(x));
        }
        assert forall|x: VoterView| voters(m.opponent2_votes@).contains(x) implies b.is_participant(
            x,
        ) by {
            assert(a.is_participant(x));
        }
    }
}

/// Adding participants keeps every vote a participant's.
pub(crate) proof fn lemma_more_users_keep_votes(a: Tournament, b: Tournament)
    requires
        a.votes_by_participants(),
        a.rounds@ == b.rounds@,
        b.users@.len() >= a.users@.len(),
        forall|i: int| 0 <= i < a.users@.len() ==> b.users@[i] == a.users@[i],
    ensures
        b.votes_by_participants(),
{
    assert forall|x: VoterView| a.is_participant(x) implies b.is_participant(x) by {
        let i = choose|i: int| 0 <= i < a.users@.len() && (#[trigger] a.users@[i]).voter_id@ == x;
        assert(b.users@[i].voter_id@ == x);
    }
    assert forall|i: int, j: int|
        0 <= i < b.rounds@.len() && 0 <= j < b.rounds@[i].matches@.len() implies b.participants_voted(
        #[trigger] b.rounds@[i].matches@[j],
    ) by {
        assert(a.participants_voted(a.rounds@[i].matches@[j]));
    }
}

/// The voters of `v` with `x` added at the end.
proof fn lemma_voters_push(v: Seq<VoterId>, x: VoterId)
    ensures
        voters(v.push(x)) == voters(v).push(x@),
{
    assert(voters(v.push(x)) =~= voters(v).push(x@));
}

/// A vote by a participant keeps every vote a participant's: the match voted
/// on gained at most that vote, the other matches of the current round and
/// the earlier rounds are as they were, and any new round is fresh.
proof fn lemma_vote_keeps_participants(old: Tournament, new: Tournament, k: int)
    requires
        old.votes_by_participants(),
        old.rounds@.len() >= 1,
        new.users == old.users,
        new.rounds@.len() >= old.rounds@.len(),
        forall|i: int| 0 <= i < old.rounds@.len() - 1 ==> new.rounds@[i] == old.rounds@[i],
        new.rounds@[old.rounds@.len() - 1].matches@.len() == old.current().matches@.len(),
        0 <= k < old.current().matches@.len(),
        forall|j: int|
            0 <= j < old.current().matches@.len() && j != k ==> new.rounds@[old.rounds@.len()
                - 1].matches@[j] == old.current().matches@[j],
        new.participants_voted(new.rounds@[old.rounds@.len() - 1].matches@[k]),
        forall|i: int, j: int|
            old.rounds@.len() <= i < new.rounds@.len() && 0 <= j < new.rounds@[i].matches@.len()
                ==> is_fresh(#[trigger] new.rounds@[i].matches@[j]),
    ensures
        new.votes_by_participants(),
{
    let n = old.rounds@.len();
    assert forall|i: int, j: int|
        0 <= i < new.rounds@.len() && 0 <= j < new.rounds@[i].matches@.len() implies new.participants_voted(
        #[trigger] new.rounds@[i].matches@[j],
    ) by {
        let m = new.rounds@[i].matches@[j];
        if i >= n {
            assert(is_fresh(m));
            assert(voters(m.opponent1_votes@) =~= Seq::<VoterView>::empty());
            assert(voters(m.opponent2_votes@) =~= Seq::<VoterView>::empty());
        } else if i == n - 1 && j == k {
        } else {
            if i < n - 1 {
                assert(m == old.rounds@[i].matches@[j]);
            } else {
                assert(m == old.rounds@[n - 1].matches@[j]);
            }
            assert(old.participants_voted(m));
            assert forall|x: VoterView| voters(m.opponent1_votes@).contains(x) implies new.is_participant(
                x,
            ) by {
                assert(old.is_participant(x));
            }
            assert forall|x: VoterView| voters(m.opponent2_votes@).contains(x) implies new.is_participant(
                x,
            ) by {
                assert(old.is_participant(x));
            }
        }
    }
}

impl Tournament {
    /// Whether every vote of `votes` was cast by a participant.
    fn voters_known(&self, votes: &Vec<VoterId>) -> (r: bool)
        ensures
            r == forall|x: VoterView| voters(votes@).contains(x) ==> self.is_participant(x),
    {
        let mut i: usize = 0;
        while i < votes.len()
            invariant
                i <= votes@.len(),
                forall|j: int| 0 <= j < i ==> self.is_participant((#[trigger] votes@[j])@),
            decreases votes@.len() - i,
        {
            if !self.has_participant(&votes[i]) {
                assert(voters(votes@)[i as int] == votes@[i as int]@);
                return false;
            }
            i = i + 1;
        }
        assert forall|x: VoterView| voters(votes@).contains(x) implies self.is_participant(x) by {
            let j = choose|j: int| 0 <= j < voters(votes@).len() && voters(votes@)[j] == x;
            assert(self.is_participant(votes@[j]@));
        }
        true
    }

    /// Whether the tournament is as the engine keeps it; a record read back
    /// from storage is checked with this before the engine works on it.
    pub fn is_well_formed(&self) -> (r: bool)
        ensures
            r == self.wf(),
    {
        if self.opponents.len() < 2 || self.rounds.len() < 1 {
            return false;
        }
        if self.winner.is_some() != (self.status == TournamentStatus::Completed) {
            return false;
        }
        let mut i: usize = 0;
        while i < self.rounds.len()
            invariant
                i <= self.rounds@.len(),
                forall|a: int, b: int|
                    0 <= a < i && 0 <= b < self.rounds@[a].matches@.len() ==> self.participants_voted(
                        #[trigger] self.rounds@[a].matches@[b],
                    ),
            decreases self.rounds@.len() - i,
        {
            let ms = &self.rounds[i].matches;
            let mut j: usize = 0;
            while j < ms.len()
                invariant
                    i < self.rounds@.len(),
                    ms == &self.rounds@[i as int].matches,
                    j <= ms@.len(),
                    forall|a: int, b: int|
                        0 <= a < i && 0 <= b < self.rounds@[a].matches@.len()
                            ==> self.participants_voted(#[trigger] self.rounds@[a].matches@[b]),
                    forall|b: int| 0 <= b < j ==> self.participants_voted(#[trigger] ms@[b]),
                decreases ms@.len() - j,
            {
                if !self.voters_known(&ms[j].opponent1_votes) || !self.voters_known(
                    &ms[j].opponent2_votes,
                ) {
                    return false;
                }
                j = j + 1;
            }
            i = i + 1;
        }
        true
    }
}

impl Tournament {
    /// Casts `voter_id`'s vote for `voted_for` in match `match_id` of the
    /// current round; returns the match's winner when this vote decided it.
    /// The voter must be a participant. When the vote completes the round,
    /// the tournament either ends with its single remaining entrant or moves
    /// on to a new round.
    pub fn vote_match(&mut self, match_id: &String, voted_for: ObjectId, voter_id: VoterId) -> (r:
        Result<Option<ObjectId>, TournamentError>)
        requires
            old(self).wf(),
            old(self).current().round_number < i32::MAX,
        ensures
            vote_applied(*old(self), *final(self), match_id@, voted_for, voter_id, r),
            final(self).wf(),
    {
        if !self.has_participant(&voter_id) {
            return Err(TournamentError::NotParticipant);
        }
        let last: usize = self.rounds.len() - 1;
        let n_matches: usize = self.rounds[last].matches.len();
        let mut k: usize = 0;
        while k < n_matches
            invariant
                last == self.rounds@.len() - 1,
                n_matches == self.current().matches@.len(),
                k <= n_matches,
                forall|j: int| 0 <= j < k ==> (#[trigger] self.current().matches@[j]).match_id@
                    != match_id@,
            ensures
                k <= n_matches,
                k < n_matches ==> self.current().matches@[k as int].match_id@ == match_id@,
                forall|j: int| 0 <= j < k ==> (#[trigger] self.current().matches@[j]).match_id@
                    != match_id@,
            decreases n_matches - k,
        {
            if self.rounds[last].matches[k].match_id == *match_id {
                break;
            }
            k = k + 1;
        }
        if k == n_matches {
            return Err(TournamentError::MatchNotFound);
        }
        proof {
            assert(first_match(self.current().matches@, match_id@, k as int));
            assert(has_match(self.current().matches@, match_id@));
            let p = match_position(self.current().matches@, match_id@);
            assert(first_match(self.current().matches@, match_id@, p));
            assert(p == k as int);
        }
        {
            let target = &self.rounds[last].matches[k];
            if contains_voter(&target.opponent1_votes, &voter_id) || contains_voter(
                &target.opponent2_votes,
                &voter_id,
            ) {
                return Err(TournamentError::AlreadyVoted);
            }
            if voted_for != target.opponent1 && voted_for != target.opponent2 {
                return Err(TournamentError::InvalidOpponent);
            }
        }
        let ghost old_t = *self;
        let ghost voter = voter_id@;
        let ghost cast = voter_id;
        let mut round = self.rounds.pop().unwrap();
        let mut m = round.matches.remove(k);
        let outcome = m.process_vote(voter_id, voted_for, self.users.as_slice());
        round.matches.insert(k, m);
        proof {
            let om = old_t.current().matches@[k as int];
            let nm = round.matches@[k as int];
            assert(old_t.participants_voted(old_t.rounds@[old_t.rounds@.len() - 1].matches@[k as int]));
            lemma_voters_push(om.opponent1_votes@, cast);
            lemma_voters_push(om.opponent2_votes@, cast);
            assert forall|x: VoterView| voters(nm.opponent1_votes@).contains(x) implies old_t.is_participant(x) by {
                if x != voter && nm.opponent1_votes@.len() > om.opponent1_votes@.len() {
                    let i = choose|i: int| 0 <= i < voters(nm.opponent1_votes@).len() && voters(nm.opponent1_votes@)[i] == x;
                    assert(voters(om.opponent1_votes@)[i] == x);
                }
            }
            assert forall|x: VoterView| voters(nm.opponent2_votes@).contains(x) implies old_t.is_participant(x) by {
                if x != voter && nm.opponent2_votes@.len() > om.opponent2_votes@.len() {
                    let i = choose|i: int| 0 <= i < voters(nm.opponent2_votes@).len() && voters(nm.opponent2_votes@)[i] == x;
                    assert(voters(om.opponent2_votes@)[i] == x);
                }
            }
        }
        let ghost voted_match = round.matches@[k as int];
        let decided = match outcome {
            Ok(w) => w,
            Err(e) => {
                proof {
                    assert(false);
                }
                return Err(vote_error(e));
            },
        };
        let complete: bool = decided.is_some() && is_round_complete(&round);
        if complete {
            let winners = get_round_winners(&round);
            if winners.len() == 1 {
                self.status = TournamentStatus::Completed;
                self.winner = Some(winners[0]);
                self.rounds.push(round);
            } else {
                let next = create_next_round(winners, round.round_number + 1);
                self.rounds.push(round);
                self.rounds.push(next);
            }
            self.updated_at = now_millis();
        } else {
            self.rounds.push(round);
        }
        proof {
            assert(self.rounds@[old_t.rounds@.len() - 1].matches@[k as int] == voted_match);
            assert forall|x: VoterView| voters(voted_match.opponent1_votes@).contains(x) implies self.is_participant(x) by {
                assert(old_t.is_participant(x));
            }
            assert forall|x: VoterView| voters(voted_match.opponent2_votes@).contains(x) implies self.is_participant(x) by {
                assert(old_t.is_participant(x));
            }
            lemma_vote_keeps_participants(old_t, *self, k as int);
        }
        Ok(decided)
    }
}

impl Tournament {
    /// Stops voting for a while; only the owner may, and only while active.
    pub fn pause(&mut self, caller: ObjectId) -> (r: Result<(), TournamentError>)
        requires
            old(self).wf(),
        ensures
            final(self).wf(),
            caller != old(self).created_by ==> r == Err::<(), TournamentError>(
                TournamentError::NotOwner,
            ),
            caller == old(self).created_by && old(self).status == TournamentStatus::Completed
                ==> r == Err::<(), TournamentError>(TournamentError::AlreadyCompleted),
            caller == old(self).created_by && old(self).status == TournamentStatus::Paused ==> r
                == Err::<(), TournamentError>(TournamentError::NotActive),
            r is Err ==> *final(self) == *old(self),
            r is Ok ==> caller == old(self).created_by && old(self).status
                == TournamentStatus::Active && *final(self) == (Tournament {
                status: TournamentStatus::Paused,
                ..*old(self)
            }),
    {
        if caller != self.created_by {
            return Err(TournamentError::NotOwner);
        }
        match self.status {
            TournamentStatus::Completed => Err(TournamentError::AlreadyCompleted),
            TournamentStatus::Paused => Err(TournamentError::NotActive),
            TournamentStatus::Active => {
                let ghost before = *self;
                self.status = TournamentStatus::Paused;
                proof {
                    lemma_votes_kept(before, *self);
                }
                Ok(())
            },
        }
    }

    /// Lets a paused tournament take votes again; only the owner may.
    pub fn resume(&mut self, caller: ObjectId) -> (r: Result<(), TournamentError>)
        requires
            old(self).wf(),
        ensures
            final(self).wf(),
            caller != old(self).created_by ==> r == Err::<(), TournamentError>(
                TournamentError::NotOwner,
            ),
            caller == old(self).created_by && old(self).status == TournamentStatus::Completed
                ==> r == Err::<(), TournamentError>(TournamentError::AlreadyCompleted),
            caller == old(self).created_by && old(self).status == TournamentStatus::Active ==> r
                == Err::<(), TournamentError>(TournamentError::NotPaused),
            r is Err ==> *final(self) == *old(self),
            r is Ok ==> caller == old(self).created_by && old(self).status
                == TournamentStatus::Paused && *final(self) == (Tournament {
                status: TournamentStatus::Active,
                ..*old(self)
            }),
    {
        if caller != self.created_by {
            return Err(TournamentError::NotOwner);
        }
        match self.status {
            TournamentStatus::Completed => Err(TournamentError::AlreadyCompleted),
            TournamentStatus::Active => Err(TournamentError::NotPaused),
            TournamentStatus::Paused => {
                let ghost before = *self;
                self.status = TournamentStatus::Active;
                proof {
                    lemma_votes_kept(before, *self);
                }
                Ok(())
            },
        }
    }
}

} // verus!
