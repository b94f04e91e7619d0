//! Pairing entrants into rounds, and reading a round's outcome.
use vstd::prelude::*;
use crate::ids::ObjectId;
use crate::model::{Match, Round, TournamentOpponent};
use crate::runtime::{fresh_uuid, now_millis};

verus! {

/// A match as it is created: no votes and no winner.
pub open spec fn is_fresh(m: Match) -> bool {
    &&& m.opponent1_votes@.len() == 0
    &&& m.opponent2_votes@.len() == 0
    &&& m.winner is None
}

/// `r` pairs `ids` in order (the first with the second, the third with the
/// fourth, and so on) in fresh matches; an odd entrant out advances
/// automatically.
pub open spec fn pairs(r: Round, ids: Seq<ObjectId>) -> bool {
    &&& r.matches@.len() == ids.len() / 2
    &&& forall|i: int|
        0 <= i < r.matches@.len() ==> {
            &&& (#[trigger] r.matches@[i]).opponent1 == ids[2 * i]
            &&& r.matches@[i].opponent2 == ids[2 * i + 1]
            &&& is_fresh(r.matches@[i])
        }
    &&& r.automatic_winners@ == if ids.len() % 2 == 1 {
        seq![ids.last()]
    } else {
        Seq::<ObjectId>::empty()
    }
}

/// The winners of the decided matches, in match order.
pub open spec fn match_winners(ms: Seq<Match>) -> Seq<ObjectId>
    decreases ms.len(),
{
    if ms.len() == 0 {
        Seq::empty()
    } else {
        let rest = match_winners(ms.drop_last());
        match ms.last().winner {
            Some(w) => rest.push(w),
            None => rest,
        }
    }
}

/// Who advances from `r`: its match winners in match order, then its
/// automatic winners.
pub open spec fn round_winners(r: Round) -> Seq<ObjectId> {
    match_winners(r.matches@) + r.automatic_winners@
}

/// Every match of `r` has a winner.
pub open spec fn round_complete(r: Round) -> bool {
    forall|i: int| 0 <= i < r.matches@.len() ==> (#[trigger] r.matches@[i]).winner is Some
}

/// Builds round `round_number` from `ids`, giving the matches the identifiers
/// of `match_ids` in order and the date `match_date`.
pub fn pair_entrants(
    ids: &Vec<ObjectId>,
    match_ids: &Vec<String>,
    round_number: i32,
    match_date: i64,
) -> (r: Round)
    requires
        match_ids@.len() == ids@.len() / 2,
    ensures
        pairs(r, ids@),
        r.round_number == round_number,
        forall|i: int|
            0 <= i < r.matches@.len() ==> {
                &&& (#[trigger] r.matches@[i]).match_id == match_ids@[i]
                &&& r.matches@[i].match_date == match_date
            },
{
    let n: usize = ids.len();
    let mut matches: Vec<Match> = Vec::new();
    let mut automatic_winners: Vec<ObjectId> = Vec::new();
    let mut i: usize = 0;
    while n - i >= 2
        invariant
            n == ids@.len(),
            match_ids@.len() == n / 2,
            i <= n,
            i == 2 * matches@.len(),
            forall|k: int|
                0 <= k < matches@.len() ==> {
                    &&& (#[trigger] matches@[k]).opponent1 == ids@[2 * k]
                    &&& matches@[k].opponent2 == ids@[2 * k + 1]
                    &&& is_fresh(matches@[k])
                    &&& matches@[k].match_id == match_ids@[k]
                    &&& matches@[k].match_date == match_date
                },
        decreases n - i,
    {
        let k: usize = i / 2;
        matches.push(
            Match {
                match_id: match_ids[k].clone(),
                opponent1: ids[i],
                opponent2: ids[i + 1],
                opponent1_votes: Vec::new(),
                opponent2_votes: Vec::new(),
                winner: None,
                match_date,
            },
        );
        i = i + 2;
    }
    if i < n {
        automatic_winners.push(ids[i]);
    }
    proof {
        if n % 2 == 1 {
            assert(automatic_winners@ =~= seq![ids@.last()]);
        } else {
            assert(automatic_winners@ =~= Seq::<ObjectId>::empty());
        }
    }
    Round { round_number, matches, automatic_winners }
}

/// `n` fresh match identifiers.
fn fresh_match_ids(n: usize) -> (r: Vec<String>)
    ensures
        r@.len() == n,
{
    let mut r: Vec<String> = Vec::new();
    let mut k: usize = 0;
    while k < n
        invariant
            k <= n,
            r@.len() == k,
        decreases n - k,
    {
        r.push(fresh_uuid());
        k = k + 1;
    }
    r
}

/// Round `round_number` over `winners`, in the order given, with fresh match
/// identifiers dated now.
pub fn create_next_round(winners: Vec<ObjectId>, round_number: i32) -> (r: Round)
    ensures
        pairs(r, winners@),
        r.round_number == round_number,
{
    let match_ids = fresh_match_ids(winners.len() / 2);
    let now: i64 = now_millis();
    pair_entrants(&winners, &match_ids, round_number, now)
}

/// The identifiers of `opponents`, in order.
pub open spec fn opponent_ids(opponents: Seq<TournamentOpponent>) -> Seq<ObjectId> {
    opponents.map_values(|o: TournamentOpponent| o.opponent_id)
}

/// Round one over `opponents`, paired in list order.
pub fn create_initial_round(opponents: &Vec<TournamentOpponent>) -> (r: Round)
    ensures
        pairs(r, opponent_ids(opponents@)),
        r.round_number == 1,
{
    let mut ids: Vec<ObjectId> = Vec::new();
    let mut i: usize = 0;
    while i < opponents.len()
        invariant
            i <= opponents@.len(),
            ids@ =~= opponent_ids(opponents@).subrange(0, i as int),
        decreases opponents@.len() - i,
    {
        ids.push(opponents[i].opponent_id);
        i = i + 1;
    }
    assert(ids@ =~= opponent_ids(opponents@));
    create_next_round(ids, 1)
}

/// Whether every match of `round` has a winner.
pub fn is_round_complete(round: &Round) -> (r: bool)
    ensures
        r == round_complete(*round),
{
    let mut i: usize = 0;
    while i < round.matches.len()
        invariant
            i <= round.matches@.len(),
            forall|k: int| 0 <= k < i ==> (#[trigger] round.matches@[k]).winner is Some,
        decreases round.matches@.len() - i,
    {
        if round.matches[i].winner.is_none() {
            return false;
        }
        i = i + 1;
    }
    true
}

/// Who advances from `round`: match winners in match order, then automatic
/// winners.
pub fn get_round_winners(round: &Round) -> (r: Vec<ObjectId>)
    ensures
        r@ == round_winners(*round),
{
    let ms = &round.matches;
    let mut winners: Vec<ObjectId> = Vec::new();
    let mut i: usize = 0;
    while i < ms.len()
        invariant
            i <= ms@.len(),
            winners@ == match_winners(ms@.subrange(0, i as int)),
        decreases ms@.len() - i,
    {
        assert(ms@.subrange(0, i as int + 1).drop_last() =~= ms@.subrange(0, i as int));
        match ms[i].winner {
            Some(w) => winners.push(w),
            None => {},
        }
        i = i + 1;
    }
    assert(ms@.subrange(0, ms@.len() as int) =~= ms@);
    let ghost before = winners@;
    let mut j: usize = 0;
    while j < round.automatic_winners.len()
        invariant
            j <= round.automatic_winners@.len(),
            winners@ =~= before + round.automatic_winners@.subrange(0, j as int),
        decreases round.automatic_winners@.len() - j,
    {
        winners.push(round.automatic_winners[j]);
        j = j + 1;
    }
    assert(round.automatic_winners@.subrange(0, j as int) =~= round.automatic_winners@);
    winners
}

} // verus!
