//! Properties that hold across calls of the engine, stated over the
//! contracts of the functions they speak of.
use vstd::prelude::*;
use crate::bracket::{match_winners, opponent_ids, pairs, round_complete, round_winners};
use crate::engine::{first_match, has_match, match_position, vote_applied, TournamentError};
use crate::ids::{ObjectId, VoterId};
use crate::invites::join_verdict;
use crate::model::{voters, Match, Tournament, TournamentInvite, TournamentStatus};
use crate::text::is_blank;
use crate::voting::{vote_outcome, VoteError};

verus! {

/// A voter votes at most once per match: after a vote of theirs went in, a
/// second vote by the same identity is refused as already cast and changes
/// nothing.
pub proof fn lemma_one_vote_per_match(
    m0: Match,
    m1: Match,
    m2: Match,
    voter: VoterId,
    again: VoterId,
    first_choice: ObjectId,
    second_choice: ObjectId,
    participants: int,
    r1: Result<Option<ObjectId>, VoteError>,
    r2: Result<Option<ObjectId>, VoteError>,
)
    requires
        vote_outcome(m0, m1, voter, first_choice, participants, r1),
        r1 is Ok,
        again@ == voter@,
        vote_outcome(m1, m2, again, second_choice, participants, r2),
    ensures
        r2 == Err::<Option<ObjectId>, VoteError>(VoteError::AlreadyVoted),
        m2 == m1,
{
    if first_choice == m0.opponent1 {
        assert(voters(m1.opponent1_votes@)[m1.opponent1_votes@.len() - 1] == voter@);
    } else {
        assert(voters(m1.opponent2_votes@)[m1.opponent2_votes@.len() - 1] == voter@);
    }
}

/// Only participants vote: a vote from an identity that is not among the
/// tournament's users is refused and changes nothing, whatever it names.
pub proof fn lemma_outsider_vote_refused(
    old: Tournament,
    new: Tournament,
    match_id: Seq<char>,
    voted_for: ObjectId,
    voter: VoterId,
    r: Result<Option<ObjectId>, TournamentError>,
)
    requires
        vote_applied(old, new, match_id, voted_for, voter, r),
        !old.is_participant(voter@),
    ensures
        r == Err::<Option<ObjectId>, TournamentError>(TournamentError::NotParticipant),
        new == old,
{
}

/// A round of a single match and no bye is the final: the vote that decides
/// that match completes the tournament, with the match's winner as its
/// winner.
pub proof fn lemma_deciding_the_final(
    old: Tournament,
    new: Tournament,
    match_id: Seq<char>,
    voted_for: ObjectId,
    voter: VoterId,
    r: Result<Option<ObjectId>, TournamentError>,
    w: ObjectId,
)
    requires
        old.wf(),
        old.current().matches@.len() == 1,
        old.current().automatic_winners@.len() == 0,
        vote_applied(old, new, match_id, voted_for, voter, r),
        r == Ok::<Option<ObjectId>, TournamentError>(Some(w)),
    ensures
        new.status == TournamentStatus::Completed,
        new.winner == Some(w),
        new.rounds@.len() == old.rounds@.len(),
{
    let n = old.rounds@.len();
    let cur = new.rounds@[n - 1];
    let ms = old.current().matches@;
    assert(has_match(ms, match_id));
    let j = choose|j: int| 0 <= j < ms.len() && (#[trigger] ms[j]).match_id@ == match_id;
    assert(j == 0);
    assert(first_match(ms, match_id, 0));
    let k = match_position(ms, match_id);
    assert(k == 0);
    assert(cur.matches@[0].winner == Some(w));
    assert(round_complete(cur));
    assert(cur.matches@.drop_last() =~= Seq::<Match>::empty());
    assert(match_winners(cur.matches@.drop_last()) =~= Seq::<ObjectId>::empty());
    assert(match_winners(cur.matches@) =~= seq![w]);
    assert(round_winners(cur) =~= seq![w]);
}

/// A tournament of two opponents and one voter ends with its first vote: the
/// single match is decided by it, and its winner wins the tournament.
pub proof fn lemma_two_opponents_one_voter(
    old: Tournament,
    new: Tournament,
    match_id: Seq<char>,
    voted_for: ObjectId,
    voter: VoterId,
    r: Result<Option<ObjectId>, TournamentError>,
)
    requires
        old.wf(),
        old.opponents@.len() == 2,
        old.users@.len() == 1,
        old.rounds@.len() == 1,
        pairs(old.rounds@[0], opponent_ids(old.opponents@)),
        vote_applied(old, new, match_id, voted_for, voter, r),
        r is Ok,
    ensures
        new.status == TournamentStatus::Completed,
        new.winner == Some(voted_for),
        r == Ok::<Option<ObjectId>, TournamentError>(Some(voted_for)),
{
    let ids = opponent_ids(old.opponents@);
    assert(ids.len() == 2);
    assert(old.current() == old.rounds@[0]);
    assert(old.current().matches@.len() == 1);
    assert(old.current().automatic_winners@ =~= Seq::<ObjectId>::empty());
    let ms = old.current().matches@;
    assert(has_match(ms, match_id));
    let j = choose|j: int| 0 <= j < ms.len() && (#[trigger] ms[j]).match_id@ == match_id;
    assert(j == 0);
    assert(first_match(ms, match_id, 0));
    let k = match_position(ms, match_id);
    assert(k == 0);
    let m0 = old.current().matches@[0];
    let m1 = new.rounds@[0].matches@[0];
    assert(m1.total_votes() == 1);
    lemma_deciding_the_final(old, new, match_id, voted_for, voter, r, m1.leader());
}

/// Advancement keeps the order in which winners were collected: when a vote
/// completes a round that leaves more than one entrant, the next round pairs
/// that round's match winners, in match order, followed by its automatic
/// winners.
pub proof fn lemma_winners_feed_next_round(
    old: Tournament,
    new: Tournament,
    match_id: Seq<char>,
    voted_for: ObjectId,
    voter: VoterId,
    r: Result<Option<ObjectId>, TournamentError>,
)
    requires
        vote_applied(old, new, match_id, voted_for, voter, r),
        r matches Ok(Some(_)),
        round_complete(new.rounds@[old.rounds@.len() - 1]),
        round_winners(new.rounds@[old.rounds@.len() - 1]).len() > 1,
    ensures
        new.rounds@.len() == old.rounds@.len() + 1,
        pairs(new.rounds@.last(), round_winners(new.rounds@[old.rounds@.len() - 1])),
        new.rounds@.last().round_number == old.current().round_number + 1,
{
}

/// Redeeming an invite goes ahead exactly when the display name is not blank,
/// the code named an invite, and that invite is for this tournament, not yet
/// expired and not used up; each failure has its own error.
pub proof fn lemma_invite_redemption(
    display_name: Seq<char>,
    invite: Option<TournamentInvite>,
    tournament_id: ObjectId,
    now: int,
)
    ensures
        join_verdict(display_name, invite, tournament_id, now) is Ok <==> (!is_blank(display_name)
            && (invite matches Some(i) && i.admits(tournament_id, now))),
        is_blank(display_name) ==> join_verdict(display_name, invite, tournament_id, now) == Err::<
            (),
            TournamentError,
        >(TournamentError::EmptyDisplayName),
        !is_blank(display_name) && invite is None ==> join_verdict(
            display_name,
            invite,
            tournament_id,
            now,
        ) == Err::<(), TournamentError>(TournamentError::InvalidInviteCode),
        invite matches Some(i) ==> (!is_blank(display_name) && i.tournament_id != tournament_id
            ==> join_verdict(display_name, invite, tournament_id, now) == Err::<
            (),
            TournamentError,
        >(TournamentError::InviteTournamentMismatch)),
        invite matches Some(i) ==> (!is_blank(display_name) && i.tournament_id == tournament_id
            && now > i.expires_at ==> join_verdict(display_name, invite, tournament_id, now)
            == Err::<(), TournamentError>(TournamentError::InviteExpired)),
        invite matches Some(i) ==> (!is_blank(display_name) && i.tournament_id == tournament_id
            && now <= i.expires_at && i.current_uses >= i.max_uses ==> join_verdict(
            display_name,
            invite,
            tournament_id,
            now,
        ) == Err::<(), TournamentError>(TournamentError::InviteExhausted)),
{
}

} // verus!
