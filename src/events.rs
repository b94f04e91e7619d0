//! The events pushed to live viewers, and the decisions of one viewer's
//! connection loop.
use vstd::prelude::*;
use vstd::string::StringExecFns;
use crate::engine::{has_match, match_position};
use crate::ids::ObjectId;
use crate::model::{Match, Tournament, TournamentStatus};

verus! {

/// A state change of a tournament, as broadcast to its room. Vote counts are
/// given per opponent.
#[derive(Clone, Debug, PartialEq)]
pub enum TournamentEvent {
    VoteCast { match_id: String, vote_counts: Vec<(ObjectId, usize)>, total_needed: usize },
    MatchCompleted { match_id: String, winner_id: ObjectId, final_votes: Vec<(ObjectId, usize)> },
    RoundCompleted { round_number: i32, next_round_matches: usize },
    TournamentCompleted { winner_id: ObjectId },
    ParticipantJoined { display_name: String, participant_count: usize },
    TournamentPaused,
    TournamentResumed,
    Error { message: String },
}

/// The fixed wire tag of each kind of event.
pub open spec fn event_tag(e: TournamentEvent) -> Seq<char> {
    match e {
        TournamentEvent::VoteCast { .. } => "vote_cast"@,
        TournamentEvent::MatchCompleted { .. } => "match_completed"@,
        TournamentEvent::RoundCompleted { .. } => "round_completed"@,
        TournamentEvent::TournamentCompleted { .. } => "tournament_completed"@,
        TournamentEvent::ParticipantJoined { .. } => "participant_joined"@,
        TournamentEvent::TournamentPaused => "tournament_paused"@,
        TournamentEvent::TournamentResumed => "tournament_resumed"@,
        TournamentEvent::Error { .. } => "error"@,
    }
}

impl TournamentEvent {
    /// The event's wire tag.
    pub fn tag(&self) -> (r: String)
        ensures
            r@ == event_tag(*self),
    {
        match self {
            TournamentEvent::VoteCast { .. } => String::from_str("vote_cast"),
            TournamentEvent::MatchCompleted { .. } => String::from_str("match_completed"),
            TournamentEvent::RoundCompleted { .. } => String::from_str("round_completed"),
            TournamentEvent::TournamentCompleted { .. } => String::from_str("tournament_completed"),
            TournamentEvent::ParticipantJoined { .. } => String::from_str("participant_joined"),
            TournamentEvent::TournamentPaused => String::from_str("tournament_paused"),
            TournamentEvent::TournamentResumed => String::from_str("tournament_resumed"),
            TournamentEvent::Error { .. } => String::from_str("error"),
        }
    }
}

/// What a viewer may send.
#[derive(Clone, Copy, Debug, PartialEq, Eq, Structural)]
pub enum ClientMessage {
    Ping,
}

/// What woke a connection loop up.
#[derive(Clone, Debug)]
pub enum ConnectionInput {
    /// An event arrived from the room.
    Event(TournamentEvent),
    /// The subscription fell behind and missed events.
    Lagged,
    /// The room's channel is closed.
    ChannelClosed,
    /// The client sent a text frame; `Some` when it parsed as a client message.
    ClientText(Option<ClientMessage>),
    /// The client sent a transport-level ping with this payload.
    ClientPing(Vec<u8>),
    /// The client sent a close frame.
    ClientClose,
    /// The client's stream ended.
    StreamEnded,
    /// The client sent a frame of another kind.
    ClientOther,
    /// The heartbeat interval elapsed.
    HeartbeatTick,
    /// Sending to the client failed.
    SendFailed,
}

/// What the connection loop does next.
#[derive(Clone, Debug)]
pub enum ConnectionAction {
    /// Forward the event to the client.
    Forward(TournamentEvent),
    /// Answer the client's ping message with a pong message.
    ReplyPong,
    /// Answer a transport-level ping with this payload.
    PongFrame(Vec<u8>),
    /// Send a transport-level ping to detect a dead peer.
    Heartbeat,
    /// Keep waiting.
    Continue,
    /// End the loop, dropping the subscription.
    Close,
}

/// The text of the reply to a client's ping.
pub open spec fn pong_text() -> Seq<char> {
    "{\"type\":\"pong\"}"@
}

pub fn pong_message() -> (r: String)
    ensures
        r@ == pong_text(),
{
    String::from_str("{\"type\":\"pong\"}")
}

/// One step of a viewer's connection loop: events are forwarded, lag is
/// skipped, pings are answered, the heartbeat pings the client, and a closed
/// channel, a closed or ended stream, or a failed send ends the loop.
pub fn next_action(input: ConnectionInput) -> (r: ConnectionAction)
    ensures
        match input {
            ConnectionInput::Event(e) => r == ConnectionAction::Forward(e),
            ConnectionInput::Lagged => r == ConnectionAction::Continue,
            ConnectionInput::ChannelClosed => r == ConnectionAction::Close,
            ConnectionInput::ClientText(m) => r == if m is Some {
                ConnectionAction::ReplyPong
            } else {
                ConnectionAction::Continue
            },
            ConnectionInput::ClientPing(data) => r == ConnectionAction::PongFrame(data),
            ConnectionInput::ClientClose => r == ConnectionAction::Close,
            ConnectionInput::StreamEnded => r == ConnectionAction::Close,
            ConnectionInput::ClientOther => r == ConnectionAction::Continue,
            ConnectionInput::HeartbeatTick => r == ConnectionAction::Heartbeat,
            ConnectionInput::SendFailed => r == ConnectionAction::Close,
        },
{
    match input {
        ConnectionInput::Event(e) => ConnectionAction::Forward(e),
        ConnectionInput::Lagged => ConnectionAction::Continue,
        ConnectionInput::ChannelClosed => ConnectionAction::Close,
        ConnectionInput::ClientText(m) => match m {
            Some(ClientMessage::Ping) => ConnectionAction::ReplyPong,
            None => ConnectionAction::Continue,
        },
        ConnectionInput::ClientPing(data) => ConnectionAction::PongFrame(data),
        ConnectionInput::ClientClose => ConnectionAction::Close,
        ConnectionInput::StreamEnded => ConnectionAction::Close,
        ConnectionInput::ClientOther => ConnectionAction::Continue,
        ConnectionInput::HeartbeatTick => ConnectionAction::Heartbeat,
        ConnectionInput::SendFailed => ConnectionAction::Close,
    }
}

/// Each side's vote count in `m`.
pub open spec fn tally(m: Match) -> Seq<(ObjectId, usize)> {
    seq![
        (m.opponent1, m.opponent1_votes@.len() as usize),
        (m.opponent2, m.opponent2_votes@.len() as usize),
    ]
}

/// The match `match_id` of the round that took the vote, as it is in `new`
/// (`old` is the tournament before the vote).
pub open spec fn voted_match(old: Tournament, new: Tournament, match_id: Seq<char>) -> Match {
    let ms = new.rounds@[old.rounds@.len() - 1].matches@;
    ms[match_position(ms, match_id)]
}

fn tally_of(m: &Match) -> (r: Vec<(ObjectId, usize)>)
    ensures
        r@ == tally(*m),
{
    let mut r: Vec<(ObjectId, usize)> = Vec::new();
    r.push((m.opponent1, m.opponent1_votes.len()));
    r.push((m.opponent2, m.opponent2_votes.len()));
    r
}

/// What a successful vote publishes, in order, given the tournament before
/// (`old`) and after (`new`) it and the winner the vote decided, if any: the
/// new tally; the match's result when decided; the round's completion when a
/// new round opened; the tournament's result when it ended.
pub fn vote_events(
    old: &Tournament,
    new: &Tournament,
    match_id: &String,
    decided: Option<ObjectId>,
) -> (r: Vec<TournamentEvent>)
    requires
        1 <= old.rounds@.len() <= new.rounds@.len(),
        has_match(new.rounds@[old.rounds@.len() - 1].matches@, match_id@),
    ensures
        ({
            let m = voted_match(*old, *new, match_id@);
            let n = old.rounds@.len();
            let grew = new.rounds@.len() > n;
            let ended = old.status != TournamentStatus::Completed && new.status
                == TournamentStatus::Completed && new.winner is Some;
            let i_round = if decided is Some { 2int } else { 1int };
            let i_end = if grew { i_round + 1 } else { i_round };
            &&& r@.len() == if ended { i_end + 1 } else { i_end }
            &&& r@[0] matches TournamentEvent::VoteCast { match_id: id, vote_counts, total_needed }
                && id == *match_id && vote_counts@ == tally(m) && total_needed
                == new.users@.len()
            &&& decided matches Some(w) ==> (r@[1] matches TournamentEvent::MatchCompleted {
                match_id: id,
                winner_id,
                final_votes,
            } && id == *match_id && winner_id == w && final_votes@ == tally(m))
            &&& grew ==> (r@[i_round] matches TournamentEvent::RoundCompleted {
                round_number,
                next_round_matches,
            } && round_number == new.rounds@[n - 1].round_number && next_round_matches
                == new.rounds@[n as int].matches@.len())
            &&& ended ==> r@[i_end] == TournamentEvent::TournamentCompleted {
                winner_id: new.winner->Some_0,
            }
        }),
{
    let n: usize = old.rounds.len();
    let ms = &new.rounds[n - 1].matches;
    let ghost p = match_position(ms@, match_id@);
    proof {
        let j = choose|j: int| 0 <= j < ms@.len() && (#[trigger] ms@[j]).match_id@ == match_id@;
        assert(ms@[j].match_id@ == match_id@);
    }
    let mut k: usize = 0;
    while k < ms.len()
        invariant
            k <= ms@.len(),
            forall|j: int| 0 <= j < k ==> (#[trigger] ms@[j]).match_id@ != match_id@,
            has_match(ms@, match_id@),
        ensures
            k < ms@.len(),
            ms@[k as int].match_id@ == match_id@,
            forall|j: int| 0 <= j < k ==> (#[trigger] ms@[j]).match_id@ != match_id@,
        decreases ms@.len() - k,
    {
        if ms[k].match_id == *match_id {
            break;
        }
        k = k + 1;
    }
    proof {
        assert(crate::engine::first_match(ms@, match_id@, k as int));
        assert(crate::engine::first_match(ms@, match_id@, p));
        if p < k as int {
            assert(ms@[p].match_id@ != match_id@);
        }
        if (k as int) < p {
            assert(ms@[k as int].match_id@ != match_id@);
        }
    }
    let counts = tally_of(&ms[k]);
    let mut r: Vec<TournamentEvent> = Vec::new();
    r.push(
        TournamentEvent::VoteCast {
            match_id: match_id.clone(),
            vote_counts: tally_of(&ms[k]),
            total_needed: new.users.len(),
        },
    );
    if let Some(w) = decided {
        r.push(
            TournamentEvent::MatchCompleted {
                match_id: match_id.clone(),
                winner_id: w,
                final_votes: counts,
            },
        );
    }
    if new.rounds.len() > n {
        r.push(
            TournamentEvent::RoundCompleted {
                round_number: new.rounds[n - 1].round_number,
                next_round_matches: new.rounds[n].matches.len(),
            },
        );
    }
    if old.status != TournamentStatus::Completed && new.status == TournamentStatus::Completed {
        if let Some(w) = new.winner {
            r.push(TournamentEvent::TournamentCompleted { winner_id: w });
        }
    }
    r
}

} // verus!
