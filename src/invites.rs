//! Invite codes: issuing them, and admitting anonymous voters who redeem one.
use vstd::prelude::*;
use vstd::string::{StrSliceExecFns, StringExecFns};
use crate::engine::{lemma_more_users_keep_votes, TournamentError};
use crate::ids::{ObjectId, VoterId, VoterView};
use crate::model::{
    CreateInviteDto, InviteResponse, Tournament, TournamentInvite, TournamentStatus,
    TournamentUser,
};
use crate::runtime::{fresh_uuid, is_uuid_char, now_millis};
use crate::text::{blank, is_blank};

verus! {

pub const DEFAULT_MAX_USES: u32 = 10;

pub const DEFAULT_EXPIRES_IN_HOURS: u32 = 24;

pub const MILLIS_PER_HOUR: i64 = 3_600_000;

pub const INVITE_CODE_LEN: usize = 8;

/// When an invite issued at `now` for `hours` hours expires; a time past the
/// largest timestamp is held at that timestamp.
pub open spec fn expiry(now: int, hours: int) -> int {
    if now + hours * MILLIS_PER_HOUR <= i64::MAX {
        now + hours * MILLIS_PER_HOUR
    } else {
        i64::MAX as int
    }
}

pub open spec fn or_default(v: Option<u32>, d: u32) -> u32 {
    match v {
        Some(x) => x,
        None => d,
    }
}

fn expires_at(now: i64, hours: u32) -> (r: i64)
    ensures
        r == expiry(now as int, hours as int),
{
    let span: i64 = hours as i64 * MILLIS_PER_HOUR;
    match now.checked_add(span) {
        Some(t) => t,
        None => i64::MAX,
    }
}

/// Issues an invite to the tournament `tournament_id` (whose record is
/// `tournament`): at most `dto.max_uses` redemptions (ten by default) within
/// `dto.expires_in_hours` hours (a day by default), under a fresh
/// eight-character code.
pub fn create_invite(
    tournament: &Tournament,
    tournament_id: ObjectId,
    dto: &CreateInviteDto,
    created_by: ObjectId,
) -> (r: Result<TournamentInvite, TournamentError>)
    ensures
        tournament.status != TournamentStatus::Active <==> r == Err::<
            TournamentInvite,
            TournamentError,
        >(TournamentError::NotActive),
        tournament.status == TournamentStatus::Active ==> r is Ok,
        r matches Ok(inv) ==> {
            &&& inv.id is None
            &&& inv.code@.len() == INVITE_CODE_LEN
            &&& inv.tournament_id == tournament_id
            &&& inv.max_uses == or_default(dto.max_uses, DEFAULT_MAX_USES)
            &&& inv.current_uses == 0
            &&& inv.wf()
            &&& inv.expires_at == expiry(
                inv.created_at as int,
                or_default(dto.expires_in_hours, DEFAULT_EXPIRES_IN_HOURS) as int,
            )
            &&& inv.created_by == created_by
        },
{
    if tournament.status != TournamentStatus::Active {
        return Err(TournamentError::NotActive);
    }
    let max_uses: u32 = match dto.max_uses {
        Some(m) => m,
        None => DEFAULT_MAX_USES,
    };
    let hours: u32 = match dto.expires_in_hours {
        Some(h) => h,
        None => DEFAULT_EXPIRES_IN_HOURS,
    };
    let now: i64 = now_millis();
    let uuid = fresh_uuid();
    assert forall|i: int| 0 <= i < uuid@.len() implies '\0' <= #[trigger] uuid@[i] <= '\u{7f}' by {
        assert(is_uuid_char(uuid@[i]));
    }
    let code = String::from_str(uuid.as_str().substring_ascii(0, INVITE_CODE_LEN));
    Ok(
        TournamentInvite {
            id: None,
            code,
            tournament_id,
            max_uses,
            current_uses: 0,
            expires_at: expires_at(now, hours),
            created_by,
            created_at: now,
        },
    )
}

impl TournamentInvite {
    /// An invite is never used more often than it allows.
    pub open spec fn wf(self) -> bool {
        self.current_uses <= self.max_uses
    }

    /// Whether the invite still admits someone to `tournament_id` at `now`.
    pub open spec fn admits(self, tournament_id: ObjectId, now: int) -> bool {
        &&& self.tournament_id == tournament_id
        &&& now <= self.expires_at
        &&& self.current_uses < self.max_uses
    }

    pub fn to_response(&self) -> (r: InviteResponse)
        ensures
            r.code == self.code,
            r.tournament_id == self.tournament_id,
            r.max_uses == self.max_uses,
            r.expires_at == self.expires_at,
    {
        InviteResponse {
            code: self.code.clone(),
            tournament_id: self.tournament_id,
            max_uses: self.max_uses,
            expires_at: self.expires_at,
        }
    }
}

/// Why redeeming `invite` (what the code looked up, if anything) with
/// `display_name` to join `tournament_id` at `now` fails, checked in this
/// order; `Ok` when it may go ahead.
pub open spec fn join_verdict(
    display_name: Seq<char>,
    invite: Option<TournamentInvite>,
    tournament_id: ObjectId,
    now: int,
) -> Result<(), TournamentError> {
    if is_blank(display_name) {
        Err(TournamentError::EmptyDisplayName)
    } else {
        match invite {
            None => Err(TournamentError::InvalidInviteCode),
            Some(inv) => if inv.tournament_id != tournament_id {
                Err(TournamentError::InviteTournamentMismatch)
            } else if now > inv.expires_at {
                Err(TournamentError::InviteExpired)
            } else if inv.current_uses >= inv.max_uses {
                Err(TournamentError::InviteExhausted)
            } else {
                Ok(())
            },
        }
    }
}

/// Decides whether someone named `display_name` may join `tournament_id` at
/// `now` with `invite`, the invite that their code looked up (`None` when the
/// code is unknown).
pub fn validate_join(
    display_name: &str,
    invite: Option<&TournamentInvite>,
    tournament_id: ObjectId,
    now: i64,
) -> (r: Result<(), TournamentError>)
    ensures
        r == join_verdict(
            display_name@,
            match invite {
                Some(i) => Some(*i),
                None => None,
            },
            tournament_id,
            now as int,
        ),
        r is Ok ==> (invite matches Some(i) && i.admits(tournament_id, now as int)),
{
    if blank(display_name) {
        return Err(TournamentError::EmptyDisplayName);
    }
    match invite {
        None => Err(TournamentError::InvalidInviteCode),
        Some(inv) => {
            if inv.tournament_id != tournament_id {
                Err(TournamentError::InviteTournamentMismatch)
            } else if now > inv.expires_at {
                Err(TournamentError::InviteExpired)
            } else if inv.current_uses >= inv.max_uses {
                Err(TournamentError::InviteExhausted)
            } else {
                Ok(())
            }
        },
    }
}

/// Admits the holder of anonymous session `session_id` as a participant named
/// `display_name`, and counts one more use of `invite`.
pub fn redeem_invite(
    tournament: &mut Tournament,
    invite: &mut TournamentInvite,
    session_id: String,
    display_name: String,
)
    requires
        old(invite).current_uses < old(invite).max_uses,
    ensures
        final(tournament).users@.len() == old(tournament).users@.len() + 1,
        final(tournament).users@.drop_last() == old(tournament).users@,
        final(tournament).users@.last().voter_id@ == VoterView::Anonymous(session_id@),
        final(tournament).users@.last().name == display_name,
        *final(tournament) == (Tournament { users: final(tournament).users, ..*old(tournament) }),
        old(tournament).wf() ==> final(tournament).wf(),
        final(invite).current_uses == old(invite).current_uses + 1,
        final(invite).wf(),
        *final(invite) == (TournamentInvite {
            current_uses: final(invite).current_uses,
            ..*old(invite)
        }),
{
    tournament.users.push(
        TournamentUser { voter_id: VoterId::Anonymous(session_id), name: display_name },
    );
    invite.current_uses = invite.current_uses + 1;
    assert(tournament.users@.drop_last() =~= old(tournament).users@);
    proof {
        if old(tournament).wf() {
            lemma_more_users_keep_votes(*old(tournament), *tournament);
        }
    }
}

} // verus!
