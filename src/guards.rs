//! Who is calling: the bearer token of a request, and the identity its
//! verified claims establish.
use vstd::prelude::*;
use vstd::string::{StrSliceExecFns, StringExecFns};
use crate::auth::{AnonymousClaims, JwtClaims};
use crate::error::Error;
use crate::ids::{hex_number, is_object_id_text, parse_object_id, ObjectId, VoterId, VoterView};

verus! {

/// A registered user, authenticated by an access token.
#[derive(Debug)]
pub struct AuthenticatedUser {
    pub user_id: ObjectId,
    pub email: String,
}

/// Anyone entitled to take part in a tournament.
#[derive(Debug)]
pub enum TournamentParticipant {
    Registered { user_id: ObjectId, email: String },
    Anonymous { session_id: String, tournament_id: ObjectId, display_name: String },
}

/// The identifier that `s` names, when it names one.
pub open spec fn named_id(s: Seq<char>) -> ObjectId {
    ObjectId { high: hex_number(s.subrange(0, 8)) as u32, low: hex_number(s.subrange(8, 24)) as u64 }
}

impl TournamentParticipant {
    pub fn voter_id(&self) -> (r: VoterId)
        ensures
            r@ == match self {
                TournamentParticipant::Registered { user_id, .. } => VoterView::Registered(*user_id),
                TournamentParticipant::Anonymous { session_id, .. } => VoterView::Anonymous(
                    session_id@,
                ),
            },
    {
        match self {
            TournamentParticipant::Registered { user_id, .. } => VoterId::Registered(*user_id),
            TournamentParticipant::Anonymous { session_id, .. } => VoterId::Anonymous(
                session_id.clone(),
            ),
        }
    }
}

/// `r` is a refusal as unauthorized, with the message `msg`.
pub open spec fn refused<T>(r: Result<T, Error>, msg: Seq<char>) -> bool {
    match r {
        Err(Error::Unauthorized(m)) => m@ == msg,
        _ => false,
    }
}

/// The prefix of an `Authorization` header that carries a bearer token.
pub open spec fn bearer_prefix() -> Seq<char> {
    "Bearer "@
}

/// The token of an `Authorization` header of the form `Bearer <token>`.
pub fn bearer_token(header: &str) -> (r: Option<String>)
    ensures
        r is Some <==> (header@.len() >= 7 && header@.subrange(0, 7) == bearer_prefix()),
        r matches Some(t) ==> t@ == header@.subrange(7, header@.len() as int),
{
    let prefix = "Bearer ";
    proof {
        reveal_strlit("Bearer ");
        assert(bearer_prefix().len() == 7);
    }
    let n: usize = header.unicode_len();
    if n < 7 {
        return None;
    }
    let mut i: usize = 0;
    while i < 7
        invariant
            n == header@.len(),
            n >= 7,
            prefix@ == bearer_prefix(),
            bearer_prefix().len() == 7,
            i <= 7,
            forall|j: int| 0 <= j < i ==> header@[j] == bearer_prefix()[j],
        decreases 7 - i,
    {
        if header.get_char(i) != prefix.get_char(i) {
            return None;
        }
        i = i + 1;
    }
    assert(header@.subrange(0, 7) =~= bearer_prefix());
    Some(String::from_str(header.substring_char(7, n)))
}

fn is_access(claims: &JwtClaims) -> (r: bool)
    ensures
        r == (claims.token_type@ == "access"@),
{
    claims.token_type == String::from_str("access")
}

/// Authenticates a registered user from what verifying their token gave
/// (`None` when it did not verify): only an access token whose subject names
/// a user is accepted.
pub fn authenticate_user(claims: Option<JwtClaims>) -> (r: Result<AuthenticatedUser, Error>)
    ensures
        claims is None ==> refused(r, "Invalid token"@),
        claims matches Some(c) ==> (c.token_type@ != "access"@ ==> refused(
            r,
            "Invalid token type: expected access token"@,
        )),
        claims matches Some(c) ==> (c.token_type@ == "access"@ && !is_object_id_text(c.sub@)
            ==> refused(r, "Invalid user ID"@)),
        claims matches Some(c) ==> (c.token_type@ == "access"@ && is_object_id_text(c.sub@)
            ==> r is Ok),
        r matches Ok(u) ==> (claims matches Some(c) && c.token_type@ == "access"@
            && is_object_id_text(c.sub@) && u.user_id == named_id(c.sub@) && u.email == c.email),
{
    match claims {
        None => Err(Error::Unauthorized(String::from_str("Invalid token"))),
        Some(c) => {
            if !is_access(&c) {
                return Err(
                    Error::Unauthorized(
                        String::from_str("Invalid token type: expected access token"),
                    ),
                );
            }
            match parse_object_id(c.sub.as_str()) {
                Some(user_id) => Ok(AuthenticatedUser { user_id, email: c.email }),
                None => Err(Error::Unauthorized(String::from_str("Invalid user ID"))),
            }
        },
    }
}

/// Identifies a tournament participant from what verifying their token gave,
/// as a registered user's token (`access`) and as an anonymous participant's
/// token (`anonymous`); the registered reading is preferred.
pub fn identify_participant(access: Option<JwtClaims>, anonymous: Option<AnonymousClaims>) -> (r:
    Result<TournamentParticipant, Error>)
    ensures
        (access matches Some(c) && c.token_type@ == "access"@ && is_object_id_text(c.sub@))
            ==> (r matches Ok(TournamentParticipant::Registered { user_id, email }) && user_id
            == named_id(access->Some_0.sub@) && email == access->Some_0.email),
        !(access matches Some(c) && c.token_type@ == "access"@ && is_object_id_text(c.sub@)) ==> (
        anonymous matches Some(a) && is_object_id_text(a.tournament_id@) <==> r is Ok),
        !(access matches Some(c) && c.token_type@ == "access"@ && is_object_id_text(c.sub@)) ==> (
        r is Ok ==> r matches Ok(TournamentParticipant::Anonymous { .. })),
        r matches Ok(TournamentParticipant::Anonymous { session_id, tournament_id, display_name })
            ==> (anonymous matches Some(a) && session_id == a.sub && tournament_id == named_id(
            a.tournament_id@,
        ) && display_name == a.display_name),
        r is Err ==> refused(r, "Invalid token"@),
{
    if let Some(c) = access {
        if is_access(&c) {
            if let Some(user_id) = parse_object_id(c.sub.as_str()) {
                return Ok(TournamentParticipant::Registered { user_id, email: c.email });
            }
        }
    }
    if let Some(a) = anonymous {
        if let Some(tournament_id) = parse_object_id(a.tournament_id.as_str()) {
            return Ok(
                TournamentParticipant::Anonymous {
                    session_id: a.sub,
                    tournament_id,
                    display_name: a.display_name,
                },
            );
        }
    }
    Err(Error::Unauthorized(String::from_str("Invalid token")))
}

} // verus!
