//! Admission of live viewers: which tokens may open a connection, and the
//! socket endpoint.
use vstd::prelude::*;
use vstd::string::StringExecFns;
use crate::auth::{AnonymousClaims, JwtClaims};
use crate::error::Status;
use crate::ids::{hex_number, is_object_id_text, parse_object_id, ObjectId};
use crate::route::{Method, Route, DEFAULT_RANK};

verus! {

/// A token opens a connection when it verified as a registered user's access
/// token, or as an anonymous participant's token.
pub open spec fn token_admits(access: Option<JwtClaims>, anonymous: Option<AnonymousClaims>) -> bool {
    (access matches Some(c) && c.token_type@ == "access"@) || anonymous is Some
}

/// Decides on a token from what verifying it gave: `access` as a registered
/// user's token, `anonymous` as an anonymous participant's token.
pub fn validate_token(access: &Option<JwtClaims>, anonymous: &Option<AnonymousClaims>) -> (r:
    Result<(), String>)
    ensures
        r is Ok <==> token_admits(*access, *anonymous),
        r matches Err(e) ==> e@ == "Invalid token"@,
{
    if let Some(c) = access {
        if c.token_type == String::from_str("access") {
            return Ok(());
        }
    }
    if anonymous.is_some() {
        return Ok(());
    }
    Err(String::from_str("Invalid token"))
}

/// Decides on a connection request for room `tournament_id` whose token was
/// `token_accepted` or not: a malformed id is a bad request, a refused token
/// is unauthorized.
pub fn open_connection(tournament_id: &str, token_accepted: bool) -> (r: Result<ObjectId, Status>)
    ensures
        !is_object_id_text(tournament_id@) ==> r == Err::<ObjectId, Status>(Status::BadRequest),
        is_object_id_text(tournament_id@) && !token_accepted ==> r == Err::<ObjectId, Status>(
            Status::Unauthorized,
        ),
        is_object_id_text(tournament_id@) && token_accepted ==> r is Ok,
        r matches Ok(id) ==> (token_accepted && id.high == hex_number(tournament_id@.subrange(0, 8))
            && id.low == hex_number(tournament_id@.subrange(8, 24))),
{
    match parse_object_id(tournament_id) {
        None => Err(Status::BadRequest),
        Some(id) => if token_accepted {
            Ok(id)
        } else {
            Err(Status::Unauthorized)
        },
    }
}

/// The socket endpoint, `GET /tournaments/<tournament_id>?<token>`.
pub fn routes() -> (r: Vec<Route>)
    ensures
        r@.len() == 1,
        r@[0].method == Method::Get,
        r@[0].path@ == "/tournaments/<tournament_id>?<token>"@,
{
    let mut r: Vec<Route> = Vec::new();
    r.push(
        Route {
            method: Method::Get,
            path: String::from_str("/tournaments/<tournament_id>?<token>"),
            rank: DEFAULT_RANK,
        },
    );
    r
}

} // verus!
