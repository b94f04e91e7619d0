//! Liveness and readiness probes.
use vstd::prelude::*;
use vstd::string::StringExecFns;
use crate::error::Status;
use crate::route::{Method, Route, DEFAULT_RANK};

verus! {

#[derive(Debug)]
pub struct HealthResponse {
    pub status: String,
    pub database: Option<String>,
}

/// The process is up; the database is not consulted.
pub fn liveness() -> (r: HealthResponse)
    ensures
        r.status@ == "ok"@,
        r.database is None,
{
    HealthResponse { status: String::from_str("ok"), database: None }
}

/// The service is ready when the database answered (`database_reachable`).
pub fn readiness(database_reachable: bool) -> (r: Result<HealthResponse, Status>)
    ensures
        database_reachable <==> r is Ok,
        r matches Ok(h) ==> h.status@ == "ok"@,
        r matches Ok(h) ==> (h.database matches Some(d) && d@ == "connected"@),
        r matches Err(s) ==> s == Status::ServiceUnavailable,
{
    if database_reachable {
        Ok(HealthResponse { status: String::from_str("ok"), database: Some(String::from_str("connected")) })
    } else {
        Err(Status::ServiceUnavailable)
    }
}

/// The probes: `GET /live` and `GET /ready`.
pub fn routes() -> (r: Vec<Route>)
    ensures
        r@.len() == 2,
        r@[0].method == Method::Get && r@[0].path@ == "/live"@,
        r@[1].method == Method::Get && r@[1].path@ == "/ready"@,
{
    let mut r: Vec<Route> = Vec::new();
    r.push(Route { method: Method::Get, path: String::from_str("/live"), rank: DEFAULT_RANK });
    r.push(Route { method: Method::Get, path: String::from_str("/ready"), rank: DEFAULT_RANK });
    r
}

} // verus!
