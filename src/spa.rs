//! The single-page front end, served for every path that no other endpoint
//! takes.
use vstd::prelude::*;
use vstd::string::StringExecFns;
use crate::route::{Method, Route};

verus! {

/// Where the built front end lives.
pub const SPA_DIR: &'static str = "web/landing/out";

/// The file served for any path: client-side routing takes it from there.
pub const SPA_INDEX: &'static str = "index.html";

/// The rank of the catch-all, behind the API, probe and socket endpoints.
pub const FALLBACK_RANK: i32 = 20;

/// The catch-all `GET /<path..>`.
pub fn routes() -> (r: Vec<Route>)
    ensures
        r@.len() == 1,
        r@[0].method == Method::Get,
        r@[0].path@ == "/<_path..>"@,
        r@[0].rank == FALLBACK_RANK,
{
    let mut r: Vec<Route> = Vec::new();
    r.push(Route { method: Method::Get, path: String::from_str("/<_path..>"), rank: FALLBACK_RANK });
    r
}

} // verus!
