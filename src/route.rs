//! Descriptions of the HTTP endpoints that each part of the service serves.
use vstd::prelude::*;

verus! {

#[derive(Clone, Copy, Debug, PartialEq, Eq, Structural)]
pub enum Method {
    Get,
    Post,
}

/// One endpoint: its method, its path pattern, and its rank among endpoints
/// whose paths collide (lower is tried first).
#[derive(Debug)]
pub struct Route {
    pub method: Method,
    pub path: String,
    pub rank: i32,
}

/// The rank that an endpoint gets unless it asks for another.
pub const DEFAULT_RANK: i32 = -1;

} // verus!
