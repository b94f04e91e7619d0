//! Service settings, and request identifiers.
use vstd::prelude::*;
use crate::runtime::{fresh_uuid, is_uuid_char};

verus! {

pub struct JwtConfig {
    pub secret: String,
}

pub struct AzureConfig {
    pub storage_account: String,
    pub access_key: String,
    pub container: String,
}

pub struct S3Config {
    pub region: String,
    pub access_key_id: String,
    pub secret_access_key: String,
    pub bucket: String,
}

/// Tags each request and its response with an identifier.
pub struct RequestIdFairing;

pub fn init() -> (r: RequestIdFairing)
    ensures
        r == RequestIdFairing,
{
    RequestIdFairing
}

impl RequestIdFairing {
    /// The identifier of a request: the one its `X-Request-Id` header carries,
    /// else a fresh UUID.
    pub fn request_id(&self, header: Option<String>) -> (r: String)
        ensures
            header matches Some(h) ==> r == h,
            header is None ==> r@.len() == 36,
            header is None ==> forall|i: int| 0 <= i < 36 ==> is_uuid_char(#[trigger] r@[i]),
    {
        match header {
            Some(h) => h,
            None => fresh_uuid(),
        }
    }
}

} // verus!
