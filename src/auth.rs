//! Credentials and the claims that tokens carry.
use vstd::prelude::*;

verus! {

#[derive(Debug)]
pub struct LoginDto {
    pub email: String,
    pub password: String,
}

/// The claims of a registered user's token.
#[derive(Clone, Debug)]
pub struct JwtClaims {
    pub sub: String,
    pub email: String,
    pub token_type: String,
    pub exp: i64,
    pub iat: i64,
}

/// The claims of an anonymous participant's token.
#[derive(Clone, Debug)]
pub struct AnonymousClaims {
    pub sub: String,
    pub tournament_id: String,
    pub display_name: String,
    pub token_type: String,
    pub exp: i64,
    pub iat: i64,
}

pub struct AuthConfig {
    pub jwt_secret: String,
}

} // verus!
