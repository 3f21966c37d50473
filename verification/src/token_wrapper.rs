//! The decoded session token of the token-freshness path: the claims
//! the agent reads from a JWT, and the expiry test against a margin.
use vstd::prelude::*;

verus! {

/// How many seconds before its stated expiry a token is already treated
/// as expired.
pub const EXPIRATION_MARGIN: u64 = 300;

/// The claims the agent reads from a token: issue and expiry times as
/// seconds since the epoch.
#[derive(Clone, Copy, Debug, PartialEq, Eq, Structural)]
pub struct TokenInfo {
    pub iat: u64,
    pub exp: u64,
}

/// The claims a JWT's payload decodes to, if it decodes at all.
pub uninterp spec fn jwt_claims_of(s: Seq<char>) -> Option<TokenInfo>;

/// Relies on nullnet_libtoken's Token::from_jwt: splitting the JWT on
/// dots, base64-decoding the payload and reading its claims; the result
/// depends on the string alone.
#[verifier::external_body]
fn parse_jwt(jwt: &str) -> (r: Result<TokenInfo, String>)
    ensures
        match r {
            Ok(info) => jwt_claims_of(jwt@) == Some(info),
            Err(_) => jwt_claims_of(jwt@) is None,
        },
{
    match nullnet_libtoken::Token::from_jwt(jwt) {
        Ok(t) => Ok(TokenInfo { iat: t.iat, exp: t.exp }),
        Err(e) => Err(e),
    }
}

/// A session token together with the claims decoded from it.
pub struct TokenWrapper {
    pub jwt: String,
    pub info: TokenInfo,
}

impl TokenWrapper {
    /// Decodes a JWT; succeeds exactly when its payload decodes, and
    /// then carries the decoded claims beside the raw token.
    pub fn from_jwt(jwt: String) -> (r: Result<Self, String>)
        ensures
            match r {
                Ok(w) => w.jwt@ == jwt@ && jwt_claims_of(jwt@) == Some(w.info),
                Err(_) => jwt_claims_of(jwt@) is None,
            },
            r is Ok <==> jwt_claims_of(jwt@) is Some,
    {
        let info = match parse_jwt(jwt.as_str()) {
            Ok(info) => info,
            Err(e) => {
                return Err(e);
            },
        };
        Ok(TokenWrapper { jwt, info })
    }

    /// Whether the token is expired at the given time (seconds since the
    /// epoch), counting it expired a margin before its stated expiry.
    pub fn is_expired(&self, now_secs: u64) -> (b: bool)
        requires
            now_secs >= EXPIRATION_MARGIN,
        ensures
            b == (self.info.exp <= now_secs - EXPIRATION_MARGIN),
    {
        self.info.exp <= now_secs - EXPIRATION_MARGIN
    }
}

} // verus!
