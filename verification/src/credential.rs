//! The access credential and its expiry. A request must never be issued
//! with an expired credential; the expiry recorded at refresh is pulled a
//! fixed safety margin earlier than the reported lifetime, to avoid races
//! with clock skew and in-flight requests.

use vstd::prelude::*;

verus! {

/// How many seconds before the reported end of a token's lifetime the
/// client already treats it as expired.
pub const AUTH_SAFETY_MARGIN_SECS: u64 = 10;

/// What a successful token exchange reports: the token itself and its
/// lifetime in seconds.
#[derive(Clone, Debug, PartialEq)]
pub struct TokenInfo {
    pub access_token: String,
    pub expires_in: u64,
}

/// The access credential: the token and the instant (seconds on the
/// client's clock) at which the client stops trusting it.
#[derive(Clone, Debug)]
pub struct Credential {
    pub token: String,
    pub expiry: u64,
}

/// The expiry recorded for a token obtained at `now` with the reported
/// lifetime: the reported end of life, pulled the safety margin earlier
/// (never before the clock's zero).
pub open spec fn spec_token_expiry(now: u64, expires_in: u64) -> u64 {
    if now + expires_in >= AUTH_SAFETY_MARGIN_SECS {
        ((now + expires_in) - AUTH_SAFETY_MARGIN_SECS) as u64
    } else {
        0
    }
}

/// Computes the expiry instant for a token obtained at `now`.
pub fn token_expiry(now: u64, expires_in: u64) -> (r: u64)
    requires
        now + expires_in <= u64::MAX,
    ensures
        r == spec_token_expiry(now, expires_in),
{
    let end = now + expires_in;
    if end >= AUTH_SAFETY_MARGIN_SECS {
        end - AUTH_SAFETY_MARGIN_SECS
    } else {
        0
    }
}

impl Credential {
    /// A credential built from a fresh token exchange completed at `now`.
    pub fn from_token_info(info: TokenInfo, now: u64) -> (c: Credential)
        requires
            now + info.expires_in <= u64::MAX,
        ensures
            c.token == info.access_token,
            c.expiry == spec_token_expiry(now, info.expires_in),
    {
        let expiry = token_expiry(now, info.expires_in);
        Credential { token: info.access_token, expiry }
    }

    /// Whether the credential may still authorize a request at `now`: true
    /// exactly up to the recorded expiry, false strictly after it.
    pub fn is_valid(&self, now: u64) -> (r: bool)
        ensures
            r == (now <= self.expiry),
    {
        now <= self.expiry
    }
}

/// Refreshing at `now` with a lifetime longer than the safety margin always
/// records an expiry strictly in the future relative to the refresh's own
/// completion time.
pub proof fn lemma_refresh_expiry_in_future(now: u64, expires_in: u64)
    requires
        now + expires_in <= u64::MAX,
        expires_in > AUTH_SAFETY_MARGIN_SECS,
    ensures
        spec_token_expiry(now, expires_in) > now,
{
}

} // verus!
