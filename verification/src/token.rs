use vstd::prelude::*;

use crate::structures::Claims;

verus! {

/// How long a token lives, in seconds: 9999999 days.
pub const TOKEN_LIFETIME_SECS: i64 = 863999913600;

/// The last second that `chrono` can represent, 262142-12-31T23:59:59 UTC.
pub const LAST_TIMESTAMP: i64 = 8210266876799;

/// A token lives 9999999 days of 24 hours, and the latest issue time is
/// that lifetime before the last representable second.
pub proof fn lemma_token_lifetime()
    ensures
        TOKEN_LIFETIME_SECS == 9999999 * 24 * 60 * 60,
        LAST_TIMESTAMP - TOKEN_LIFETIME_SECS == 7346266963199,
{
}

/// The expiry of a token issued at `now` (seconds since the epoch): `now`
/// plus 9999999 days, as a `usize`.
pub fn token_expiry(now: i64) -> (exp: usize)
    requires
        now <= LAST_TIMESTAMP - TOKEN_LIFETIME_SECS,
    ensures
        exp == (now + TOKEN_LIFETIME_SECS) as usize,
{
    let later: i64 = now + TOKEN_LIFETIME_SECS;
    later as usize
}

/// The claims of a token issued at `now` for `username` and `password`.
pub fn make_claims(username: String, password: String, now: i64) -> (c: Claims)
    requires
        now <= LAST_TIMESTAMP - TOKEN_LIFETIME_SECS,
    ensures
        c.username == username,
        c.password == password,
        c.exp == (now + TOKEN_LIFETIME_SECS) as usize,
{
    Claims { username, password, exp: token_expiry(now) }
}

} // verus!
