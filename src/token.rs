//! The credential: an access grant with the instant at which it stops being
//! usable, and the grace window that retires it early.
use vstd::prelude::*;

verus! {

/// Seconds before the expiry instant from which a credential counts as expired.
pub const GRACE_SECONDS: i64 = 30;

/// A credential held by the client. `valid_until` is a Unix timestamp in
/// seconds, recomputed on every acquisition; `None` means never computed.
#[derive(Debug, Clone)]
pub struct Token {
    pub access_token: String,
    pub token_type: String,
    pub expires_in: i64,
    pub refresh_token: String,
    pub scope: String,
    pub id_token: String,
    pub valid_until: Option<i64>,
}

/// A credential with expiry `valid_until` is expired at `now` when the grace
/// window reaches the expiry instant; one without expiry always is.
pub open spec fn expired_at(valid_until: Option<i64>, now: int) -> bool {
    match valid_until {
        None => true,
        Some(t) => now + GRACE_SECONDS >= t,
    }
}

/// The expiry instant of a credential issued at `now` for `lifetime` seconds,
/// or `None` where that instant cannot be represented.
pub open spec fn expiry_after(now: int, lifetime: int) -> Option<i64> {
    if i64::MIN <= now + lifetime <= i64::MAX {
        Some((now + lifetime) as i64)
    } else {
        None
    }
}

/// A credential as issued at `now`: its expiry instant recomputed from its
/// lifetime, every other field kept.
pub open spec fn issued(t: Token, now: int) -> Token {
    Token { valid_until: expiry_after(now, t.expires_in as int), ..t }
}

impl Token {
    /// Whether the credential is unusable at time `now` (Unix seconds).
    pub fn is_expired(&self, now: i64) -> (r: bool)
        ensures
            r == expired_at(self.valid_until, now as int),
    {
        match self.valid_until {
            None => true,
            Some(t) => (now as i128) + (GRACE_SECONDS as i128) >= (t as i128),
        }
    }

    /// The same credential with its expiry recomputed for acquisition at `now`.
    pub fn issued_at(self, now: i64) -> (r: Token)
        ensures
            r == issued(self, now as int),
    {
        let valid_until = now.checked_add(self.expires_in);
        Token { valid_until, ..self }
    }
}

} // verus!
