//! The credential bundle a successful refresh produces, and its expiry state.

use vstd::prelude::*;

use crate::clock;

verus! {

/// A bearer credential together with its expiry bookkeeping.
///
/// Exactly one of `expires_in` (a relative lifetime) and
/// `expires_in_timestamp` (an absolute epoch-seconds instant) is meant to be
/// authoritative for a given token; a refresh always fills the absolute
/// timestamp and leaves the relative field unset.
pub struct Token {
    /// The short-lived credential used to authenticate API calls.
    pub access_token: String,
    /// The credential scheme identifier, e.g. `Bearer`.
    pub token_type: String,
    /// The long-lived credential a new access token can be obtained with;
    /// carried forward unchanged across a refresh.
    pub refresh_token: String,
    /// Relative lifetime in seconds, as reported at first issuance.
    pub expires_in: Option<i64>,
    /// Absolute epoch-seconds instant after which `access_token` must be
    /// treated as expired.
    pub expires_in_timestamp: Option<i64>,
}

/// The mathematical model of a `Token`: its strings as character sequences,
/// its instants as unbounded integers.
pub struct TokenModel {
    pub access_token: Seq<char>,
    pub token_type: Seq<char>,
    pub refresh_token: Seq<char>,
    pub expires_in: Option<int>,
    pub expires_in_timestamp: Option<int>,
}

impl View for Token {
    type V = TokenModel;

    open spec fn view(&self) -> TokenModel {
        TokenModel {
            access_token: self.access_token@,
            token_type: self.token_type@,
            refresh_token: self.refresh_token@,
            expires_in: match self.expires_in {
                Some(v) => Some(v as int),
                None => None,
            },
            expires_in_timestamp: match self.expires_in_timestamp {
                Some(v) => Some(v as int),
                None => None,
            },
        }
    }
}

/// A token with an absolute expiry instant is expired exactly when `now` has
/// reached that instant; one without an absolute instant is never reported
/// expired by this comparison.
pub open spec fn is_expired_at(token: TokenModel, now: int) -> bool {
    match token.expires_in_timestamp {
        Some(ts) => now >= ts,
        None => false,
    }
}

impl Token {
    /// Whether the access token must be treated as expired at the instant
    /// `now` (epoch seconds). The boundary case `now == expires_in_timestamp`
    /// counts as expired.
    pub fn expired_at(&self, now: i64) -> (r: bool)
        ensures
            r == is_expired_at(self@, now as int),
    {
        match self.expires_in_timestamp {
            Some(ts) => now >= ts,
            None => false,
        }
    }

    /// Whether the access token must be treated as expired at the current
    /// wall-clock time. The clock is read once; the comparison is
    /// `expired_at` on what it returned.
    pub fn expired(&self) -> (r: bool)
        ensures
            exists|now: int| r == is_expired_at(self@, now),
            self@.expires_in_timestamp is None ==> !r,
    {
        let now = clock::now_epoch_seconds();
        let r = self.expired_at(now);
        proof {
            assert(r == is_expired_at(self@, now as int));
        }
        r
    }
}

} // verus!
