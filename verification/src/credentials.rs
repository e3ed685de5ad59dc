//! The credential record: access and refresh tokens for one account, with an
//! optional expiry time, measured in whole seconds since the Unix epoch.

use vstd::prelude::*;

verus! {

/// Mathematical image of a [`Credentials`] value.
pub struct CredentialsView {
    pub username: Seq<char>,
    pub access_token: Seq<char>,
    pub refresh_token: Seq<char>,
    pub token_expiry_time: Option<u64>,
}

/// A record of the tokens held for one account. The expiry time, when
/// present, is the number of whole seconds since the Unix epoch after which
/// the access token stops being accepted.
#[derive(Debug, PartialEq, Eq)]
pub struct Credentials {
    pub username: String,
    pub access_token: String,
    pub refresh_token: String,
    pub token_expiry_time: Option<u64>,
}

impl Clone for Credentials {
    fn clone(&self) -> (r: Self)
        ensures
            r == *self,
    {
        Credentials {
            username: self.username.clone(),
            access_token: self.access_token.clone(),
            refresh_token: self.refresh_token.clone(),
            token_expiry_time: self.token_expiry_time,
        }
    }
}

impl View for Credentials {
    type V = CredentialsView;

    open spec fn view(&self) -> CredentialsView {
        CredentialsView {
            username: self.username@,
            access_token: self.access_token@,
            refresh_token: self.refresh_token@,
            token_expiry_time: self.token_expiry_time,
        }
    }
}

/// A credential with no expiry recorded counts as expired; otherwise it is
/// expired exactly when the clock has moved strictly past the expiry time.
pub open spec fn spec_token_expired(c: CredentialsView, now: u64) -> bool {
    match c.token_expiry_time {
        Some(expiry) => now > expiry,
        None => true,
    }
}

/// Relies on std's `SystemTime::now` and `duration_since(UNIX_EPOCH)`:
/// the wall clock, read as whole seconds since the Unix epoch. A clock set
/// before the epoch reads as zero. Nothing further can be promised of a
/// clock reading.
#[verifier::external_body]
pub fn now_seconds() -> u64 {
    match std::time::SystemTime::now().duration_since(std::time::UNIX_EPOCH) {
        Ok(d) => d.as_secs(),
        Err(_) => 0,
    }
}

impl Credentials {
    /// Whether the record is expired at the instant `now` (seconds since the
    /// Unix epoch): always when no expiry is recorded, and otherwise exactly
    /// when `now` is strictly past the recorded expiry.
    pub fn token_expired_at(&self, now: u64) -> (r: bool)
        ensures
            r == spec_token_expired(self@, now),
    {
        match self.token_expiry_time {
            Some(expiry) => now > expiry,
            None => true,
        }
    }

    /// Whether the record is expired right now, by the wall clock. A record
    /// without an expiry time is expired whatever the clock says.
    pub fn token_expired(&self) -> (r: bool)
        ensures
            self@.token_expiry_time is None ==> r,
    {
        let now = now_seconds();
        self.token_expired_at(now)
    }
}

} // verus!
