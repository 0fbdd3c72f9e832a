//! Tokens of authenticated sessions.

use core::time::Duration;
use std::time::SystemTime;
use vstd::prelude::*;
use crate::clock::{duration_nanos, time_nanos};

verus! {

/// A digit of a hexadecimal number, in lower case.
pub open spec fn lower_hex(c: char) -> bool {
    '0' <= c <= '9' || 'a' <= c <= 'f'
}

/// A random identifier as text: 32 hexadecimal digits in five groups that hyphens
/// part, the version and the variant among them.
pub open spec fn is_random_id(s: Seq<char>) -> bool {
    &&& s.len() == 36
    &&& forall|i: int|
        0 <= i < 36 ==> if i == 8 || i == 13 || i == 18 || i == 23 {
            #[trigger] s[i] == '-'
        } else {
            lower_hex(s[i])
        }
    &&& s[14] == '4'
    &&& s[19] == '8' || s[19] == '9' || s[19] == 'a' || s[19] == 'b'
}

/// `uuid::Uuid::new_v4`, as text: a random identifier. Nothing is claimed of which
/// one.
#[verifier::external_body]
pub(crate) fn random_id() -> (r: String)
    ensures
        is_random_id(r@),
{
    uuid::Uuid::new_v4().to_string()
}

/// The token of an authenticated session.
#[derive(Debug)]
pub struct SessionToken {
    token: String,
    username: String,
    created_at: SystemTime,
}

impl Clone for SessionToken {
    fn clone(&self) -> (r: Self)
        ensures
            r.token_text() == self.token_text(),
            r.user() == self.user(),
            r.born() == self.born(),
    {
        SessionToken {
            token: self.token.clone(),
            username: self.username.clone(),
            created_at: self.created_at,
        }
    }
}

/// Whether a token made at `born` is older than `max_age` nanoseconds at `now`, or is
/// from the future.
pub open spec fn expired(born: SystemTime, now: SystemTime, max_age: u128) -> bool {
    time_nanos(now) < time_nanos(born) || time_nanos(now) - time_nanos(born) > max_age
}

/// Whether a token of age `elapsed` is too old; one from the future is.
pub open spec fn is_past(elapsed: Option<u128>, max_age: u128) -> bool {
    match elapsed {
        Some(e) => e > max_age,
        None => true,
    }
}

/// Whether a token of age `elapsed` is too old.
pub fn past(elapsed: Option<u128>, max_age: u128) -> (r: bool)
    ensures
        r == is_past(elapsed, max_age),
{
    match elapsed {
        Some(e) => e > max_age,
        None => true,
    }
}

impl SessionToken {
    pub closed spec fn token_text(&self) -> Seq<char> {
        self.token@
    }

    pub closed spec fn user(&self) -> Seq<char> {
        self.username@
    }

    /// When the token was made.
    pub closed spec fn born(&self) -> SystemTime {
        self.created_at
    }

    /// A new token for a user.
    pub fn new(username: String) -> (r: Self)
        ensures
            is_random_id(r.token_text()),
            r.user() == username@,
    {
        SessionToken { token: random_id(), username, created_at: SystemTime::now() }
    }

    /// The token's text.
    pub fn token(&self) -> (r: &str)
        ensures
            r@ == self.token_text(),
    {
        self.token.as_str()
    }

    /// The user of the session.
    pub fn username(&self) -> (r: &str)
        ensures
            r@ == self.user(),
    {
        self.username.as_str()
    }

    /// Whether the token is too old at `now`; one from the future is, since the clock
    /// was set back.
    pub fn is_expired_at(&self, now: SystemTime, max_age: Duration) -> (r: bool)
        ensures
            r == expired(self.born(), now, duration_nanos(max_age)),
    {
        let elapsed = match now.duration_since(self.created_at) {
            Ok(e) => Some(e.as_nanos()),
            Err(_) => None,
        };
        past(elapsed, max_age.as_nanos())
    }

    /// Whether the token is too old by the system clock.
    pub fn is_expired(&self, max_age: Duration) -> (r: bool)
        ensures
            exists|now: SystemTime| r == expired(self.born(), now, duration_nanos(max_age)),
    {
        let now = SystemTime::now();
        let r = self.is_expired_at(now, max_age);
        assert(r == expired(self.born(), now, duration_nanos(max_age)));
        r
    }
}

/// A token that has expired stays expired as time goes on, and one that is kept for
/// longer expires no sooner.
pub proof fn expiry_is_final(born: SystemTime, now: SystemTime, later: SystemTime, a: u128, b: u128)
    requires
        time_nanos(born) <= time_nanos(now) <= time_nanos(later),
        a <= b,
    ensures
        expired(born, now, a) ==> expired(born, later, a),
        expired(born, now, b) ==> expired(born, now, a),
{
}

/// A token is good from the time it was made until it is exactly as old as allowed, and
/// neither before nor after.
pub proof fn tokens_are_good_for_their_age(born: SystemTime, now: SystemTime, max_age: u128)
    ensures
        !expired(born, now, max_age) <==> time_nanos(born) <= time_nanos(now) <= time_nanos(born)
            + max_age,
        is_past(None, max_age),
        !is_past(Some(max_age), max_age),
        max_age < u128::MAX ==> is_past(Some((max_age + 1) as u128), max_age),
        forall|e: u128| #[trigger] is_past(Some(e), max_age) <==> e > max_age,
        time_nanos(born) <= time_nanos(now) <= u128::MAX + time_nanos(born) ==> expired(
            born,
            now,
            max_age,
        ) == is_past(Some((time_nanos(now) - time_nanos(born)) as u128), max_age),
{
}

} // verus!
