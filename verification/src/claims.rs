//! The claim set carried inside a token.

use vstd::prelude::*;
use crate::clock::{unix_now, CLOCK_LIMIT};
use crate::decimal::{decimal, decimal_string, parse_i32, parse_i32_str, lemma_parse_decimal_of_decimal};

verus! {

/// Seconds in one hour of token lifetime.
pub const SECONDS_PER_HOUR: i64 = 3600;

/// The longest lifetime, in hours, that a claim set can be given.
pub const MAX_LIFETIME_HOURS: i64 = 2_562_047_788_015;

/// The payload of a token.
#[derive(Debug)]
pub struct Claims {
    /// Subject: the user's id in decimal notation.
    pub sub: String,
    /// Expiry instant, in seconds since the Unix epoch.
    pub exp: i64,
    /// Instant of issue, in seconds since the Unix epoch.
    pub iat: i64,
    /// The user's role when the claim set was made.
    pub role: String,
    /// The user's display name when the claim set was made.
    pub username: String,
}

/// A claim set as a mathematical value.
pub struct ClaimsView {
    pub sub: Seq<char>,
    pub exp: int,
    pub iat: int,
    pub role: Seq<char>,
    pub username: Seq<char>,
}

impl View for Claims {
    type V = ClaimsView;

    open spec fn view(&self) -> ClaimsView {
        ClaimsView {
            sub: self.sub@,
            exp: self.exp as int,
            iat: self.iat as int,
            role: self.role@,
            username: self.username@,
        }
    }
}

impl ClaimsView {
    /// The claim set expires after it was issued.
    pub open spec fn well_formed(self) -> bool {
        self.exp > self.iat
    }

    /// The claim set that a constructor makes at the instant `now`.
    pub open spec fn minted(
        user_id: int,
        username: Seq<char>,
        role: Seq<char>,
        hours: int,
        now: int,
    ) -> ClaimsView {
        ClaimsView {
            sub: decimal(user_id),
            exp: now + hours * SECONDS_PER_HOUR,
            iat: now,
            role,
            username,
        }
    }

    /// The same identity with a fresh window that opens at `now`.
    pub open spec fn renewed(self, hours: int, now: int) -> ClaimsView {
        ClaimsView {
            sub: self.sub,
            exp: now + hours * SECONDS_PER_HOUR,
            iat: now,
            role: self.role,
            username: self.username,
        }
    }

    /// The claim set has expired at the instant `now`.
    pub open spec fn expired_at(self, now: int) -> bool {
        now >= self.exp
    }

    /// The user id written in the subject; 0 where the subject is not a
    /// 32-bit decimal integer.
    pub open spec fn subject_id(self) -> int {
        match parse_i32(self.sub) {
            Some(id) => id as int,
            None => 0,
        }
    }
}

impl Clone for Claims {
    fn clone(&self) -> (copy: Self)
        ensures
            copy == *self,
    {
        Claims {
            sub: self.sub.clone(),
            exp: self.exp,
            iat: self.iat,
            role: self.role.clone(),
            username: self.username.clone(),
        }
    }
}

impl Claims {
    /// A claim set for the user `user_id`, issued at the instant the clock
    /// shows and expiring `expiration_hours` later.
    pub fn new(user_id: i32, username: String, role: String, expiration_hours: i64) -> (claims:
        Self)
        requires
            0 < expiration_hours <= MAX_LIFETIME_HOURS,
        ensures
            0 <= claims.iat < CLOCK_LIMIT,
            claims@ == ClaimsView::minted(
                user_id as int,
                username@,
                role@,
                expiration_hours as int,
                claims.iat as int,
            ),
            claims@.well_formed(),
    {
        let now: i64 = unix_now();
        Claims::new_at(user_id, username, role, expiration_hours, now)
    }

    /// A claim set for the user `user_id`, issued at `now` and expiring
    /// `expiration_hours` later.
    pub fn new_at(
        user_id: i32,
        username: String,
        role: String,
        expiration_hours: i64,
        now: i64,
    ) -> (claims: Self)
        requires
            0 < expiration_hours <= MAX_LIFETIME_HOURS,
            now + expiration_hours * SECONDS_PER_HOUR <= i64::MAX,
        ensures
            claims@ == ClaimsView::minted(
                user_id as int,
                username@,
                role@,
                expiration_hours as int,
                now as int,
            ),
            claims@.well_formed(),
    {
        Claims {
            sub: decimal_string(user_id),
            exp: now + expiration_hours * SECONDS_PER_HOUR,
            iat: now,
            role,
            username,
        }
    }

    /// The same subject, role and name in a fresh window that opens at `now`
    /// and closes `expiration_hours` later.
    pub fn renew_at(&self, expiration_hours: i64, now: i64) -> (claims: Self)
        requires
            0 < expiration_hours <= MAX_LIFETIME_HOURS,
            now + expiration_hours * SECONDS_PER_HOUR <= i64::MAX,
        ensures
            claims@ == self@.renewed(expiration_hours as int, now as int),
            claims@.well_formed(),
    {
        Claims {
            sub: self.sub.clone(),
            exp: now + expiration_hours * SECONDS_PER_HOUR,
            iat: now,
            role: self.role.clone(),
            username: self.username.clone(),
        }
    }

    /// Tells whether the claim set has expired at `now`: the expiry instant
    /// itself is already too late.
    pub fn is_expired_at(&self, now: i64) -> (expired: bool)
        ensures
            expired == self@.expired_at(now as int),
    {
        now >= self.exp
    }

    /// The user id written in the subject, or 0 where the subject is not a
    /// 32-bit decimal integer.
    pub fn subject_id(&self) -> (id: i32)
        ensures
            id == self@.subject_id(),
    {
        match parse_i32_str(self.sub.as_str()) {
            Some(id) => id,
            None => 0,
        }
    }
}

/// The subject of a freshly made claim set reads back as the user's id.
pub proof fn lemma_minted_subject_id(
    user_id: i32,
    username: Seq<char>,
    role: Seq<char>,
    hours: int,
    now: int,
)
    ensures
        ClaimsView::minted(user_id as int, username, role, hours, now).subject_id() == user_id,
{
    lemma_parse_decimal_of_decimal(user_id as int);
}

/// A renewed claim set keeps subject, role and name, and opens at `now`.
pub proof fn lemma_renewed_keeps_identity(c: ClaimsView, hours: int, now: int)
    requires
        hours > 0,
    ensures
        c.renewed(hours, now).sub == c.sub,
        c.renewed(hours, now).role == c.role,
        c.renewed(hours, now).username == c.username,
        c.renewed(hours, now).iat == now,
        c.renewed(hours, now).well_formed(),
{
}

} // verus!
