//! What goes into a token.

use crate::ids::{parse_uuid, uuid_parsed, Id};
use crate::models::Claims;
use vstd::prelude::*;

verus! {

/// For how long a token is good: 72 hours, in seconds.
pub const TOKEN_LIFETIME: i64 = 259_200;

impl Claims {
    /// The claims of a token issued to `user_id` at `now`, in seconds since
    /// the Unix epoch: the token expires 72 hours later. `None` where that
    /// moment lies before the epoch or beyond what an expiry can hold.
    pub fn issue(user_id: &str, now: i64) -> (claims: Option<Claims>)
        ensures
            match claims {
                Some(claims) => claims.sub@ == user_id@ && claims.exp == now + TOKEN_LIFETIME,
                None => now + TOKEN_LIFETIME < 0 || now + TOKEN_LIFETIME > usize::MAX,
            },
    {
        let expiry: i128 = now as i128 + TOKEN_LIFETIME as i128;
        if expiry < 0 || expiry > usize::MAX as i128 {
            return None;
        }
        Some(Claims { sub: user_id.to_owned(), exp: expiry as usize })
    }

    /// The user that the claims name: the subject read as a UUID.
    pub fn user_id(&self) -> (user_id: Option<Id>)
        ensures
            user_id == uuid_parsed(self.sub@),
    {
        parse_uuid(self.sub.as_str())
    }
}

} // verus!
