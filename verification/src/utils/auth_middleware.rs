//! The guard in front of the protected routes: a request passes only with a
//! bearer token that stands for valid claims.

use crate::models::Claims;
use crate::text::{chars_of, has_prefix_at, starts_with_at};
use vstd::prelude::*;
use vstd::string::StrSliceExecFns;

verus! {

/// The token that an `Authorization` header carries: what follows the
/// scheme `Bearer` and one space. `None` where the header does not start so.
pub open spec fn bearer_of(header: Seq<char>) -> Option<Seq<char>> {
    if has_prefix_at(header, 0, "Bearer "@) {
        Some(header.subrange(7, header.len() as int))
    } else {
        None
    }
}

/// What the guard does with a request.
#[derive(Debug, PartialEq, Eq)]
pub enum Verdict {
    /// The request goes on to the service behind the guard, with these
    /// claims attached.
    Forward(Claims),
    /// The request is answered with 401 and the text of [`JwtAuth::REJECTION`].
    Unauthorized,
}

/// The guard itself. It holds nothing: what it decides depends on the
/// request alone.
#[derive(Clone, Copy, Debug)]
pub struct JwtAuth;

impl JwtAuth {
    /// The body of the answer to a request that is turned away.
    pub const REJECTION: &'static str = "Invalid or missing token";

    /// The token that the `Authorization` header of a request carries.
    pub fn bearer_token(header: &str) -> (token: Option<&str>)
        ensures
            match token {
                Some(token) => bearer_of(header@) == Some(token@),
                None => bearer_of(header@) is None,
            },
    {
        proof {
            reveal_strlit("Bearer ");
        }
        let chars = chars_of(header);
        let scheme = chars_of("Bearer ");
        if starts_with_at(&chars, 0, &scheme) {
            Some(header.substring_char(7, chars.len()))
        } else {
            None
        }
    }

    /// Decides on a request, given the claims that its token stood for, if
    /// it carried a token and the token was valid.
    pub fn decide(claims: Option<Claims>) -> (verdict: Verdict)
        ensures
            match claims {
                Some(claims) => verdict == Verdict::Forward(claims),
                None => verdict is Unauthorized,
            },
    {
        match claims {
            Some(claims) => Verdict::Forward(claims),
            None => Verdict::Unauthorized,
        }
    }
}

} // verus!
