//! Opening a connection: the token comes in the query string, and the user it
//! stands for gets a session.

use crate::actors::session::{Nanos, SessionModel, SessionState, WebSocketSession};
use crate::ids::{uuid_parsed, Id};
use crate::models::Claims;
use crate::text::{
    chars_of, find_char, find_char_bounds, has_prefix_at, position_of, starts_with_at,
};
use vstd::prelude::*;
use vstd::string::StrSliceExecFns;

verus! {

/// The token in the part of a query string that begins at `start`, `start`
/// being where one of its `&`-separated pieces begins.
///
/// The first piece that begins with `token=` counts. Its token is what
/// stands between that `=` and the next `=` of the piece, or the end of the
/// piece. Where no piece begins so, the token is empty.
pub open spec fn token_in(query: Seq<char>, start: int) -> Seq<char>
    decreases query.len() - start,
{
    if start < 0 || start > query.len() {
        Seq::empty()
    } else {
        let end = find_char(query, '&', start);
        if has_prefix_at(query, start, "token="@) {
            let stop = find_char(query, '=', start + 6);
            query.subrange(
                start + 6,
                if stop < end {
                    stop
                } else {
                    end
                },
            )
        } else if end >= query.len() {
            Seq::empty()
        } else {
            proof {
                find_char_bounds(query, '&', start);
            }
            token_in(query, end + 1)
        }
    }
}

/// The token that a query string carries.
pub open spec fn query_token(query: Seq<char>) -> Seq<char> {
    token_in(query, 0)
}

/// Takes the token out of a query string.
pub fn token_from_query(query: &str) -> (token: &str)
    ensures
        token@ == query_token(query@),
{
    proof {
        reveal_strlit("token=");
    }
    let chars = chars_of(query);
    let key = chars_of("token=");
    let mut start: usize = 0;
    loop
        invariant
            start <= chars.len(),
            chars@ == query@,
            key@ == "token="@,
            "token="@.len() == 6,
            "token="@[0] == 't',
            "token="@[1] == 'o',
            "token="@[2] == 'k',
            "token="@[3] == 'e',
            "token="@[4] == 'n',
            "token="@[5] == '=',
            token_in(query@, 0) == token_in(query@, start as int),
        decreases chars.len() - start,
    {
        let end = position_of(&chars, '&', start);
        if starts_with_at(&chars, start, &key) {
            proof {
                find_char_bounds(query@, '&', start as int);
                if end < start + 6 {
                    let piece = query@.subrange(start as int, start + 6);
                    assert(piece[end - start] == query@[end as int]);
                }
            }
            let stop = position_of(&chars, '=', start + 6);
            let stop = if stop < end {
                stop
            } else {
                end
            };
            return query.substring_char(start + 6, stop);
        }
        if end >= chars.len() {
            return query.substring_char(0, 0);
        }
        start = end + 1;
    }
}

/// How an attempt to open a connection ends.
#[derive(Debug, PartialEq, Eq)]
pub enum Handshake {
    /// The token is valid and names a user: the connection gets this
    /// session.
    Accepted(WebSocketSession),
    /// There is no valid token: the request is answered with 401.
    Unauthorized,
    /// The token is valid, but its subject is not the identifier of a user.
    BadSubject,
}

/// Opens a session at `now` for the user that the subject of a valid token
/// names; `user_id` is `None` where the subject names none.
pub fn open_session(user_id: Option<Id>, now: Nanos) -> (handshake: Handshake)
    ensures
        match user_id {
            None => handshake is BadSubject,
            Some(user_id) => handshake matches Handshake::Accepted(session) && session@ == (
            SessionModel { user_id, hb: now, state: SessionState::Connecting }),
        },
{
    match user_id {
        None => Handshake::BadSubject,
        Some(user_id) => Handshake::Accepted(WebSocketSession::new(user_id, now)),
    }
}

/// Answers a request to open a connection at `now`; `claims` are the claims
/// of the token that the request carried, and `None` where it carried no
/// valid token.
pub fn ws_connect(claims: Option<Claims>, now: Nanos) -> (handshake: Handshake)
    ensures
        match claims {
            None => handshake is Unauthorized,
            Some(claims) => match uuid_parsed(claims.sub@) {
                None => handshake is BadSubject,
                Some(user_id) => handshake matches Handshake::Accepted(session) && session@ == (
                SessionModel { user_id, hb: now, state: SessionState::Connecting }),
            },
        },
{
    match claims {
        None => Handshake::Unauthorized,
        Some(claims) => open_session(claims.user_id(), now),
    }
}

} // verus!
