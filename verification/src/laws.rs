//! Laws of the session resolver, stated over the same spec functions its
//! contracts use.

use vstd::prelude::*;

use crate::auth::{
    lemma_first_dot_at, spec_cookie_value, spec_resolve, spec_session_cookie_name, spec_token_of,
};
use crate::records::{CookiePair, SessionRecord, UserRecord};
use crate::store::{spec_find_session, spec_find_user};

verus! {

/// A request whose cookies hold no session cookie resolves to absence at
/// every time and against every pair of tables; through the gates'
/// contracts, both gates then treat the requester as unauthenticated.
pub proof fn lemma_missing_cookie_is_unauthenticated(
    jar: Seq<CookiePair>,
    now_millis: i64,
    sessions: Seq<SessionRecord>,
    users: Seq<UserRecord>,
)
    requires
        spec_cookie_value(jar, spec_session_cookie_name()) is None,
    ensures
        spec_resolve(jar, now_millis, sessions, users) is None,
{
}

/// A session whose expiry lies strictly before "now" resolves to absence,
/// even though its token matches the cookie and its user row exists.
pub proof fn lemma_expired_session_is_absent(
    jar: Seq<CookiePair>,
    now_millis: i64,
    sessions: Seq<SessionRecord>,
    users: Seq<UserRecord>,
    raw: Seq<char>,
    session: SessionRecord,
)
    requires
        spec_cookie_value(jar, spec_session_cookie_name()) == Some(raw),
        spec_find_session(sessions, spec_token_of(raw)) == Some(session),
        session.expires_at_millis < now_millis,
    ensures
        spec_resolve(jar, now_millis, sessions, users) is None,
{
}

/// A soft-deleted user resolves to absence, even when a valid, unexpired
/// session points at that user.
pub proof fn lemma_deleted_user_is_absent(
    jar: Seq<CookiePair>,
    now_millis: i64,
    sessions: Seq<SessionRecord>,
    users: Seq<UserRecord>,
    raw: Seq<char>,
    session: SessionRecord,
    user: UserRecord,
)
    requires
        spec_cookie_value(jar, spec_session_cookie_name()) == Some(raw),
        spec_find_session(sessions, spec_token_of(raw)) == Some(session),
        !session.spec_is_expired(now_millis),
        spec_find_user(users, session.user_id@) == Some(user),
        user.deleted_at_millis is Some,
    ensures
        spec_resolve(jar, now_millis, sessions, users) is None,
{
}

/// A cookie value made of a dot-free token, a `.`, and a signature
/// extracts to exactly the token.
pub proof fn lemma_token_of_signed(token: Seq<char>, signature: Seq<char>)
    requires
        forall|i: int| 0 <= i < token.len() ==> token[i] != '.',
    ensures
        spec_token_of(token.push('.') + signature) == token,
{
    let v = token.push('.') + signature;
    assert(v[token.len() as int] == '.');
    assert(forall|j: int| 0 <= j < token.len() ==> v[j] == token[j]);
    lemma_first_dot_at(v, 0, token.len() as int);
    assert(spec_token_of(v) =~= token);
}

/// Token extraction is idempotent on the signature: two cookie values
/// carrying the same dot-free token under different signatures extract to
/// the same session lookup key, the token itself.
pub proof fn lemma_token_ignores_signature(
    token: Seq<char>,
    signature1: Seq<char>,
    signature2: Seq<char>,
)
    requires
        forall|i: int| 0 <= i < token.len() ==> token[i] != '.',
    ensures
        spec_token_of(token.push('.') + signature1) == spec_token_of(token.push('.') + signature2),
        spec_token_of(token.push('.') + signature1) == token,
{
    lemma_token_of_signed(token, signature1);
    lemma_token_of_signed(token, signature2);
}

/// A cookie value with no `.` separator extracts to the whole value.
pub proof fn lemma_token_of_unsigned(v: Seq<char>)
    requires
        forall|i: int| 0 <= i < v.len() ==> v[i] != '.',
    ensures
        spec_token_of(v) == v,
{
    lemma_first_dot_at(v, 0, v.len() as int);
    assert(spec_token_of(v) =~= v);
}

} // verus!
