//! The session resolver and the two auth gates built on it.
//!
//! Resolution runs: find the session cookie among the request's cookies,
//! keep the token segment of its value (the part before the first `.`;
//! the signature segment is not inspected here), look the token up in the
//! session store, reject expired sessions, look the owning user up, and
//! reject soft-deleted users. Every failure collapses into absence: the
//! caller cannot tell a missing cookie from an expired session or a
//! deleted user.

use vstd::prelude::*;
use vstd::string::StrSliceExecFns;
use vstd::string::StringExecFns;

use crate::records::{CookiePair, SessionRecord, UserRecord};
use crate::store::{spec_find_session, spec_find_user, SessionStore, UserStore};

verus! {

/// An authenticated user as exposed to request handlers.
#[derive(Clone, Debug)]
pub struct AuthUser {
    pub id: String,
    pub name: String,
    pub email: String,
    pub email_verified: bool,
    pub image: Option<String>,
}

/// Request-scoped carrier of the authenticated user behind the mandatory
/// gate.
#[derive(Clone, Debug)]
pub struct AuthExtension(pub AuthUser);

/// Carrier of the optional gate's outcome: an authenticated user, or
/// nothing for an anonymous requester.
#[derive(Debug)]
pub struct OptionalAuthUser(pub Option<AuthUser>);

/// Status reported by the mandatory gate when no session resolves.
pub const UNAUTHORIZED: u16 = 401;

/// The cookie name reserved by the external authentication library.
pub open spec fn spec_session_cookie_name() -> Seq<char> {
    "better-auth.session_token"@
}

pub fn session_cookie_name() -> (r: String)
    ensures
        r@ == spec_session_cookie_name(),
{
    String::from_str("better-auth.session_token")
}

/// The index of the first `.` in `v` at position `i` or later, or the
/// length of `v` when there is none.
pub open spec fn first_dot_from(v: Seq<char>, i: int) -> int
    decreases v.len() - i,
{
    if i < 0 || i >= v.len() {
        v.len() as int
    } else if v[i] == '.' {
        i
    } else {
        first_dot_from(v, i + 1)
    }
}

/// The token segment of a cookie value: everything before the first `.`,
/// or the whole value when it has no `.`.
pub open spec fn spec_token_of(v: Seq<char>) -> Seq<char> {
    v.subrange(0, first_dot_from(v, 0))
}

/// `first_dot_from(v, i)` is the one position `k` in `[i, v.len()]` with
/// no `.` before it (from `i` on) and a `.` at it unless `k` is the end.
pub proof fn lemma_first_dot_at(v: Seq<char>, i: int, k: int)
    requires
        0 <= i <= k <= v.len(),
        forall|j: int| i <= j < k ==> v[j] != '.',
        k < v.len() ==> v[k] == '.',
    ensures
        first_dot_from(v, i) == k,
    decreases k - i,
{
    if i < k {
        lemma_first_dot_at(v, i + 1, k);
    }
}

/// Keep the token segment of a cookie value, dropping the `.` and the
/// signature segment behind it.
pub fn extract_session_token(value: &str) -> (token: String)
    ensures
        token@ == spec_token_of(value@),
{
    let n = value.unicode_len();
    let mut i: usize = 0;
    while i < n && value.get_char(i) != '.'
        invariant
            i <= n,
            n == value@.len(),
            forall|j: int| 0 <= j < i ==> value@[j] != '.',
        decreases n - i,
    {
        i = i + 1;
    }
    proof {
        lemma_first_dot_at(value@, 0, i as int);
    }
    let token = value.substring_char(0, i);
    token.to_owned()
}

/// The first cookie at index `i` or later whose name equals `name`.
pub open spec fn first_cookie_from(jar: Seq<CookiePair>, name: Seq<char>, i: int) -> Option<
    CookiePair,
>
    decreases jar.len() - i,
{
    if i < 0 || i >= jar.len() {
        None
    } else if jar[i].name@ == name {
        Some(jar[i])
    } else {
        first_cookie_from(jar, name, i + 1)
    }
}

/// The value of the cookie named `name`, if the jar holds one.
pub open spec fn spec_cookie_value(jar: Seq<CookiePair>, name: Seq<char>) -> Option<Seq<char>> {
    match first_cookie_from(jar, name, 0) {
        None => None,
        Some(p) => Some(p.value@),
    }
}

/// Look the cookie named `name` up among the request's cookies.
pub fn cookie_value<'a>(jar: &'a Vec<CookiePair>, name: &String) -> (r: Option<&'a String>)
    ensures
        match r {
            None => spec_cookie_value(jar@, name@) is None,
            Some(v) => spec_cookie_value(jar@, name@) == Some(v@),
        },
{
    let n = jar.len();
    let mut i: usize = 0;
    while i < n
        invariant
            i <= n,
            n == jar@.len(),
            first_cookie_from(jar@, name@, 0) == first_cookie_from(jar@, name@, i as int),
        decreases n - i,
    {
        if jar[i].name == *name {
            return Some(&jar[i].value);
        }
        i = i + 1;
    }
    None
}

/// What the session lookup's outcome contributes: the owning user's id,
/// unless there was no matching session or it is expired.
pub open spec fn spec_session_gate(session: Option<SessionRecord>, now_millis: i64) -> Option<
    Seq<char>,
> {
    match session {
        None => None,
        Some(s) => if s.spec_is_expired(now_millis) {
            None
        } else {
            Some(s.user_id@)
        },
    }
}

/// Decide on the session lookup's outcome: hand back the owning user's id
/// to look up next, or absence for a missing or expired session.
pub fn session_user_id(session: Option<&SessionRecord>, now_millis: i64) -> (r: Option<String>)
    ensures
        match session {
            None => r is None,
            Some(s) => match r {
                None => spec_session_gate(Some(*s), now_millis) is None,
                Some(uid) => spec_session_gate(Some(*s), now_millis) == Some(uid@),
            },
        },
{
    match session {
        None => None,
        Some(s) => {
            if s.is_expired(now_millis) {
                None
            } else {
                Some(s.user_id.clone())
            }
        },
    }
}

/// What the user lookup's outcome contributes: the user row, unless there
/// was none or it is soft-deleted.
pub open spec fn spec_user_gate(user: Option<UserRecord>) -> Option<UserRecord> {
    match user {
        None => None,
        Some(u) => if u.spec_is_usable_for_auth() {
            Some(u)
        } else {
            None
        },
    }
}

/// The authenticated-user value that the resolver exposes for user row `u`.
pub open spec fn spec_auth_user_of(u: UserRecord, a: AuthUser) -> bool {
    &&& a.id@ == u.id@
    &&& a.name@ == u.name@
    &&& a.email@ == u.email@
    &&& a.email_verified == u.email_verified
    &&& a.image.deep_view() == u.image.deep_view()
}

/// Decide on the user lookup's outcome: expose the user's public fields,
/// or absence for a missing or soft-deleted user.
pub fn user_to_auth(user: Option<&UserRecord>) -> (r: Option<AuthUser>)
    ensures
        match user {
            None => r is None,
            Some(u) => match r {
                None => spec_user_gate(Some(*u)) is None,
                Some(a) => spec_user_gate(Some(*u)) == Some(*u) && spec_auth_user_of(*u, a),
            },
        },
{
    match user {
        None => None,
        Some(u) => {
            if u.is_usable_for_auth() {
                Some(
                    AuthUser {
                        id: u.id.clone(),
                        name: u.name.clone(),
                        email: u.email.clone(),
                        email_verified: u.email_verified,
                        image: u.image.clone(),
                    },
                )
            } else {
                None
            }
        },
    }
}

/// The whole resolution pipeline as one function of the request's cookies,
/// the clock, and the two tables: the user row exposed to the requester,
/// or absence. Every failure cause maps to absence.
pub open spec fn spec_resolve(
    jar: Seq<CookiePair>,
    now_millis: i64,
    sessions: Seq<SessionRecord>,
    users: Seq<UserRecord>,
) -> Option<UserRecord> {
    match spec_cookie_value(jar, spec_session_cookie_name()) {
        None => None,
        Some(raw) => match spec_session_gate(
            spec_find_session(sessions, spec_token_of(raw)),
            now_millis,
        ) {
            None => None,
            Some(uid) => spec_user_gate(spec_find_user(users, uid)),
        },
    }
}

/// The resolver's result `r` exposes exactly the user row that
/// `spec_resolve` picks: absence on absence, and matching fields otherwise.
pub open spec fn spec_resolution_matches(r: Option<AuthUser>, m: Option<UserRecord>) -> bool {
    match (r, m) {
        (None, None) => true,
        (Some(a), Some(u)) => spec_auth_user_of(u, a),
        _ => false,
    }
}

/// Resolve the request's cookies to an authenticated user at time
/// `now_millis`: cookie lookup, token extraction, session lookup, expiry
/// check, user lookup, soft-deletion check.
pub fn resolve_session(
    jar: &Vec<CookiePair>,
    now_millis: i64,
    sessions: &SessionStore,
    users: &UserStore,
) -> (r: Option<AuthUser>)
    ensures
        spec_resolution_matches(r, spec_resolve(jar@, now_millis, sessions.rows@, users.rows@)),
{
    let name = session_cookie_name();
    let raw = match cookie_value(jar, &name) {
        None => {
            return None;
        },
        Some(v) => v,
    };
    let token = extract_session_token(raw.as_str());
    let session = sessions.find_by_token(&token);
    let uid = match session_user_id(session, now_millis) {
        None => {
            return None;
        },
        Some(uid) => uid,
    };
    let user = users.find_by_id(&uid);
    user_to_auth(user)
}

/// The mandatory gate: absence halts the request with an unauthorized
/// status and no body; presence attaches the user to the request context.
pub fn mandatory_gate(user: Option<AuthUser>) -> (r: Result<AuthExtension, u16>)
    ensures
        match user {
            None => r matches Err(status) && status == UNAUTHORIZED,
            Some(u) => r matches Ok(ext) && ext.0 == u,
        },
{
    match user {
        None => Err(UNAUTHORIZED),
        Some(u) => Ok(AuthExtension(u)),
    }
}

/// The optional gate: never halts; hands the handler the resolved user or
/// its absence unchanged.
pub fn optional_gate(user: Option<AuthUser>) -> (r: OptionalAuthUser)
    ensures
        r.0 == user,
{
    OptionalAuthUser(user)
}

} // verus!
