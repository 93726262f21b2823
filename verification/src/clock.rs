//! The clock the resolver compares session expiry against.
//!
//! Reading the clock is the one outside call the library's own logic
//! makes; everything downstream of the reading is verified for every
//! value the clock may hand back.

use vstd::prelude::*;

use crate::auth::{resolve_session, spec_resolution_matches, spec_resolve, AuthUser};
use crate::records::CookiePair;
use crate::store::{SessionStore, UserStore};

verus! {

/// Relies on chrono::Utc::now and chrono::DateTime::timestamp_millis: the
/// current UTC time as non-leap milliseconds since the Unix epoch. Nothing
/// is promised of the value; callers must hold for every reading. Relies
/// on the system clock not lying before the Unix epoch, on which
/// chrono::Utc::now does not return.
#[verifier::external_body]
pub(crate) fn current_unix_millis() -> (r: i64) {
    chrono::Utc::now().timestamp_millis()
}

/// Resolve the request's cookies against the stores at the current time.
/// Whatever the clock reads, the result is the resolver's answer for that
/// reading; in particular, absence of the session cookie yields absence
/// at every time.
pub fn resolve_session_now(
    jar: &Vec<CookiePair>,
    sessions: &SessionStore,
    users: &UserStore,
) -> (r: Option<AuthUser>)
    ensures
        exists|now_millis: i64|
            spec_resolution_matches(
                r,
                #[trigger] spec_resolve(jar@, now_millis, sessions.rows@, users.rows@),
            ),
{
    let now_millis = current_unix_millis();
    let r = resolve_session(jar, now_millis, sessions, users);
    proof {
        assert(spec_resolution_matches(
            r,
            spec_resolve(jar@, now_millis, sessions.rows@, users.rows@),
        ));
    }
    r
}

} // verus!
