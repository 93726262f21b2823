//! Plain data read by the session resolver: request cookies and the rows
//! of the session and user tables that the authentication path consumes.
//!
//! Timestamps are carried as non-leap milliseconds since the Unix epoch,
//! so that expiry comparison is plain integer order.

use vstd::prelude::*;

verus! {

/// One cookie of the incoming request, as a name/value pair.
#[derive(Clone, Debug)]
pub struct CookiePair {
    pub name: String,
    pub value: String,
}

/// A stored login session. This crate only reads sessions; they are
/// created and destroyed by the external authentication library.
#[derive(Clone, Debug)]
pub struct SessionRecord {
    pub id: String,
    pub user_id: String,
    pub token: String,
    pub expires_at_millis: i64,
    pub ip_address: Option<String>,
    pub user_agent: Option<String>,
    pub created_at_millis: i64,
    pub updated_at_millis: i64,
}

impl SessionRecord {
    /// A session is expired exactly when its expiry lies strictly before "now".
    pub open spec fn spec_is_expired(self, now_millis: i64) -> bool {
        self.expires_at_millis < now_millis
    }

    pub fn is_expired(&self, now_millis: i64) -> (r: bool)
        ensures
            r == self.spec_is_expired(now_millis),
    {
        self.expires_at_millis < now_millis
    }
}

/// A stored user row. Deletion is soft: a deleted user keeps its row and
/// carries a deletion timestamp instead.
#[derive(Clone, Debug)]
pub struct UserRecord {
    pub id: String,
    pub name: String,
    pub email: String,
    pub email_verified: bool,
    pub image: Option<String>,
    pub created_at_millis: i64,
    pub updated_at_millis: i64,
    pub deleted_at_millis: Option<i64>,
}

impl UserRecord {
    /// A user is usable for authentication exactly when it has not been
    /// soft-deleted.
    pub open spec fn spec_is_usable_for_auth(self) -> bool {
        self.deleted_at_millis is None
    }

    pub fn is_usable_for_auth(&self) -> (r: bool)
        ensures
            r == self.spec_is_usable_for_auth(),
    {
        self.deleted_at_millis.is_none()
    }
}

} // verus!
