//! In-memory views of the session and user tables.
//!
//! The resolver is specified against these stores; the surrounding
//! application fetches the matching rows from its database and hands them
//! over as plain records. Lookup is first-match over the rows; the store
//! invariants say that the lookup keys are unique, mirroring the unique
//! index on session tokens and the primary key on user ids.

use vstd::prelude::*;

use crate::records::{SessionRecord, UserRecord};

verus! {

/// The first session row at index `i` or later whose token equals `token`.
pub open spec fn first_session_from(rows: Seq<SessionRecord>, token: Seq<char>, i: int) -> Option<
    SessionRecord,
>
    decreases rows.len() - i,
{
    if i < 0 || i >= rows.len() {
        None
    } else if rows[i].token@ == token {
        Some(rows[i])
    } else {
        first_session_from(rows, token, i + 1)
    }
}

/// The session row holding `token`, if any.
pub open spec fn spec_find_session(rows: Seq<SessionRecord>, token: Seq<char>) -> Option<
    SessionRecord,
> {
    first_session_from(rows, token, 0)
}

/// The first user row at index `i` or later whose id equals `id`.
pub open spec fn first_user_from(rows: Seq<UserRecord>, id: Seq<char>, i: int) -> Option<UserRecord>
    decreases rows.len() - i,
{
    if i < 0 || i >= rows.len() {
        None
    } else if rows[i].id@ == id {
        Some(rows[i])
    } else {
        first_user_from(rows, id, i + 1)
    }
}

/// The user row with id `id`, if any.
pub open spec fn spec_find_user(rows: Seq<UserRecord>, id: Seq<char>) -> Option<UserRecord> {
    first_user_from(rows, id, 0)
}

/// The session table: at most one row per token.
pub struct SessionStore {
    pub rows: Vec<SessionRecord>,
}

impl SessionStore {
    /// Tokens are unique across rows.
    pub open spec fn wf(self) -> bool {
        forall|i: int, j: int|
            0 <= i < j < self.rows@.len() ==> self.rows@[i].token@ != self.rows@[j].token@
    }

    pub fn new() -> (r: SessionStore)
        ensures
            r.rows@.len() == 0,
            r.wf(),
    {
        SessionStore { rows: Vec::new() }
    }

    /// Seed one session row; its token must be new to the store.
    pub fn add(&mut self, row: SessionRecord)
        requires
            old(self).wf(),
            forall|i: int|
                0 <= i < old(self).rows@.len() ==> old(self).rows@[i].token@ != row.token@,
        ensures
            final(self).rows@ == old(self).rows@.push(row),
            final(self).wf(),
    {
        self.rows.push(row);
    }

    /// Look a session up by its token.
    pub fn find_by_token<'a>(&'a self, token: &String) -> (r: Option<&'a SessionRecord>)
        ensures
            match r {
                None => spec_find_session(self.rows@, token@) is None,
                Some(row) => spec_find_session(self.rows@, token@) == Some(*row),
            },
    {
        let n = self.rows.len();
        let mut i: usize = 0;
        while i < n
            invariant
                0 <= i <= n,
                n == self.rows@.len(),
                first_session_from(self.rows@, token@, 0) == first_session_from(
                    self.rows@,
                    token@,
                    i as int,
                ),
            decreases n - i,
        {
            if self.rows[i].token == *token {
                return Some(&self.rows[i]);
            }
            i = i + 1;
        }
        None
    }
}

/// The user table: at most one row per id.
pub struct UserStore {
    pub rows: Vec<UserRecord>,
}

impl UserStore {
    /// Ids are unique across rows.
    pub open spec fn wf(self) -> bool {
        forall|i: int, j: int|
            0 <= i < j < self.rows@.len() ==> self.rows@[i].id@ != self.rows@[j].id@
    }

    pub fn new() -> (r: UserStore)
        ensures
            r.rows@.len() == 0,
            r.wf(),
    {
        UserStore { rows: Vec::new() }
    }

    /// Seed one user row; its id must be new to the store.
    pub fn add(&mut self, row: UserRecord)
        requires
            old(self).wf(),
            forall|i: int| 0 <= i < old(self).rows@.len() ==> old(self).rows@[i].id@ != row.id@,
        ensures
            final(self).rows@ == old(self).rows@.push(row),
            final(self).wf(),
    {
        self.rows.push(row);
    }

    /// Look a user up by its id.
    pub fn find_by_id<'a>(&'a self, id: &String) -> (r: Option<&'a UserRecord>)
        ensures
            match r {
                None => spec_find_user(self.rows@, id@) is None,
                Some(row) => spec_find_user(self.rows@, id@) == Some(*row),
            },
    {
        let n = self.rows.len();
        let mut i: usize = 0;
        while i < n
            invariant
                0 <= i <= n,
                n == self.rows@.len(),
                first_user_from(self.rows@, id@, 0) == first_user_from(self.rows@, id@, i as int),
            decreases n - i,
        {
            if self.rows[i].id == *id {
                return Some(&self.rows[i]);
            }
            i = i + 1;
        }
        None
    }
}

} // verus!
