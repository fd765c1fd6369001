//! Server-side session records. A bearer token is honoured only while the
//! session it names is stored and not expired, so removing the record
//! revokes the token.

use crate::table::{
    has_key, is_row_of, lemma_table_empty, lemma_table_push, lemma_table_remove, lemma_table_row,
    table_of, unique_keys,
};
use vstd::prelude::*;

verus! {

/// Lifetime of a session in seconds: 365 days.
pub const SESSION_LIFETIME_SECS: i64 = 31_536_000;

/// A stored session.
#[derive(Debug)]
pub struct SessionRecord {
    /// The random identifier, carried by the bearer token as `sid`.
    pub id: u128,
    /// The user who logged in.
    pub user_id: i32,
    /// The client's description of itself, if it gave one.
    pub user_agent: Option<String>,
    /// The instant from which the session is no longer honoured.
    pub expires_at: i64,
    /// When the session was created.
    pub created_at: i64,
}

/// Why a session was not stored.
#[derive(Clone, Copy, Debug, PartialEq, Eq, Structural)]
pub enum SessionError {
    /// A session with this identifier is stored already.
    IdInUse,
    /// The expiry instant does not fit the timestamp type.
    TimestampOverflow,
}

impl SessionRecord {
    /// Whether the session is still honoured at `now`.
    pub fn is_live(&self, now: i64) -> (r: bool)
        ensures
            r == (self.expires_at > now),
    {
        self.expires_at > now
    }
}

/// The key of a stored session.
pub open spec fn session_key() -> spec_fn(SessionRecord) -> u128 {
    |s: SessionRecord| s.id
}

/// The instant at which a session created at `now` expires, if it fits.
pub fn session_expiry(now: i64) -> (r: Option<i64>)
    ensures
        match r {
            Some(t) => t == now + SESSION_LIFETIME_SECS,
            None => now + SESSION_LIFETIME_SECS > i64::MAX,
        },
{
    now.checked_add(SESSION_LIFETIME_SECS)
}

/// The stored sessions.
pub struct SessionStore {
    rows: Vec<SessionRecord>,
}

impl View for SessionStore {
    type V = Map<u128, SessionRecord>;

    closed spec fn view(&self) -> Map<u128, SessionRecord> {
        table_of(self.rows@, session_key())
    }
}

impl SessionStore {
    /// The store's invariant: no two stored sessions share an id.
    pub closed spec fn wf(&self) -> bool {
        unique_keys(self.rows@, session_key())
    }

    /// Every session is stored under its own id.
    pub proof fn lemma_keyed_by_id(&self, id: u128)
        requires
            self@.dom().contains(id),
        ensures
            self@[id].id == id,
    {
        let i = choose|i: int| is_row_of(self.rows@, session_key(), id, i);
        assert(is_row_of(self.rows@, session_key(), id, i));
    }

    /// A store without sessions.
    pub fn new() -> (s: SessionStore)
        ensures
            s.wf(),
            s@ == Map::<u128, SessionRecord>::empty(),
    {
        proof {
            lemma_table_empty(session_key());
        }
        SessionStore { rows: Vec::new() }
    }

    /// The index of the row with the given id.
    fn position(&self, id: u128) -> (r: Option<usize>)
        ensures
            match r {
                Some(i) => i < self.rows@.len() && self.rows@[i as int].id == id,
                None => !self@.dom().contains(id),
            },
    {
        let mut i: usize = 0;
        while i < self.rows.len()
            invariant
                i <= self.rows@.len(),
                forall|j: int| 0 <= j < i ==> self.rows@[j].id != id,
            decreases self.rows@.len() - i,
        {
            if self.rows[i].id == id {
                return Some(i);
            }
            i += 1;
        }
        proof {
            if has_key(self.rows@, session_key(), id) {
                let j = choose|j: int| is_row_of(self.rows@, session_key(), id, j);
                assert(is_row_of(self.rows@, session_key(), id, j));
            }
        }
        None
    }

    /// The session stored under `id`.
    pub fn find(&self, id: u128) -> (r: Option<&SessionRecord>)
        requires
            self.wf(),
        ensures
            match r {
                Some(session) => self@.dom().contains(id) && self@[id] == *session,
                None => !self@.dom().contains(id),
            },
    {
        match self.position(id) {
            Some(i) => {
                proof {
                    lemma_table_row(self.rows@, session_key(), i as int);
                }
                Some(&self.rows[i])
            },
            None => None,
        }
    }

    /// Stores a new session of `user_id` under the fresh identifier `id`,
    /// created at `now` and expiring 365 days later.
    pub fn create(
        &mut self,
        id: u128,
        user_id: i32,
        user_agent: Option<String>,
        now: i64,
    ) -> (r: Result<u128, SessionError>)
        requires
            old(self).wf(),
        ensures
            final(self).wf(),
            match r {
                Ok(session_id) => {
                    &&& session_id == id
                    &&& !old(self)@.dom().contains(id)
                    &&& now + SESSION_LIFETIME_SECS <= i64::MAX
                    &&& final(self)@ == old(self)@.insert(
                        id,
                        SessionRecord {
                            id,
                            user_id,
                            user_agent,
                            expires_at: (now + SESSION_LIFETIME_SECS) as i64,
                            created_at: now,
                        },
                    )
                },
                Err(e) => {
                    &&& final(self)@ == old(self)@
                    &&& e == if old(self)@.dom().contains(id) {
                        SessionError::IdInUse
                    } else {
                        SessionError::TimestampOverflow
                    }
                    &&& (old(self)@.dom().contains(id) || now + SESSION_LIFETIME_SECS > i64::MAX)
                },
            },
    {
        match self.position(id) {
            Some(i) => {
                proof {
                    lemma_table_row(self.rows@, session_key(), i as int);
                }
                return Err(SessionError::IdInUse);
            },
            None => {},
        }
        let expires_at = match session_expiry(now) {
            Some(t) => t,
            None => {
                return Err(SessionError::TimestampOverflow);
            },
        };
        let session = SessionRecord { id, user_id, user_agent, expires_at, created_at: now };
        proof {
            lemma_table_push(self.rows@, session_key(), session);
        }
        self.rows.push(session);
        Ok(id)
    }

    /// Removes the session under `id`, as a logout does, and says whether
    /// there was one. Removing a session that is not stored changes nothing
    /// and is no error.
    pub fn revoke(&mut self, id: u128) -> (removed: bool)
        requires
            old(self).wf(),
        ensures
            final(self).wf(),
            removed == old(self)@.dom().contains(id),
            final(self)@ == old(self)@.remove(id),
    {
        match self.position(id) {
            Some(i) => {
                proof {
                    lemma_table_row(self.rows@, session_key(), i as int);
                    lemma_table_remove(self.rows@, session_key(), i as int);
                }
                self.rows.remove(i);
                true
            },
            None => {
                proof {
                    assert(self@ =~= self@.remove(id));
                }
                false
            },
        }
    }
}

} // verus!
