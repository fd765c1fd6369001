//! Single-use expiring tokens for e-mail verification and password reset.
//!
//! A token is usable for an action only under its own id, for its own kind
//! and before its expiry. Consuming it removes it in the same step, so it
//! authorises one action at most.

use crate::table::{
    has_key, is_row_of, lemma_table_empty, lemma_table_push, lemma_table_remove, lemma_table_row,
    lemma_table_size, table_of, unique_keys,
};
use vstd::prelude::*;

verus! {

/// Lifetime of an e-mail verification token in seconds: 24 hours.
pub const VERIFY_TTL_SECS: i64 = 86_400;

/// Lifetime of a password reset token in seconds: one hour.
pub const RESET_TTL_SECS: i64 = 3_600;

/// What a token authorises.
#[derive(Clone, Copy, Debug, PartialEq, Eq, Structural)]
pub enum TokenKind {
    /// Confirming the user's e-mail address.
    Verify,
    /// Setting a new password.
    Reset,
}

/// A stored token.
#[derive(Clone, Copy, Debug, PartialEq, Eq, Structural)]
pub struct ExpiringToken {
    /// The random identifier, the only part that ever leaves the server.
    pub id: u128,
    /// The user that the token was issued for.
    pub user_id: i32,
    /// The action that it authorises.
    pub kind: TokenKind,
    /// The instant from which it is no longer accepted.
    pub expires_at: i64,
}

/// Why a token was not stored.
#[derive(Clone, Copy, Debug, PartialEq, Eq, Structural)]
pub enum IssueTokenError {
    /// A token with this identifier is stored already.
    IdInUse,
    /// The expiry instant does not fit the timestamp type.
    TimestampOverflow,
}

/// Why a token authorised nothing.
#[derive(Clone, Copy, Debug, PartialEq, Eq, Structural)]
pub enum ConsumeError {
    /// No token of this id and kind is stored, or it has expired.
    TokenInvalidOrExpired,
}

/// The lifetime of a token of the given kind.
pub open spec fn ttl_of(kind: TokenKind) -> int {
    match kind {
        TokenKind::Verify => VERIFY_TTL_SECS as int,
        TokenKind::Reset => RESET_TTL_SECS as int,
    }
}

/// The token stored under `id` can be consumed for `kind` at `now`.
pub open spec fn usable(table: Map<u128, ExpiringToken>, id: u128, kind: TokenKind, now: int)
    -> bool {
    table.dom().contains(id) && table[id].kind == kind && table[id].expires_at > now
}

/// The table without the reset tokens of `user_id`.
pub open spec fn without_reset_tokens(table: Map<u128, ExpiringToken>, user_id: i32) -> Map<
    u128,
    ExpiringToken,
> {
    Map::new(
        |id: u128| table.dom().contains(id) && !is_reset_of(table[id], user_id),
        |id: u128| table[id],
    )
}

/// `token` is a reset token of `user_id`.
pub open spec fn is_reset_of(token: ExpiringToken, user_id: i32) -> bool {
    token.kind == TokenKind::Reset && token.user_id == user_id
}

/// The table after the token under `id` was consumed: a verification token
/// leaves alone, a reset token leaves with every reset token of its user.
pub open spec fn after_consume(table: Map<u128, ExpiringToken>, id: u128) -> Map<
    u128,
    ExpiringToken,
> {
    match table[id].kind {
        TokenKind::Verify => table.remove(id),
        TokenKind::Reset => without_reset_tokens(table, table[id].user_id),
    }
}

impl TokenKind {
    /// The lifetime of a token of this kind in seconds.
    pub fn ttl_secs(&self) -> (r: i64)
        ensures
            r == ttl_of(*self),
    {
        match self {
            TokenKind::Verify => VERIFY_TTL_SECS,
            TokenKind::Reset => RESET_TTL_SECS,
        }
    }

    /// The name of the kind as it is stored.
    pub fn label(&self) -> (r: &'static str)
        ensures
            r@ == match *self {
                TokenKind::Verify => "VERIFY"@,
                TokenKind::Reset => "RESET"@,
            },
    {
        match self {
            TokenKind::Verify => "VERIFY",
            TokenKind::Reset => "RESET",
        }
    }
}

impl ExpiringToken {
    /// Whether this token can be consumed under `id` for `kind` at `now`.
    pub fn is_usable(&self, id: u128, kind: TokenKind, now: i64) -> (r: bool)
        ensures
            r == (self.id == id && self.kind == kind && self.expires_at > now),
    {
        self.id == id && self.kind == kind && self.expires_at > now
    }
}

/// The key of a stored token.
pub open spec fn token_key() -> spec_fn(ExpiringToken) -> u128 {
    |t: ExpiringToken| t.id
}

/// The stored tokens.
pub struct TokenStore {
    rows: Vec<ExpiringToken>,
}

impl View for TokenStore {
    type V = Map<u128, ExpiringToken>;

    closed spec fn view(&self) -> Map<u128, ExpiringToken> {
        table_of(self.rows@, token_key())
    }
}

impl TokenStore {
    /// The store's invariant: no two stored tokens share an id.
    pub closed spec fn wf(&self) -> bool {
        unique_keys(self.rows@, token_key())
    }

    /// Every token is stored under its own id.
    pub proof fn lemma_keyed_by_id(&self, id: u128)
        requires
            self@.dom().contains(id),
        ensures
            self@[id].id == id,
    {
        let i = choose|i: int| is_row_of(self.rows@, token_key(), id, i);
        assert(is_row_of(self.rows@, token_key(), id, i));
    }

    /// A store without tokens.
    pub fn new() -> (s: TokenStore)
        ensures
            s.wf(),
            s@ == Map::<u128, ExpiringToken>::empty(),
    {
        proof {
            lemma_table_empty(token_key());
        }
        TokenStore { rows: Vec::new() }
    }

    /// The index of the row with the given id.
    fn position(&self, id: u128) -> (r: Option<usize>)
        ensures
            match r {
                Some(i) => i < self.rows@.len() && self.rows@[i as int].id == id,
                None => !self@.dom().contains(id),
            },
    {
        let mut i: usize = 0;
        while i < self.rows.len()
            invariant
                i <= self.rows@.len(),
                forall|j: int| 0 <= j < i ==> self.rows@[j].id != id,
            decreases self.rows@.len() - i,
        {
            if self.rows[i].id == id {
                return Some(i);
            }
            i += 1;
        }
        proof {
            if has_key(self.rows@, token_key(), id) {
                let j = choose|j: int| is_row_of(self.rows@, token_key(), id, j);
                assert(is_row_of(self.rows@, token_key(), id, j));
            }
        }
        None
    }

    /// The token stored under `id`.
    pub fn get(&self, id: u128) -> (r: Option<ExpiringToken>)
        requires
            self.wf(),
        ensures
            match r {
                Some(token) => self@.dom().contains(id) && self@[id] == token,
                None => !self@.dom().contains(id),
            },
    {
        match self.position(id) {
            Some(i) => {
                proof {
                    lemma_table_row(self.rows@, token_key(), i as int);
                }
                Some(self.rows[i])
            },
            None => None,
        }
    }

    /// Stores a new token for `user_id` under the fresh identifier `id`,
    /// expiring one lifetime of its kind after `now`.
    pub fn issue(&mut self, id: u128, user_id: i32, kind: TokenKind, now: i64) -> (r: Result<
        u128,
        IssueTokenError,
    >)
        requires
            old(self).wf(),
        ensures
            final(self).wf(),
            match r {
                Ok(token_id) => {
                    &&& token_id == id
                    &&& !old(self)@.dom().contains(id)
                    &&& now + ttl_of(kind) <= i64::MAX
                    &&& final(self)@ == old(self)@.insert(
                        id,
                        ExpiringToken { id, user_id, kind, expires_at: (now + ttl_of(kind)) as i64 },
                    )
                },
                Err(e) => {
                    &&& final(self)@ == old(self)@
                    &&& e == if old(self)@.dom().contains(id) {
                        IssueTokenError::IdInUse
                    } else {
                        IssueTokenError::TimestampOverflow
                    }
                    &&& (old(self)@.dom().contains(id) || now + ttl_of(kind) > i64::MAX)
                },
            },
    {
        match self.position(id) {
            Some(i) => {
                proof {
                    lemma_table_row(self.rows@, token_key(), i as int);
                }
                return Err(IssueTokenError::IdInUse);
            },
            None => {},
        }
        let expires_at = match now.checked_add(kind.ttl_secs()) {
            Some(t) => t,
            None => {
                return Err(IssueTokenError::TimestampOverflow);
            },
        };
        let token = ExpiringToken { id, user_id, kind, expires_at };
        proof {
            lemma_table_push(self.rows@, token_key(), token);
        }
        self.rows.push(token);
        Ok(id)
    }

    /// Consumes the token under `id` for an action of the given kind: where
    /// it is stored, of that kind and not expired at `now`, it is removed
    /// (a reset token together with every other reset token of its user) and
    /// the user it was issued for is returned. Otherwise nothing changes.
    pub fn consume(&mut self, id: u128, kind: TokenKind, now: i64) -> (r: Result<i32, ConsumeError>)
        requires
            old(self).wf(),
        ensures
            final(self).wf(),
            match r {
                Ok(user_id) => {
                    &&& usable(old(self)@, id, kind, now as int)
                    &&& user_id == old(self)@[id].user_id
                    &&& final(self)@ == after_consume(old(self)@, id)
                },
                Err(e) => {
                    &&& e == ConsumeError::TokenInvalidOrExpired
                    &&& !usable(old(self)@, id, kind, now as int)
                    &&& final(self)@ == old(self)@
                },
            },
    {
        let at = match self.position(id) {
            Some(at) => at,
            None => {
                return Err(ConsumeError::TokenInvalidOrExpired);
            },
        };
        proof {
            lemma_table_row(self.rows@, token_key(), at as int);
        }
        let token = self.rows[at];
        if !token.is_usable(id, kind, now) {
            return Err(ConsumeError::TokenInvalidOrExpired);
        }
        match kind {
            TokenKind::Verify => {
                proof {
                    lemma_table_remove(self.rows@, token_key(), at as int);
                }
                self.rows.remove(at);
            },
            TokenKind::Reset => {
                self.remove_reset_tokens(token.user_id);
            },
        }
        Ok(token.user_id)
    }

    /// Removes every reset token of `user_id`.
    pub fn remove_reset_tokens(&mut self, user_id: i32)
        requires
            old(self).wf(),
        ensures
            final(self).wf(),
            final(self)@ == without_reset_tokens(old(self)@, user_id),
    {
        let ghost before = self@;
        let mut i: usize = 0;
        while i < self.rows.len()
            invariant
                i <= self.rows@.len(),
                unique_keys(self.rows@, token_key()),
                forall|j: int| 0 <= j < i ==> !is_reset_of(#[trigger] self.rows@[j], user_id),
                forall|id: u128| #[trigger]
                    self@.dom().contains(id) ==> before.dom().contains(id) && before[id]
                        == self@[id],
                forall|id: u128|
                    before.dom().contains(id) && !is_reset_of(#[trigger] before[id], user_id)
                        ==> self@.dom().contains(id),
            decreases self.rows@.len() - i,
        {
            let token = self.rows[i];
            if token.user_id == user_id && token.kind == TokenKind::Reset {
                let ghost prev = self@;
                proof {
                    lemma_table_row(self.rows@, token_key(), i as int);
                    lemma_table_remove(self.rows@, token_key(), i as int);
                }
                self.rows.remove(i);
                proof {
                    assert(self@ == prev.remove(token.id));
                    assert forall|id: u128| #[trigger] self@.dom().contains(id) implies before.dom().contains(
                        id,
                    ) && before[id] == self@[id] by {
                        assert(prev.dom().contains(id));
                    }
                    assert forall|id: u128|
                        before.dom().contains(id) && !is_reset_of(
                            #[trigger] before[id],
                            user_id,
                        ) implies self@.dom().contains(id) by {
                        assert(prev.dom().contains(id));
                    }
                }
            } else {
                i += 1;
            }
        }
        proof {
            assert forall|id: u128| self@.dom().contains(id) implies !is_reset_of(
                #[trigger] before[id],
                user_id,
            ) by {
                let j = choose|j: int| is_row_of(self.rows@, token_key(), id, j);
                assert(is_row_of(self.rows@, token_key(), id, j));
                lemma_table_row(self.rows@, token_key(), j);
            }
            assert(self@ =~= without_reset_tokens(before, user_id));
        }
    }

    /// The number of stored tokens.
    pub fn len(&self) -> (r: usize)
        requires
            self.wf(),
        ensures
            self@.dom().finite(),
            r == self@.dom().len(),
    {
        proof {
            lemma_table_size(self.rows@, token_key());
        }
        self.rows.len()
    }
}

/// A consumed token cannot be consumed again, for any kind and at any time:
/// of two consumptions of one token, in whatever order they are served, the
/// second is refused.
pub proof fn lemma_single_use(
    table: Map<u128, ExpiringToken>,
    id: u128,
    kind: TokenKind,
    now: int,
    again_kind: TokenKind,
    again_now: int,
)
    requires
        usable(table, id, kind, now),
    ensures
        !usable(after_consume(table, id), id, again_kind, again_now),
{
}

/// A token is usable for its own kind only: a reset token is refused for a
/// verification even before it expires, and the other way round.
pub proof fn lemma_kind_isolation(
    table: Map<u128, ExpiringToken>,
    id: u128,
    kind: TokenKind,
    now: int,
)
    requires
        table.dom().contains(id),
        table[id].kind != kind,
    ensures
        !usable(table, id, kind, now),
{
}

/// A stored token of the right kind is usable exactly while its expiry lies
/// after the current instant: one second past it is refused, one second
/// before it is accepted.
pub proof fn lemma_expiry_boundary(
    table: Map<u128, ExpiringToken>,
    id: u128,
    kind: TokenKind,
    now: int,
)
    requires
        table.dom().contains(id),
        table[id].kind == kind,
    ensures
        usable(table, id, kind, now) <==> table[id].expires_at > now,
        table[id].expires_at == now - 1 ==> !usable(table, id, kind, now),
        table[id].expires_at == now + 1 ==> usable(table, id, kind, now),
{
}

} // verus!
