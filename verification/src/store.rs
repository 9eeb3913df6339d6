//! A model of the Ownership Store.
//!
//! The store is the single source of truth for "does this user have a room,
//! and which one": a durable relation from user identifier to the owned
//! channel's identifier, with at most one row per user. The real store is a
//! relational table whose primary key enforces that uniqueness; this model
//! keeps the rows in a vector and carries the same invariant, so every
//! operation is verified to preserve it.
//!
//! Failure semantics: every operation can fail with `RoomError::Store` when
//! its transport fails. Each executable operation takes the transport's
//! behaviour for this one call as an explicit `fail` argument, so its
//! contract speaks about every outcome the real store can exhibit. A lookup
//! miss is a distinct, non-error state.

use vstd::prelude::*;

use crate::errors::RoomError;

verus! {

/// One persisted ownership record: `user_id` owns the room `channel_id`.
#[derive(Clone, Copy, Debug, PartialEq, Eq, Structural)]
pub struct OwnershipRow {
    pub user_id: u64,
    pub channel_id: u64,
}

/// Index of the first row for `user`, or `-1` when there is none.
pub open spec fn row_index(rows: Seq<OwnershipRow>, user: u64) -> int
    decreases rows.len(),
{
    if rows.len() == 0 {
        -1
    } else if rows[0].user_id == user {
        0
    } else {
        let rest = row_index(rows.drop_first(), user);
        if rest < 0 {
            -1
        } else {
            rest + 1
        }
    }
}

/// The channel owned by `user`, or `None` when no row exists.
pub open spec fn spec_lookup(rows: Seq<OwnershipRow>, user: u64) -> Option<u64> {
    let i = row_index(rows, user);
    if i >= 0 {
        Some(rows[i].channel_id)
    } else {
        None
    }
}

/// What `row_index` finds: the first matching row, in bounds, with no
/// earlier match; `-1` exactly when no row matches at all.
pub proof fn lemma_row_index(rows: Seq<OwnershipRow>, user: u64)
    ensures
        row_index(rows, user) == -1 <==> (forall|j: int|
            0 <= j < rows.len() ==> rows[j].user_id != user),
        row_index(rows, user) != -1 ==> 0 <= row_index(rows, user) < rows.len()
            && rows[row_index(rows, user)].user_id == user && (forall|j: int|
            0 <= j < row_index(rows, user) ==> rows[j].user_id != user),
    decreases rows.len(),
{
    if rows.len() == 0 {
    } else if rows[0].user_id == user {
    } else {
        lemma_row_index(rows.drop_first(), user);
        assert forall|j: int| 1 <= j < rows.len() implies rows[j] == rows.drop_first()[j - 1] by {}
    }
}

/// The in-memory relation, with the store's own uniqueness invariant.
pub struct OwnershipTable {
    pub rows: Vec<OwnershipRow>,
}

/// What the executable insert reports, mirroring the three outcomes the
/// caller must tell apart: exactly one row written, a no-op, or a store
/// failure.
#[derive(Clone, Copy, Debug, PartialEq, Eq, Structural)]
pub enum InsertOutcome {
    /// Exactly one row was written.
    Inserted,
    /// No row was affected: the user already has one. Treated as a failure
    /// by the caller, but reported with its own diagnostic.
    NoOp,
    /// The store itself failed (transport or query).
    Failed,
}

impl OwnershipTable {
    /// At most one row per user.
    pub open spec fn wf(self) -> bool {
        forall|i: int, j: int|
            0 <= i < j < self.rows@.len() ==> self.rows@[i].user_id != self.rows@[j].user_id
    }

    /// An empty relation.
    pub fn new() -> (r: Self)
        ensures
            r.rows@ == Seq::<OwnershipRow>::empty(),
            r.wf(),
    {
        let rows: Vec<OwnershipRow> = Vec::new();
        proof {
            assert(rows@ =~= Seq::<OwnershipRow>::empty());
        }
        OwnershipTable { rows }
    }

    /// Point lookup of the channel owned by `user`.
    ///
    /// Absence is `Ok(None)`, distinguished from a transport failure
    /// (`Err(Store)`); `fail` is the transport's behaviour for this call.
    pub fn get_owned_channel(&self, user: u64, fail: bool) -> (r: Result<Option<u64>, RoomError>)
        ensures
            fail ==> r == Result::<Option<u64>, RoomError>::Err(RoomError::Store),
            !fail ==> r == Result::<Option<u64>, RoomError>::Ok(spec_lookup(self.rows@, user)),
    {
        if fail {
            return Err(RoomError::Store);
        }
        let n = self.rows.len();
        for i in 0..n
            invariant
                !fail,
                n == self.rows.len(),
                forall|j: int| 0 <= j < i ==> self.rows@[j].user_id != user,
        {
            if self.rows[i].user_id == user {
                proof {
                    lemma_row_index(self.rows@, user);
                }
                return Ok(Some(self.rows[i].channel_id));
            }
        }
        proof {
            lemma_row_index(self.rows@, user);
        }
        Ok(None)
    }

    /// Attempts to write exactly one ownership row.
    ///
    /// Succeeds only when the user has no row yet; a conflicting key is a
    /// no-op, and a transport failure (modelled by `fail`) is a store
    /// error. The relation changes only on success.
    pub fn insert_ownership(&mut self, user: u64, channel: u64, fail: bool) -> (r: InsertOutcome)
        requires
            old(self).wf(),
        ensures
            final(self).wf(),
            fail ==> r == InsertOutcome::Failed && final(self).rows@ == old(self).rows@,
            !fail && spec_lookup(old(self).rows@, user) is Some ==> r == InsertOutcome::NoOp
                && final(self).rows@ == old(self).rows@,
            !fail && spec_lookup(old(self).rows@, user) is None ==> r == InsertOutcome::Inserted
                && final(self).rows@ == old(self).rows@.push(
                OwnershipRow { user_id: user, channel_id: channel },
            ),
    {
        if fail {
            return InsertOutcome::Failed;
        }
        match self.get_owned_channel(user, false) {
            Ok(Some(_)) => InsertOutcome::NoOp,
            _ => {
                proof {
                    lemma_row_index(self.rows@, user);
                }
                self.rows.push(OwnershipRow { user_id: user, channel_id: channel });
                InsertOutcome::Inserted
            },
        }
    }

    /// Unconditionally points the user's stored room at `channel`.
    ///
    /// The administrative escape hatch: no channel-existence check is made.
    /// When the user has no row the update is a no-op reported as
    /// `Ok(false)` — the row is not created, matching a keyed update that
    /// affects zero rows.
    pub fn update_ownership_channel(&mut self, user: u64, channel: u64, fail: bool) -> (r: Result<
        bool,
        RoomError,
    >)
        requires
            old(self).wf(),
        ensures
            final(self).wf(),
            fail ==> r == Result::<bool, RoomError>::Err(RoomError::Store) && final(self).rows@
                == old(self).rows@,
            !fail && spec_lookup(old(self).rows@, user) is None ==> r == Result::<
                bool,
                RoomError,
            >::Ok(false) && final(self).rows@ == old(self).rows@,
            !fail && spec_lookup(old(self).rows@, user) is Some ==> r == Result::<
                bool,
                RoomError,
            >::Ok(true) && final(self).rows@ == old(self).rows@.update(
                row_index(old(self).rows@, user),
                OwnershipRow { user_id: user, channel_id: channel },
            ),
    {
        if fail {
            return Err(RoomError::Store);
        }
        let n = self.rows.len();
        for i in 0..n
            invariant
                !fail,
                n == self.rows.len(),
                self.rows@ == old(self).rows@,
                old(self).wf(),
                forall|j: int| 0 <= j < i ==> self.rows@[j].user_id != user,
        {
            if self.rows[i].user_id == user {
                proof {
                    lemma_row_index(self.rows@, user);
                }
                self.rows[i] = OwnershipRow { user_id: user, channel_id: channel };
                return Ok(true);
            }
        }
        proof {
            lemma_row_index(self.rows@, user);
        }
        Ok(false)
    }
}

/// The store never holds two rows for one user: in a well-formed relation,
/// the rows whose `user_id` is `user` number at most one.
pub proof fn lemma_at_most_one_row(t: OwnershipTable, user: u64)
    requires
        t.wf(),
    ensures
        t.rows@.filter(|r: OwnershipRow| r.user_id == user).len() <= 1,
{
    lemma_unique_filter(t.rows@, user);
}

proof fn lemma_unique_filter(rows: Seq<OwnershipRow>, user: u64)
    requires
        forall|i: int, j: int| 0 <= i < j < rows.len() ==> rows[i].user_id != rows[j].user_id,
    ensures
        rows.filter(|r: OwnershipRow| r.user_id == user).len() <= 1,
    decreases rows.len(),
{
    reveal(Seq::filter);
    if rows.len() == 0 {
    } else {
        let rest = rows.drop_last();
        lemma_unique_filter(rest, user);
        if rows.last().user_id == user {
            lemma_no_match_filter_empty(rest, user);
        }
    }
}

proof fn lemma_no_match_filter_empty(rows: Seq<OwnershipRow>, user: u64)
    requires
        forall|i: int| 0 <= i < rows.len() ==> rows[i].user_id != user,
    ensures
        rows.filter(|r: OwnershipRow| r.user_id == user).len() == 0,
    decreases rows.len(),
{
    reveal(Seq::filter);
    if rows.len() == 0 {
    } else {
        lemma_no_match_filter_empty(rows.drop_last(), user);
    }
}

} // verus!
