//! Permission overwrites on a room channel.
//!
//! A room's access model is a list of per-subject overwrites. At creation it
//! holds exactly two: the owner is allowed everything, and the well-known
//! "everyone" role is denied view/connect. Keys (per-guest grants) and the
//! open/close toggle are layered on top by upserting or clearing single
//! overwrites. Only the three permission sets the workflow ever writes are
//! distinguished; the platform's full permission-bit semantics stay outside
//! the model.

use vstd::prelude::*;

verus! {

/// Whom an overwrite applies to.
#[derive(Clone, Copy, Debug, PartialEq, Eq, Structural)]
pub enum Subject {
    /// A single member, by user identifier.
    Member(u64),
    /// A role, by role identifier.
    Role(u64),
}

/// The permission set an overwrite carries.
#[derive(Clone, Copy, Debug, PartialEq, Eq, Structural)]
pub enum Access {
    /// Every permission allowed (the room's owner).
    AllowAll,
    /// View and connect allowed (an open door, or a key).
    AllowViewConnect,
    /// View and connect denied (a closed door, or a revoked key).
    DenyViewConnect,
}

/// One permission overwrite: a subject and what it is allowed or denied.
#[derive(Clone, Copy, Debug, PartialEq, Eq, Structural)]
pub struct Overwrite {
    pub who: Subject,
    pub access: Access,
}

/// The two overwrites every room is created with: the owner allowed
/// everything, the everyone role denied view/connect.
pub open spec fn initial_overwrites_spec(owner: u64, everyone_role: u64) -> Seq<Overwrite> {
    seq![
        Overwrite { who: Subject::Member(owner), access: Access::AllowAll },
        Overwrite { who: Subject::Role(everyone_role), access: Access::DenyViewConnect },
    ]
}

/// Builds the creation-time overwrite list for a room.
pub fn initial_overwrites(owner: u64, everyone_role: u64) -> (r: Vec<Overwrite>)
    ensures
        r@ == initial_overwrites_spec(owner, everyone_role),
{
    let mut r: Vec<Overwrite> = Vec::new();
    r.push(Overwrite { who: Subject::Member(owner), access: Access::AllowAll });
    r.push(Overwrite { who: Subject::Role(everyone_role), access: Access::DenyViewConnect });
    proof {
        assert(r@ =~= initial_overwrites_spec(owner, everyone_role));
    }
    r
}

/// Index of the overwrite for `who`, or `-1` when there is none.
pub open spec fn ow_index(ows: Seq<Overwrite>, who: Subject) -> int
    decreases ows.len(),
{
    if ows.len() == 0 {
        -1
    } else if ows[0].who == who {
        0
    } else {
        let rest = ow_index(ows.drop_first(), who);
        if rest < 0 {
            -1
        } else {
            rest + 1
        }
    }
}

/// What `ow_index` finds: the first overwrite for `who`, in bounds, with no
/// earlier match; `-1` exactly when no overwrite matches.
pub proof fn lemma_ow_index(ows: Seq<Overwrite>, who: Subject)
    ensures
        ow_index(ows, who) == -1 <==> (forall|j: int| 0 <= j < ows.len() ==> ows[j].who != who),
        ow_index(ows, who) != -1 ==> 0 <= ow_index(ows, who) < ows.len()
            && ows[ow_index(ows, who)].who == who && (forall|j: int|
            0 <= j < ow_index(ows, who) ==> ows[j].who != who),
    decreases ows.len(),
{
    if ows.len() == 0 {
    } else if ows[0].who == who {
    } else {
        lemma_ow_index(ows.drop_first(), who);
        assert forall|j: int| 1 <= j < ows.len() implies ows[j] == ows.drop_first()[j - 1] by {}
    }
}

/// The overwrite list after an idempotent upsert for `who`: an existing
/// entry is replaced in place, a missing one is appended.
pub open spec fn upsert_ow(ows: Seq<Overwrite>, who: Subject, access: Access) -> Seq<Overwrite> {
    let i = ow_index(ows, who);
    if i >= 0 {
        ows.update(i, Overwrite { who, access })
    } else {
        ows.push(Overwrite { who, access })
    }
}

/// The overwrite list after the entry for `who` is cleared; unchanged when
/// there is none.
pub open spec fn clear_ow(ows: Seq<Overwrite>, who: Subject) -> Seq<Overwrite> {
    let i = ow_index(ows, who);
    if i >= 0 {
        ows.remove(i)
    } else {
        ows
    }
}

} // verus!
