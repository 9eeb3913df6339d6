//! A model of the chat platform: voice channels, their permission
//! overwrites, and role grants.
//!
//! The real platform owns these resources and is reached over the network;
//! the workflow only ever observes it through the handful of calls modelled
//! here. Each executable operation takes the platform's behaviour for this
//! one call as an explicit `fail` argument (a rejected request, a missing
//! server context, a rate limit), so its contract speaks about every
//! outcome the real call can have. Channel identifiers are allocated
//! strictly increasing, which keeps them unique — all the workflow relies
//! on.

use vstd::prelude::*;

use crate::errors::RoomError;
use crate::perms::{clear_ow, lemma_ow_index, ow_index, upsert_ow, Access, Overwrite, Subject};

verus! {

/// One voice channel as the workflow sees it.
#[verifier::ext_equal]
pub struct ChannelRec {
    pub id: u64,
    /// The channel's current name, as bytes.
    pub name: Vec<u8>,
    /// The parent category the channel sits under.
    pub category: u64,
    /// Rooms are created NSFW-flagged.
    pub nsfw: bool,
    /// The channel's permission overwrites, one per subject.
    pub overwrites: Vec<Overwrite>,
}

/// One role grant: `user_id` holds `role_id`.
#[derive(Clone, Copy, Debug, PartialEq, Eq, Structural)]
pub struct RoleGrant {
    pub user_id: u64,
    pub role_id: u64,
}

/// Index of the channel with identifier `id`, or `-1` when none is live.
pub open spec fn chan_index(chans: Seq<ChannelRec>, id: u64) -> int
    decreases chans.len(),
{
    if chans.len() == 0 {
        -1
    } else if chans[0].id == id {
        0
    } else {
        let rest = chan_index(chans.drop_first(), id);
        if rest < 0 {
            -1
        } else {
            rest + 1
        }
    }
}

/// What `chan_index` finds: the first channel with `id`, in bounds, with no
/// earlier match; `-1` exactly when no channel has that identifier.
pub proof fn lemma_chan_index(chans: Seq<ChannelRec>, id: u64)
    ensures
        chan_index(chans, id) == -1 <==> (forall|j: int|
            0 <= j < chans.len() ==> chans[j].id != id),
        chan_index(chans, id) != -1 ==> 0 <= chan_index(chans, id) < chans.len()
            && chans[chan_index(chans, id)].id == id && (forall|j: int|
            0 <= j < chan_index(chans, id) ==> chans[j].id != id),
    decreases chans.len(),
{
    if chans.len() == 0 {
    } else if chans[0].id == id {
    } else {
        lemma_chan_index(chans.drop_first(), id);
        assert forall|j: int| 1 <= j < chans.len() implies chans[j] == chans.drop_first()[j - 1]
            by {}
    }
}

/// At most one overwrite per subject on a channel.
pub open spec fn chan_ows_wf(c: ChannelRec) -> bool {
    forall|i: int, j: int|
        0 <= i < j < c.overwrites@.len() ==> c.overwrites@[i].who != c.overwrites@[j].who
}

/// A channel as `create_channel` leaves it.
pub open spec fn made_channel(
    c: ChannelRec,
    id: u64,
    name: Seq<u8>,
    category: u64,
    nsfw: bool,
    ows: Seq<Overwrite>,
) -> bool {
    c.id == id && c.name@ == name && c.category == category && c.nsfw == nsfw && c.overwrites@
        == ows
}

/// `c2` is `c1` with its overwrite list replaced by `ows`.
pub open spec fn same_chan_with_ows(c1: ChannelRec, c2: ChannelRec, ows: Seq<Overwrite>) -> bool {
    c2.id == c1.id && c2.name == c1.name && c2.category == c1.category && c2.nsfw == c1.nsfw
        && c2.overwrites@ == ows
}

/// `c2` is `c1` renamed to `name`.
pub open spec fn same_chan_with_name(c1: ChannelRec, c2: ChannelRec, name: Seq<u8>) -> bool {
    c2.id == c1.id && c2.name@ == name && c2.category == c1.category && c2.nsfw == c1.nsfw
        && c2.overwrites == c1.overwrites
}

/// Finds the overwrite for `who`, as `ow_index` describes it.
fn find_ow(ows: &Vec<Overwrite>, who: Subject) -> (r: Option<usize>)
    ensures
        r is None <==> ow_index(ows@, who) == -1,
        r matches Some(i) ==> i as int == ow_index(ows@, who),
{
    let n = ows.len();
    for i in 0..n
        invariant
            n == ows.len(),
            forall|j: int| 0 <= j < i ==> ows@[j].who != who,
    {
        if ows[i].who == who {
            proof {
                lemma_ow_index(ows@, who);
            }
            return Some(i);
        }
    }
    proof {
        lemma_ow_index(ows@, who);
    }
    None
}

/// The platform's observable state.
pub struct Platform {
    /// The live voice channels.
    pub channels: Vec<ChannelRec>,
    /// Every role grant made, in order.
    pub role_grants: Vec<RoleGrant>,
    /// The identifier the next created channel will get.
    pub next_channel_id: u64,
}

impl Platform {
    /// Channel identifiers are unique, below the allocator's next value,
    /// and every channel holds at most one overwrite per subject.
    pub open spec fn wf(self) -> bool {
        &&& forall|i: int, j: int|
            0 <= i < j < self.channels@.len() ==> self.channels@[i].id != self.channels@[j].id
        &&& forall|i: int|
            0 <= i < self.channels@.len() ==> self.channels@[i].id < self.next_channel_id
        &&& forall|i: int|
            0 <= i < self.channels@.len() ==> chan_ows_wf(#[trigger] self.channels@[i])
    }

    /// A platform with no channels and no grants, allocating identifiers
    /// from `first_channel_id` on.
    pub fn new(first_channel_id: u64) -> (r: Self)
        ensures
            r.channels@ == Seq::<ChannelRec>::empty(),
            r.role_grants@ == Seq::<RoleGrant>::empty(),
            r.next_channel_id == first_channel_id,
            r.wf(),
    {
        let channels: Vec<ChannelRec> = Vec::new();
        let role_grants: Vec<RoleGrant> = Vec::new();
        proof {
            assert(channels@ =~= Seq::<ChannelRec>::empty());
            assert(role_grants@ =~= Seq::<RoleGrant>::empty());
        }
        Platform { channels, role_grants, next_channel_id: first_channel_id }
    }

    /// Creates a voice channel with the given name, overwrites and parent
    /// category, returning its new identifier.
    pub fn create_channel(
        &mut self,
        name: &Vec<u8>,
        overwrites: Vec<Overwrite>,
        category: u64,
        nsfw: bool,
        fail: bool,
    ) -> (r: Result<u64, RoomError>)
        requires
            old(self).wf(),
            old(self).next_channel_id < u64::MAX,
            forall|i: int, j: int|
                0 <= i < j < overwrites@.len() ==> overwrites@[i].who != overwrites@[j].who,
        ensures
            final(self).wf(),
            fail ==> r == Result::<u64, RoomError>::Err(RoomError::Provision) && *final(self)
                == *old(self),
            !fail ==> r == Result::<u64, RoomError>::Ok(old(self).next_channel_id) && final(self).channels@.len() == old(self).channels@.len() + 1 && final(self).channels@.take(
                old(self).channels@.len() as int,
            ) == old(self).channels@ && made_channel(
                final(self).channels@.last(),
                old(self).next_channel_id,
                name@,
                category,
                nsfw,
                overwrites@,
            ) && final(self).role_grants@ == old(self).role_grants@ && final(self).next_channel_id
                == old(self).next_channel_id + 1,
    {
        if fail {
            return Err(RoomError::Provision);
        }
        let id = self.next_channel_id;
        let stored_name = name.clone();
        proof {
            assert(stored_name@ =~= name@);
        }
        let rec = ChannelRec { id, name: stored_name, category, nsfw, overwrites };
        self.channels.push(rec);
        self.next_channel_id = self.next_channel_id + 1;
        proof {
            assert(self.channels@.take(old(self).channels@.len() as int) =~= old(self).channels@);
        }
        Ok(id)
    }

    /// Deletes the channel with identifier `id`; the platform rejects a
    /// deletion of a channel that is not live.
    pub fn delete_channel(&mut self, id: u64, fail: bool) -> (r: Result<(), RoomError>)
        requires
            old(self).wf(),
        ensures
            final(self).wf(),
            fail ==> r == Result::<(), RoomError>::Err(RoomError::Provision) && *final(self)
                == *old(self),
            !fail && chan_index(old(self).channels@, id) == -1 ==> r == Result::<
                (),
                RoomError,
            >::Err(RoomError::Provision) && *final(self) == *old(self),
            !fail && chan_index(old(self).channels@, id) != -1 ==> r == Result::<
                (),
                RoomError,
            >::Ok(()) && final(self).channels@ == old(self).channels@.remove(
                chan_index(old(self).channels@, id),
            ) && final(self).role_grants@ == old(self).role_grants@ && final(self).next_channel_id
                == old(self).next_channel_id,
    {
        if fail {
            return Err(RoomError::Provision);
        }
        let n = self.channels.len();
        for i in 0..n
            invariant
                !fail,
                old(self).wf(),
                n == self.channels.len(),
                *self == *old(self),
                forall|j: int| 0 <= j < i ==> self.channels@[j].id != id,
        {
            if self.channels[i].id == id {
                proof {
                    lemma_chan_index(self.channels@, id);
                }
                self.channels.remove(i);
                return Ok(());
            }
        }
        proof {
            lemma_chan_index(self.channels@, id);
        }
        Err(RoomError::Provision)
    }

    /// Adds `role` to the user's roles. The platform records a grant even
    /// when one is already present; the workflow never relies on more.
    pub fn grant_role(&mut self, user: u64, role: u64, fail: bool) -> (r: Result<(), RoomError>)
        requires
            old(self).wf(),
        ensures
            final(self).wf(),
            fail ==> r == Result::<(), RoomError>::Err(RoomError::Role) && *final(self) == *old(self),
            !fail ==> r == Result::<(), RoomError>::Ok(()) && final(self).role_grants@ == old(self).role_grants@.push(RoleGrant { user_id: user, role_id: role }) && final(self).channels@
                == old(self).channels@ && final(self).next_channel_id == old(self).next_channel_id,
    {
        if fail {
            return Err(RoomError::Role);
        }
        self.role_grants.push(RoleGrant { user_id: user, role_id: role });
        Ok(())
    }

    /// Idempotent upsert of the single overwrite for `who` on a channel:
    /// an existing entry is replaced, a missing one is added.
    pub fn set_overwrite(
        &mut self,
        channel: u64,
        who: Subject,
        access: Access,
        fail: bool,
    ) -> (r: Result<(), RoomError>)
        requires
            old(self).wf(),
        ensures
            final(self).wf(),
            fail ==> r == Result::<(), RoomError>::Err(RoomError::Provision) && *final(self)
                == *old(self),
            !fail && chan_index(old(self).channels@, channel) == -1 ==> r == Result::<
                (),
                RoomError,
            >::Err(RoomError::Provision) && *final(self) == *old(self),
            !fail && chan_index(old(self).channels@, channel) != -1 ==> r == Result::<
                (),
                RoomError,
            >::Ok(()) && final(self).channels@.len() == old(self).channels@.len() && (forall|j: int|
                0 <= j < old(self).channels@.len() && j != chan_index(old(self).channels@, channel)
                    ==> final(self).channels@[j] == old(self).channels@[j]) && same_chan_with_ows(
                old(self).channels@[chan_index(old(self).channels@, channel)],
                final(self).channels@[chan_index(old(self).channels@, channel)],
                upsert_ow(
                    old(self).channels@[chan_index(old(self).channels@, channel)].overwrites@,
                    who,
                    access,
                ),
            ) && final(self).role_grants@ == old(self).role_grants@ && final(self).next_channel_id
                == old(self).next_channel_id,
    {
        if fail {
            return Err(RoomError::Provision);
        }
        let n = self.channels.len();
        for ci in 0..n
            invariant
                !fail,
                old(self).wf(),
                n == self.channels.len(),
                *self == *old(self),
                forall|j: int| 0 <= j < ci ==> self.channels@[j].id != channel,
        {
            if self.channels[ci].id == channel {
                proof {
                    lemma_chan_index(self.channels@, channel);
                }
                let mut c = self.channels.remove(ci);
                let ghost old_c = c;
                match find_ow(&c.overwrites, who) {
                    Some(oi) => {
                        proof {
                            lemma_ow_index(old_c.overwrites@, who);
                        }
                        c.overwrites[oi] = Overwrite { who, access };
                    },
                    None => {
                        c.overwrites.push(Overwrite { who, access });
                    },
                }
                proof {
                    assert(c.overwrites@ =~= upsert_ow(old_c.overwrites@, who, access));
                    assert(chan_ows_wf(old_c));
                    lemma_ow_index(old_c.overwrites@, who);
                    assert forall|a: int, b: int|
                        0 <= a < b < c.overwrites@.len() implies c.overwrites@[a].who
                        != c.overwrites@[b].who by {}
                }
                self.channels.insert(ci, c);
                proof {
                    assert(self.channels@ =~= old(self).channels@.update(
                        ci as int,
                        self.channels@[ci as int],
                    ));
                }
                return Ok(());
            }
        }
        proof {
            lemma_chan_index(self.channels@, channel);
        }
        Err(RoomError::Provision)
    }

    /// Removes the overwrite for `who` from a channel entirely; removing a
    /// missing overwrite succeeds and changes nothing.
    pub fn clear_overwrite(&mut self, channel: u64, who: Subject, fail: bool) -> (r: Result<
        (),
        RoomError,
    >)
        requires
            old(self).wf(),
        ensures
            final(self).wf(),
            fail ==> r == Result::<(), RoomError>::Err(RoomError::Provision) && *final(self)
                == *old(self),
            !fail && chan_index(old(self).channels@, channel) == -1 ==> r == Result::<
                (),
                RoomError,
            >::Err(RoomError::Provision) && *final(self) == *old(self),
            !fail && chan_index(old(self).channels@, channel) != -1 ==> r == Result::<
                (),
                RoomError,
            >::Ok(()) && final(self).channels@.len() == old(self).channels@.len() && (forall|j: int|
                0 <= j < old(self).channels@.len() && j != chan_index(old(self).channels@, channel)
                    ==> final(self).channels@[j] == old(self).channels@[j]) && same_chan_with_ows(
                old(self).channels@[chan_index(old(self).channels@, channel)],
                final(self).channels@[chan_index(old(self).channels@, channel)],
                clear_ow(
                    old(self).channels@[chan_index(old(self).channels@, channel)].overwrites@,
                    who,
                ),
            ) && final(self).role_grants@ == old(self).role_grants@ && final(self).next_channel_id
                == old(self).next_channel_id,
    {
        if fail {
            return Err(RoomError::Provision);
        }
        let n = self.channels.len();
        for ci in 0..n
            invariant
                !fail,
                old(self).wf(),
                n == self.channels.len(),
                *self == *old(self),
                forall|j: int| 0 <= j < ci ==> self.channels@[j].id != channel,
        {
            if self.channels[ci].id == channel {
                proof {
                    lemma_chan_index(self.channels@, channel);
                }
                let mut c = self.channels.remove(ci);
                let ghost old_c = c;
                match find_ow(&c.overwrites, who) {
                    Some(oi) => {
                        proof {
                            lemma_ow_index(old_c.overwrites@, who);
                        }
                        c.overwrites.remove(oi);
                    },
                    None => {},
                }
                proof {
                    assert(c.overwrites@ =~= clear_ow(old_c.overwrites@, who));
                }
                self.channels.insert(ci, c);
                proof {
                    assert(self.channels@ =~= old(self).channels@.update(
                        ci as int,
                        self.channels@[ci as int],
                    ));
                }
                return Ok(());
            }
        }
        proof {
            lemma_chan_index(self.channels@, channel);
        }
        Err(RoomError::Provision)
    }

    /// The current name of a channel, or `None` when the channel is not
    /// live or the lookup fails — callers treat both as an unknown name.
    pub fn name_of(&self, channel: u64, fail: bool) -> (r: Option<Vec<u8>>)
        ensures
            fail ==> r is None,
            !fail && chan_index(self.channels@, channel) == -1 ==> r is None,
            !fail && chan_index(self.channels@, channel) != -1 ==> (r matches Some(name) && name@
                == self.channels@[chan_index(self.channels@, channel)].name@),
    {
        if fail {
            return None;
        }
        let n = self.channels.len();
        for ci in 0..n
            invariant
                !fail,
                n == self.channels.len(),
                forall|j: int| 0 <= j < ci ==> self.channels@[j].id != channel,
        {
            if self.channels[ci].id == channel {
                proof {
                    lemma_chan_index(self.channels@, channel);
                }
                let out = self.channels[ci].name.clone();
                proof {
                    assert(out@ =~= self.channels@[ci as int].name@);
                }
                return Some(out);
            }
        }
        proof {
            lemma_chan_index(self.channels@, channel);
        }
        None
    }

    /// Renames a channel; the platform rejects a rename of a channel that
    /// is not live.
    pub fn rename_channel(&mut self, channel: u64, name: &Vec<u8>, fail: bool) -> (r: Result<
        (),
        RoomError,
    >)
        requires
            old(self).wf(),
        ensures
            final(self).wf(),
            fail ==> r == Result::<(), RoomError>::Err(RoomError::Provision) && *final(self)
                == *old(self),
            !fail && chan_index(old(self).channels@, channel) == -1 ==> r == Result::<
                (),
                RoomError,
            >::Err(RoomError::Provision) && *final(self) == *old(self),
            !fail && chan_index(old(self).channels@, channel) != -1 ==> r == Result::<
                (),
                RoomError,
            >::Ok(()) && final(self).channels@.len() == old(self).channels@.len() && (forall|j: int|
                0 <= j < old(self).channels@.len() && j != chan_index(old(self).channels@, channel)
                    ==> final(self).channels@[j] == old(self).channels@[j]) && same_chan_with_name(
                old(self).channels@[chan_index(old(self).channels@, channel)],
                final(self).channels@[chan_index(old(self).channels@, channel)],
                name@,
            ) && final(self).role_grants@ == old(self).role_grants@ && final(self).next_channel_id
                == old(self).next_channel_id,
    {
        if fail {
            return Err(RoomError::Provision);
        }
        let n = self.channels.len();
        for ci in 0..n
            invariant
                !fail,
                old(self).wf(),
                n == self.channels.len(),
                *self == *old(self),
                forall|j: int| 0 <= j < ci ==> self.channels@[j].id != channel,
        {
            if self.channels[ci].id == channel {
                proof {
                    lemma_chan_index(self.channels@, channel);
                }
                let mut c = self.channels.remove(ci);
                let new_name = name.clone();
                proof {
                    assert(new_name@ =~= name@);
                }
                c.name = new_name;
                self.channels.insert(ci, c);
                proof {
                    assert(self.channels@ =~= old(self).channels@.update(
                        ci as int,
                        self.channels@[ci as int],
                    ));
                }
                return Ok(());
            }
        }
        proof {
            lemma_chan_index(self.channels@, channel);
        }
        Err(RoomError::Provision)
    }
}

} // verus!
