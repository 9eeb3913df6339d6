//! The room workflow orchestrator, verified against the in-process models.
//!
//! `create` runs the three-step saga by driving the decision machine in
//! `saga`: it performs each prescribed action against the store and
//! platform models and feeds the outcome back in. The derived operations
//! all follow one pattern: resolve the caller's channel through the
//! ownership store, then edit the channel's permissions.
//!
//! Every operation takes a [`FaultPlan`]: the behaviour of the external
//! systems for this one invocation, one flag per call the operation can
//! make. The contracts quantify over all plans, so they state what happens
//! on every combination of external failures — including that a failed
//! `create` never leaves an orphaned channel unless the compensating
//! deletion itself failed, and that a role-grant failure leaves the
//! ownership row dangling (the workflow's known, deliberate gap).

use vstd::prelude::*;

use crate::errors::{RoomError, SagaFault};
use crate::name::{canonical_name, generate_room_name};
use crate::perms::{
    clear_ow, initial_overwrites, initial_overwrites_spec, upsert_ow, Access, Overwrite, Subject,
};
use crate::platform::{
    chan_index, lemma_chan_index, made_channel, same_chan_with_name, same_chan_with_ows, ChannelRec,
    Platform, RoleGrant,
};
use crate::saga::{saga_start, saga_step, SagaEvent, SagaState};
use crate::store::{row_index, spec_lookup, InsertOutcome, OwnershipRow, OwnershipTable};
use crate::types::Data;

verus! {

/// How the external systems behave during one invocation: each flag makes
/// the corresponding external call fail when the operation issues it.
#[derive(Clone, Copy, Debug, PartialEq, Eq, Structural)]
pub struct FaultPlan {
    /// Channel creation fails.
    pub provision: bool,
    /// The store call (lookup, insert or update) fails.
    pub store: bool,
    /// The role grant fails.
    pub grant: bool,
    /// The compensating channel deletion fails.
    pub delete: bool,
    /// A permission-overwrite edit fails.
    pub edit: bool,
    /// The channel rename fails.
    pub rename: bool,
    /// The channel-name fetch yields nothing.
    pub name_fetch: bool,
}

impl FaultPlan {
    /// Every external call succeeds.
    pub fn none() -> (r: Self)
        ensures
            r == (FaultPlan {
                provision: false,
                store: false,
                grant: false,
                delete: false,
                edit: false,
                rename: false,
                name_fetch: false,
            }),
    {
        FaultPlan {
            provision: false,
            store: false,
            grant: false,
            delete: false,
            edit: false,
            rename: false,
            name_fetch: false,
        }
    }
}

/// `p1` is `p0` with one extra channel: the room just provisioned for
/// `owner` — canonical name, the two initial overwrites, the configured
/// category, NSFW-flagged, carrying identifier `id`.
pub open spec fn room_appended(
    p0: Platform,
    p1: Platform,
    id: u64,
    owner: u64,
    username: Seq<u8>,
    cfg: Data,
) -> bool {
    p1.channels@.len() == p0.channels@.len() + 1 && p1.channels@.take(p0.channels@.len() as int)
        == p0.channels@ && made_channel(
        p1.channels@.last(),
        id,
        canonical_name(username),
        cfg.discord_category_rooms,
        true,
        initial_overwrites_spec(owner, cfg.discord_role_everyone),
    )
}

/// `p1` is `p0` with the overwrite list of channel `ch` replaced by `ows`
/// and nothing else changed.
pub open spec fn ows_updated(p0: Platform, p1: Platform, ch: u64, ows: Seq<Overwrite>) -> bool {
    let ci = chan_index(p0.channels@, ch);
    p1.channels@.len() == p0.channels@.len() && (forall|j: int|
        0 <= j < p0.channels@.len() && j != ci ==> p1.channels@[j] == p0.channels@[j])
        && same_chan_with_ows(p0.channels@[ci], p1.channels@[ci], ows) && p1.role_grants@
        == p0.role_grants@ && p1.next_channel_id == p0.next_channel_id
}

/// `p1` is `p0` with channel `ch` renamed to `name` and nothing else
/// changed.
pub open spec fn name_updated(p0: Platform, p1: Platform, ch: u64, name: Seq<u8>) -> bool {
    let ci = chan_index(p0.channels@, ch);
    p1.channels@.len() == p0.channels@.len() && (forall|j: int|
        0 <= j < p0.channels@.len() && j != ci ==> p1.channels@[j] == p0.channels@[j])
        && same_chan_with_name(p0.channels@[ci], p1.channels@[ci], name) && p1.role_grants@
        == p0.role_grants@ && p1.next_channel_id == p0.next_channel_id
}

/// Creates a room for a user: provision the voice channel, persist the
/// ownership row, grant the member role, compensating with channel
/// deletion when a later step fails.
///
/// The contract walks every outcome of the saga:
/// - provisioning fails: nothing was created, nothing changes;
/// - persistence fails (store failure or conflicting key): the channel is
///   deleted again, the relation and the grants are untouched, and the
///   persistence error is reported — wrapped as a compensation error when
///   the deletion itself failed, never replaced by it;
/// - the role grant fails: the channel is deleted, but the freshly written
///   ownership row remains, now dangling — the workflow's known gap;
/// - every step succeeds: the room exists with its canonical name and
///   initial overwrites, the row binds the user to it, the role is
///   granted, and the new channel's identifier is returned.
pub fn create(
    store: &mut OwnershipTable,
    platform: &mut Platform,
    cfg: &Data,
    user_id: u64,
    username: &Vec<u8>,
    plan: &FaultPlan,
) -> (r: Result<u64, RoomError>)
    requires
        old(store).wf(),
        old(platform).wf(),
        old(platform).next_channel_id < u64::MAX,
    ensures
        final(store).wf(),
        final(platform).wf(),
        plan.provision ==> r == Result::<u64, RoomError>::Err(RoomError::Provision) && *final(store) == *old(store) && *final(platform) == *old(platform),
        !plan.provision && plan.store && !plan.delete ==> r == Result::<u64, RoomError>::Err(
            RoomError::Store,
        ) && final(store).rows@ == old(store).rows@ && final(platform).channels@ == old(
            platform,
        ).channels@ && final(platform).role_grants@ == old(platform).role_grants@,
        !plan.provision && plan.store && plan.delete ==> r == Result::<u64, RoomError>::Err(
            RoomError::Compensation(SagaFault::PersistStore),
        ) && final(store).rows@ == old(store).rows@ && room_appended(
            *old(platform),
            *final(platform),
            old(platform).next_channel_id,
            user_id,
            username@,
            *cfg,
        ) && final(platform).role_grants@ == old(platform).role_grants@,
        !plan.provision && !plan.store && spec_lookup(old(store).rows@, user_id) is Some
            && !plan.delete ==> r == Result::<u64, RoomError>::Err(RoomError::StoreNoOp) && final(store).rows@ == old(store).rows@ && final(platform).channels@ == old(platform).channels@
            && final(platform).role_grants@ == old(platform).role_grants@,
        !plan.provision && !plan.store && spec_lookup(old(store).rows@, user_id) is Some
            && plan.delete ==> r == Result::<u64, RoomError>::Err(
            RoomError::Compensation(SagaFault::PersistNoOp),
        ) && final(store).rows@ == old(store).rows@ && room_appended(
            *old(platform),
            *final(platform),
            old(platform).next_channel_id,
            user_id,
            username@,
            *cfg,
        ) && final(platform).role_grants@ == old(platform).role_grants@,
        !plan.provision && !plan.store && spec_lookup(old(store).rows@, user_id) is None
            && plan.grant && !plan.delete ==> r == Result::<u64, RoomError>::Err(RoomError::Role)
            && final(store).rows@ == old(store).rows@.push(
            OwnershipRow { user_id, channel_id: old(platform).next_channel_id },
        ) && final(platform).channels@ == old(platform).channels@ && final(platform).role_grants@
            == old(platform).role_grants@,
        !plan.provision && !plan.store && spec_lookup(old(store).rows@, user_id) is None
            && plan.grant && plan.delete ==> r == Result::<u64, RoomError>::Err(
            RoomError::Compensation(SagaFault::Role),
        ) && final(store).rows@ == old(store).rows@.push(
            OwnershipRow { user_id, channel_id: old(platform).next_channel_id },
        ) && room_appended(
            *old(platform),
            *final(platform),
            old(platform).next_channel_id,
            user_id,
            username@,
            *cfg,
        ) && final(platform).role_grants@ == old(platform).role_grants@,
        !plan.provision && !plan.store && spec_lookup(old(store).rows@, user_id) is None
            && !plan.grant ==> r == Result::<u64, RoomError>::Ok(old(platform).next_channel_id)
            && final(store).rows@ == old(store).rows@.push(
            OwnershipRow { user_id, channel_id: old(platform).next_channel_id },
        ) && room_appended(
            *old(platform),
            *final(platform),
            old(platform).next_channel_id,
            user_id,
            username@,
            *cfg,
        ) && final(platform).role_grants@ == old(platform).role_grants@.push(
            RoleGrant { user_id, role_id: cfg.discord_role_hotel_member },
        ),
        !plan.provision ==> final(platform).next_channel_id == old(platform).next_channel_id + 1,
{
    let name = generate_room_name(username);
    let step = saga_start();

    // Step 1: provision the channel.
    let ows = initial_overwrites(user_id, cfg.discord_role_everyone);
    let outcome = platform.create_channel(
        &name,
        ows,
        cfg.discord_category_rooms,
        true,
        plan.provision,
    );
    let event = match outcome {
        Ok(c) => SagaEvent::ProvisionOk { channel: c },
        Err(_) => SagaEvent::ProvisionFailed,
    };
    let step = saga_step(&step.state, &event);
    let channel: u64 = match step.state {
        SagaState::Failed { error } => {
            return Err(error);
        },
        SagaState::Persisting { channel } => channel,
        _ => {
            proof {
                assert(false);
            }
            return Err(RoomError::Provision);
        },
    };

    // Step 2: persist the ownership row.
    let event = match store.insert_ownership(user_id, channel, plan.store) {
        InsertOutcome::Inserted => SagaEvent::PersistOk,
        InsertOutcome::NoOp => SagaEvent::PersistNoOp,
        InsertOutcome::Failed => SagaEvent::PersistFailed,
    };
    let step = saga_step(&step.state, &event);
    match step.state {
        SagaState::RollingBack { channel: rb, fault: _ } => {
            proof {
                lemma_fresh_channel_is_last(*old(platform), *platform, channel);
            }
            let event = match platform.delete_channel(rb, plan.delete) {
                Ok(()) => SagaEvent::DeleteOk,
                Err(_) => SagaEvent::DeleteFailed,
            };
            let step = saga_step(&step.state, &event);
            proof {
                if !plan.delete {
                    assert(platform.channels@ =~= old(platform).channels@);
                }
            }
            match step.state {
                SagaState::Failed { error } => {
                    return Err(error);
                },
                _ => {
                    proof {
                        assert(false);
                    }
                    return Err(RoomError::Store);
                },
            }
        },
        SagaState::Granting { .. } => {},
        _ => {
            proof {
                assert(false);
            }
            return Err(RoomError::Store);
        },
    }

    // Step 3: grant the member role.
    let event = match platform.grant_role(user_id, cfg.discord_role_hotel_member, plan.grant) {
        Ok(()) => SagaEvent::RoleOk,
        Err(_) => SagaEvent::RoleFailed,
    };
    let step = saga_step(&step.state, &event);
    match step.state {
        SagaState::RollingBack { channel: rb, fault: _ } => {
            proof {
                lemma_fresh_channel_is_last(*old(platform), *platform, channel);
            }
            let event = match platform.delete_channel(rb, plan.delete) {
                Ok(()) => SagaEvent::DeleteOk,
                Err(_) => SagaEvent::DeleteFailed,
            };
            let step = saga_step(&step.state, &event);
            proof {
                if !plan.delete {
                    assert(platform.channels@ =~= old(platform).channels@);
                }
            }
            match step.state {
                SagaState::Failed { error } => Err(error),
                _ => {
                    proof {
                        assert(false);
                    }
                    Err(RoomError::Role)
                },
            }
        },
        SagaState::Done { channel: done_channel } => Ok(done_channel),
        _ => {
            proof {
                assert(false);
            }
            Err(RoomError::Role)
        },
    }
}

/// Resolves which channel a user controls, as every derived operation
/// does first: a transport failure is a store error, a missing row is the
/// benign `NoRoom`, a present row yields its channel.
pub fn fetch_guest_room(store: &OwnershipTable, user: u64, plan: &FaultPlan) -> (r: Result<
    u64,
    RoomError,
>)
    ensures
        plan.store ==> r == Result::<u64, RoomError>::Err(RoomError::Store),
        !plan.store && spec_lookup(store.rows@, user) is None ==> r == Result::<
            u64,
            RoomError,
        >::Err(RoomError::NoRoom),
        !plan.store && spec_lookup(store.rows@, user) is Some ==> r == Result::<
            u64,
            RoomError,
        >::Ok(spec_lookup(store.rows@, user).unwrap()),
{
    match store.get_owned_channel(user, plan.store) {
        Err(e) => Err(e),
        Ok(None) => Err(RoomError::NoRoom),
        Ok(Some(ch)) => Ok(ch),
    }
}

/// Grants a guest a key to the caller's room: an allow-view/connect
/// overwrite for the guest on the resolved channel. Fails with `NoRoom`,
/// and touches nothing, when the caller has no stored room.
pub fn key_create(
    store: &OwnershipTable,
    platform: &mut Platform,
    user_id: u64,
    guest_id: u64,
    plan: &FaultPlan,
) -> (r: Result<(), RoomError>)
    requires
        old(platform).wf(),
    ensures
        final(platform).wf(),
        plan.store ==> r == Result::<(), RoomError>::Err(RoomError::Store) && *final(platform)
            == *old(platform),
        !plan.store && spec_lookup(store.rows@, user_id) is None ==> r == Result::<
            (),
            RoomError,
        >::Err(RoomError::NoRoom) && *final(platform) == *old(platform),
        !plan.store && spec_lookup(store.rows@, user_id) is Some && plan.edit ==> r == Result::<
            (),
            RoomError,
        >::Err(RoomError::Provision) && *final(platform) == *old(platform),
        !plan.store && spec_lookup(store.rows@, user_id) is Some && !plan.edit && chan_index(
            old(platform).channels@,
            spec_lookup(store.rows@, user_id).unwrap(),
        ) == -1 ==> r == Result::<(), RoomError>::Err(RoomError::Provision) && *final(platform)
            == *old(platform),
        !plan.store && spec_lookup(store.rows@, user_id) is Some && !plan.edit && chan_index(
            old(platform).channels@,
            spec_lookup(store.rows@, user_id).unwrap(),
        ) != -1 ==> r == Result::<(), RoomError>::Ok(()) && ows_updated(
            *old(platform),
            *final(platform),
            spec_lookup(store.rows@, user_id).unwrap(),
            upsert_ow(
                old(platform).channels@[chan_index(
                    old(platform).channels@,
                    spec_lookup(store.rows@, user_id).unwrap(),
                )].overwrites@,
                Subject::Member(guest_id),
                Access::AllowViewConnect,
            ),
        ),
{
    let channel = match fetch_guest_room(store, user_id, plan) {
        Err(e) => {
            return Err(e);
        },
        Ok(c) => c,
    };
    platform.set_overwrite(channel, Subject::Member(guest_id), Access::AllowViewConnect, plan.edit)
}

/// Revokes a guest's key: an explicit deny-view/connect overwrite for the
/// guest, whether or not a key was ever granted. Fails with `NoRoom`, and
/// touches nothing, when the caller has no stored room.
pub fn key_revoke(
    store: &OwnershipTable,
    platform: &mut Platform,
    user_id: u64,
    guest_id: u64,
    plan: &FaultPlan,
) -> (r: Result<(), RoomError>)
    requires
        old(platform).wf(),
    ensures
        final(platform).wf(),
        plan.store ==> r == Result::<(), RoomError>::Err(RoomError::Store) && *final(platform)
            == *old(platform),
        !plan.store && spec_lookup(store.rows@, user_id) is None ==> r == Result::<
            (),
            RoomError,
        >::Err(RoomError::NoRoom) && *final(platform) == *old(platform),
        !plan.store && spec_lookup(store.rows@, user_id) is Some && plan.edit ==> r == Result::<
            (),
            RoomError,
        >::Err(RoomError::Provision) && *final(platform) == *old(platform),
        !plan.store && spec_lookup(store.rows@, user_id) is Some && !plan.edit && chan_index(
            old(platform).channels@,
            spec_lookup(store.rows@, user_id).unwrap(),
        ) == -1 ==> r == Result::<(), RoomError>::Err(RoomError::Provision) && *final(platform)
            == *old(platform),
        !plan.store && spec_lookup(store.rows@, user_id) is Some && !plan.edit && chan_index(
            old(platform).channels@,
            spec_lookup(store.rows@, user_id).unwrap(),
        ) != -1 ==> r == Result::<(), RoomError>::Ok(()) && ows_updated(
            *old(platform),
            *final(platform),
            spec_lookup(store.rows@, user_id).unwrap(),
            upsert_ow(
                old(platform).channels@[chan_index(
                    old(platform).channels@,
                    spec_lookup(store.rows@, user_id).unwrap(),
                )].overwrites@,
                Subject::Member(guest_id),
                Access::DenyViewConnect,
            ),
        ),
{
    let channel = match fetch_guest_room(store, user_id, plan) {
        Err(e) => {
            return Err(e);
        },
        Ok(c) => c,
    };
    platform.set_overwrite(channel, Subject::Member(guest_id), Access::DenyViewConnect, plan.edit)
}

/// Opens the room's door: the everyone role is allowed view/connect on the
/// resolved channel. Fails with `NoRoom`, and touches nothing, when the
/// caller has no stored room.
pub fn open(
    store: &OwnershipTable,
    platform: &mut Platform,
    cfg: &Data,
    user_id: u64,
    plan: &FaultPlan,
) -> (r: Result<(), RoomError>)
    requires
        old(platform).wf(),
    ensures
        final(platform).wf(),
        plan.store ==> r == Result::<(), RoomError>::Err(RoomError::Store) && *final(platform)
            == *old(platform),
        !plan.store && spec_lookup(store.rows@, user_id) is None ==> r == Result::<
            (),
            RoomError,
        >::Err(RoomError::NoRoom) && *final(platform) == *old(platform),
        !plan.store && spec_lookup(store.rows@, user_id) is Some && plan.edit ==> r == Result::<
            (),
            RoomError,
        >::Err(RoomError::Provision) && *final(platform) == *old(platform),
        !plan.store && spec_lookup(store.rows@, user_id) is Some && !plan.edit && chan_index(
            old(platform).channels@,
            spec_lookup(store.rows@, user_id).unwrap(),
        ) == -1 ==> r == Result::<(), RoomError>::Err(RoomError::Provision) && *final(platform)
            == *old(platform),
        !plan.store && spec_lookup(store.rows@, user_id) is Some && !plan.edit && chan_index(
            old(platform).channels@,
            spec_lookup(store.rows@, user_id).unwrap(),
        ) != -1 ==> r == Result::<(), RoomError>::Ok(()) && ows_updated(
            *old(platform),
            *final(platform),
            spec_lookup(store.rows@, user_id).unwrap(),
            upsert_ow(
                old(platform).channels@[chan_index(
                    old(platform).channels@,
                    spec_lookup(store.rows@, user_id).unwrap(),
                )].overwrites@,
                Subject::Role(cfg.discord_role_everyone),
                Access::AllowViewConnect,
            ),
        ),
{
    let channel = match fetch_guest_room(store, user_id, plan) {
        Err(e) => {
            return Err(e);
        },
        Ok(c) => c,
    };
    platform.set_overwrite(
        channel,
        Subject::Role(cfg.discord_role_everyone),
        Access::AllowViewConnect,
        plan.edit,
    )
}

/// Closes the room's door: the everyone-role overwrite is cleared outright
/// and then re-added as deny-view/connect — two calls, kept separate
/// because the platform's upsert semantics around partially specified
/// overwrites are not guaranteed, so the explicit clear makes the deny
/// overwrite the only trace left. Fails with `NoRoom`, and touches
/// nothing, when the caller has no stored room.
pub fn close(
    store: &OwnershipTable,
    platform: &mut Platform,
    cfg: &Data,
    user_id: u64,
    plan: &FaultPlan,
) -> (r: Result<(), RoomError>)
    requires
        old(platform).wf(),
    ensures
        final(platform).wf(),
        plan.store ==> r == Result::<(), RoomError>::Err(RoomError::Store) && *final(platform)
            == *old(platform),
        !plan.store && spec_lookup(store.rows@, user_id) is None ==> r == Result::<
            (),
            RoomError,
        >::Err(RoomError::NoRoom) && *final(platform) == *old(platform),
        !plan.store && spec_lookup(store.rows@, user_id) is Some && plan.edit ==> r == Result::<
            (),
            RoomError,
        >::Err(RoomError::Provision) && *final(platform) == *old(platform),
        !plan.store && spec_lookup(store.rows@, user_id) is Some && !plan.edit && chan_index(
            old(platform).channels@,
            spec_lookup(store.rows@, user_id).unwrap(),
        ) == -1 ==> r == Result::<(), RoomError>::Err(RoomError::Provision) && *final(platform)
            == *old(platform),
        !plan.store && spec_lookup(store.rows@, user_id) is Some && !plan.edit && chan_index(
            old(platform).channels@,
            spec_lookup(store.rows@, user_id).unwrap(),
        ) != -1 ==> r == Result::<(), RoomError>::Ok(()) && ows_updated(
            *old(platform),
            *final(platform),
            spec_lookup(store.rows@, user_id).unwrap(),
            upsert_ow(
                clear_ow(
                    old(platform).channels@[chan_index(
                        old(platform).channels@,
                        spec_lookup(store.rows@, user_id).unwrap(),
                    )].overwrites@,
                    Subject::Role(cfg.discord_role_everyone),
                ),
                Subject::Role(cfg.discord_role_everyone),
                Access::DenyViewConnect,
            ),
        ),
{
    let channel = match fetch_guest_room(store, user_id, plan) {
        Err(e) => {
            return Err(e);
        },
        Ok(c) => c,
    };
    let who = Subject::Role(cfg.discord_role_everyone);
    match platform.clear_overwrite(channel, who, plan.edit) {
        Err(e) => {
            return Err(e);
        },
        Ok(()) => {},
    }
    let ghost mid = *platform;
    proof {
        lemma_chan_index_same_ids(old(platform).channels@, mid.channels@, channel);
    }
    let r = platform.set_overwrite(channel, who, Access::DenyViewConnect, plan.edit);
    proof {
        assert(r == Result::<(), RoomError>::Ok(()));
    }
    r
}

/// Resets a room's name to the canonical one derived from the owner's
/// display name. When the platform already reports the canonical name, no
/// rename call is issued at all and `Ok(false)` is returned; otherwise —
/// also when the current name cannot be fetched — the channel is renamed
/// and `Ok(true)` is returned. Fails with `NoRoom`, and touches nothing,
/// when the user has no stored room.
pub fn reset_name(
    store: &OwnershipTable,
    platform: &mut Platform,
    user_id: u64,
    username: &Vec<u8>,
    plan: &FaultPlan,
) -> (r: Result<bool, RoomError>)
    requires
        old(platform).wf(),
    ensures
        final(platform).wf(),
        plan.store ==> r == Result::<bool, RoomError>::Err(RoomError::Store) && *final(platform)
            == *old(platform),
        !plan.store && spec_lookup(store.rows@, user_id) is None ==> r == Result::<
            bool,
            RoomError,
        >::Err(RoomError::NoRoom) && *final(platform) == *old(platform),
        !plan.store && spec_lookup(store.rows@, user_id) is Some && !plan.name_fetch && chan_index(
            old(platform).channels@,
            spec_lookup(store.rows@, user_id).unwrap(),
        ) != -1 && old(platform).channels@[chan_index(
            old(platform).channels@,
            spec_lookup(store.rows@, user_id).unwrap(),
        )].name@ == canonical_name(username@) ==> r == Result::<bool, RoomError>::Ok(false)
            && *final(platform) == *old(platform),
        !plan.store && spec_lookup(store.rows@, user_id) is Some && chan_index(
            old(platform).channels@,
            spec_lookup(store.rows@, user_id).unwrap(),
        ) == -1 ==> r == Result::<bool, RoomError>::Err(RoomError::Provision) && *final(platform)
            == *old(platform),
        !plan.store && spec_lookup(store.rows@, user_id) is Some && chan_index(
            old(platform).channels@,
            spec_lookup(store.rows@, user_id).unwrap(),
        ) != -1 && (plan.name_fetch || old(platform).channels@[chan_index(
            old(platform).channels@,
            spec_lookup(store.rows@, user_id).unwrap(),
        )].name@ != canonical_name(username@)) && plan.rename ==> r == Result::<
            bool,
            RoomError,
        >::Err(RoomError::Provision) && *final(platform) == *old(platform),
        !plan.store && spec_lookup(store.rows@, user_id) is Some && chan_index(
            old(platform).channels@,
            spec_lookup(store.rows@, user_id).unwrap(),
        ) != -1 && (plan.name_fetch || old(platform).channels@[chan_index(
            old(platform).channels@,
            spec_lookup(store.rows@, user_id).unwrap(),
        )].name@ != canonical_name(username@)) && !plan.rename ==> r == Result::<
            bool,
            RoomError,
        >::Ok(true) && name_updated(
            *old(platform),
            *final(platform),
            spec_lookup(store.rows@, user_id).unwrap(),
            canonical_name(username@),
        ),
{
    let channel = match fetch_guest_room(store, user_id, plan) {
        Err(e) => {
            return Err(e);
        },
        Ok(c) => c,
    };
    let expected = generate_room_name(username);
    let current = platform.name_of(channel, plan.name_fetch);
    let is_correct = match &current {
        Some(cur) => crate::name::bytes_eq(cur, &expected),
        // an unknown current name never equals the canonical one, which is
        // never empty
        None => false,
    };
    if is_correct {
        return Ok(false);
    }
    match platform.rename_channel(channel, &expected, plan.rename) {
        Ok(()) => Ok(true),
        Err(e) => Err(e),
    }
}

/// Unconditionally points the user's stored room at `channel_id` — the
/// privileged escape hatch for a dangling row. No channel-existence check
/// is made; a user with no row is left without one, reported as
/// `Ok(false)`.
pub fn reset_room_id(
    store: &mut OwnershipTable,
    user_id: u64,
    channel_id: u64,
    plan: &FaultPlan,
) -> (r: Result<bool, RoomError>)
    requires
        old(store).wf(),
    ensures
        final(store).wf(),
        plan.store ==> r == Result::<bool, RoomError>::Err(RoomError::Store) && final(store).rows@
            == old(store).rows@,
        !plan.store && spec_lookup(old(store).rows@, user_id) is None ==> r == Result::<
            bool,
            RoomError,
        >::Ok(false) && final(store).rows@ == old(store).rows@,
        !plan.store && spec_lookup(old(store).rows@, user_id) is Some ==> r == Result::<
            bool,
            RoomError,
        >::Ok(true) && final(store).rows@ == old(store).rows@.update(
            row_index(old(store).rows@, user_id),
            OwnershipRow { user_id, channel_id },
        ),
{
    store.update_ownership_channel(user_id, channel_id, plan.store)
}

/// Two channel lists with pointwise equal identifiers locate every
/// identifier at the same index.
proof fn lemma_chan_index_same_ids(a: Seq<ChannelRec>, b: Seq<ChannelRec>, id: u64)
    requires
        a.len() == b.len(),
        forall|j: int| 0 <= j < a.len() ==> a[j].id == b[j].id,
    ensures
        chan_index(a, id) == chan_index(b, id),
    decreases a.len(),
{
    if a.len() == 0 {
    } else if a[0].id == id {
    } else {
        assert forall|j: int| 0 <= j < a.drop_first().len() implies a.drop_first()[j].id
            == b.drop_first()[j].id by {
            assert(a.drop_first()[j] == a[j + 1]);
            assert(b.drop_first()[j] == b[j + 1]);
        }
        lemma_chan_index_same_ids(a.drop_first(), b.drop_first(), id);
    }
}

/// In a platform that is `p0` with one channel appended, the appended
/// channel — whose identifier `p0` had not yet allocated — is found last.
proof fn lemma_fresh_channel_is_last(p0: Platform, p1: Platform, id: u64)
    requires
        p0.wf(),
        p1.channels@.len() == p0.channels@.len() + 1,
        p1.channels@.take(p0.channels@.len() as int) == p0.channels@,
        p1.channels@.last().id == id,
        id >= p0.next_channel_id,
    ensures
        chan_index(p1.channels@, id) == p0.channels@.len(),
        p1.channels@.remove(chan_index(p1.channels@, id)) == p0.channels@,
{
    let n0 = p0.channels@.len() as int;
    assert forall|j: int| 0 <= j < n0 implies p1.channels@[j].id != id by {
        assert(p1.channels@.take(n0)[j] == p1.channels@[j]);
        assert(p0.channels@[j].id < p0.next_channel_id);
    }
    lemma_chan_index(p1.channels@, id);
    assert(p1.channels@[n0].id == id);
    assert(chan_index(p1.channels@, id) == n0);
    assert(p1.channels@.remove(n0) =~= p0.channels@);
}

} // verus!
