use hotel_bot::errors::{RoomError, SagaFault};
use hotel_bot::perms::{Access, Overwrite, Subject};
use hotel_bot::platform::Platform;
use hotel_bot::store::{InsertOutcome, OwnershipRow, OwnershipTable};
use hotel_bot::types::Data;
use hotel_bot::workflow::{
    close, create, fetch_guest_room, key_create, key_revoke, open, reset_name, reset_room_id,
    FaultPlan,
};

const JANE: u64 = 7;
const GUEST: u64 = 8;
const EVERYONE: u64 = 11;
const MEMBER_ROLE: u64 = 22;
const CATEGORY: u64 = 33;

fn cfg() -> Data {
    Data::new(0, EVERYONE, MEMBER_ROLE, CATEGORY, 44, 55)
}

fn fresh_world() -> (OwnershipTable, Platform) {
    (OwnershipTable::new(), Platform::new(100))
}

#[test]
fn create_succeeds_end_to_end() {
    let (mut store, mut platform) = fresh_world();
    let cfg = cfg();
    let r = create(
        &mut store,
        &mut platform,
        &cfg,
        JANE,
        &b"Jane Doe".to_vec(),
        &FaultPlan::none(),
    );
    assert_eq!(r, Ok(100));
    assert_eq!(platform.channels.len(), 1);
    let c = &platform.channels[0];
    assert_eq!(c.id, 100);
    assert_eq!(c.name, b"room-janedoe".to_vec());
    assert_eq!(c.category, CATEGORY);
    assert!(c.nsfw);
    assert_eq!(
        c.overwrites,
        vec![
            Overwrite { who: Subject::Member(JANE), access: Access::AllowAll },
            Overwrite { who: Subject::Role(EVERYONE), access: Access::DenyViewConnect },
        ]
    );
    assert_eq!(store.rows, vec![OwnershipRow { user_id: JANE, channel_id: 100 }]);
    assert_eq!(platform.role_grants.len(), 1);
    assert_eq!(platform.role_grants[0].user_id, JANE);
    assert_eq!(platform.role_grants[0].role_id, MEMBER_ROLE);
}

#[test]
fn provision_failure_changes_nothing() {
    let (mut store, mut platform) = fresh_world();
    let cfg = cfg();
    let mut plan = FaultPlan::none();
    plan.provision = true;
    let r = create(&mut store, &mut platform, &cfg, JANE, &b"Jane Doe".to_vec(), &plan);
    assert_eq!(r, Err(RoomError::Provision));
    assert!(store.rows.is_empty());
    assert!(platform.channels.is_empty());
    assert!(platform.role_grants.is_empty());
}

#[test]
fn duplicate_create_compensates_and_keeps_the_old_row() {
    let (mut store, mut platform) = fresh_world();
    let cfg = cfg();
    assert_eq!(store.insert_ownership(JANE, 42, false), InsertOutcome::Inserted);
    let r = create(
        &mut store,
        &mut platform,
        &cfg,
        JANE,
        &b"Jane Doe".to_vec(),
        &FaultPlan::none(),
    );
    assert_eq!(r, Err(RoomError::StoreNoOp));
    // the freshly provisioned channel was deleted again
    assert!(platform.channels.is_empty());
    assert!(platform.role_grants.is_empty());
    assert_eq!(store.rows, vec![OwnershipRow { user_id: JANE, channel_id: 42 }]);
}

#[test]
fn store_failure_compensates_and_reports_the_store_error() {
    let (mut store, mut platform) = fresh_world();
    let cfg = cfg();
    let mut plan = FaultPlan::none();
    plan.store = true;
    let r = create(&mut store, &mut platform, &cfg, JANE, &b"Jane Doe".to_vec(), &plan);
    assert_eq!(r, Err(RoomError::Store));
    assert!(store.rows.is_empty());
    assert!(platform.channels.is_empty());
    assert!(platform.role_grants.is_empty());
}

#[test]
fn failed_compensation_keeps_the_orphan_and_the_cause() {
    let (mut store, mut platform) = fresh_world();
    let cfg = cfg();
    let mut plan = FaultPlan::none();
    plan.store = true;
    plan.delete = true;
    let r = create(&mut store, &mut platform, &cfg, JANE, &b"Jane Doe".to_vec(), &plan);
    assert_eq!(r, Err(RoomError::Compensation(SagaFault::PersistStore)));
    // the deletion failed, so the channel is orphaned, but the original
    // cause is still reported
    assert_eq!(platform.channels.len(), 1);
    assert!(store.rows.is_empty());
    assert!(platform.role_grants.is_empty());
}

#[test]
fn role_failure_deletes_the_channel_but_leaves_the_row_dangling() {
    let (mut store, mut platform) = fresh_world();
    let cfg = cfg();
    let mut plan = FaultPlan::none();
    plan.grant = true;
    let r = create(&mut store, &mut platform, &cfg, JANE, &b"Jane Doe".to_vec(), &plan);
    assert_eq!(r, Err(RoomError::Role));
    assert!(platform.channels.is_empty());
    assert!(platform.role_grants.is_empty());
    // the known gap: the ownership row remains, pointing at the deleted
    // channel
    assert_eq!(store.rows, vec![OwnershipRow { user_id: JANE, channel_id: 100 }]);
}

#[test]
fn every_derived_operation_misses_with_no_room() {
    let (store, mut platform) = fresh_world();
    let cfg = cfg();
    let plan = FaultPlan::none();
    // an unrelated channel shows that nothing on the platform is touched
    platform
        .create_channel(&b"bystander".to_vec(), Vec::new(), CATEGORY, false, false)
        .unwrap();
    let before = platform.channels.len();
    assert_eq!(fetch_guest_room(&store, JANE, &plan), Err(RoomError::NoRoom));
    assert_eq!(key_create(&store, &mut platform, JANE, GUEST, &plan), Err(RoomError::NoRoom));
    assert_eq!(key_revoke(&store, &mut platform, JANE, GUEST, &plan), Err(RoomError::NoRoom));
    assert_eq!(open(&store, &mut platform, &cfg, JANE, &plan), Err(RoomError::NoRoom));
    assert_eq!(close(&store, &mut platform, &cfg, JANE, &plan), Err(RoomError::NoRoom));
    let r = reset_name(&store, &mut platform, JANE, &b"Jane Doe".to_vec(), &plan);
    assert_eq!(r, Err(RoomError::NoRoom));
    assert_eq!(platform.channels.len(), before);
    assert_eq!(platform.channels[0].overwrites, Vec::new());
    assert!(platform.role_grants.is_empty());
}

#[test]
fn lookup_failure_is_a_store_error_not_no_room() {
    let (store, mut platform) = fresh_world();
    let cfg = cfg();
    let mut plan = FaultPlan::none();
    plan.store = true;
    assert_eq!(open(&store, &mut platform, &cfg, JANE, &plan), Err(RoomError::Store));
}

#[test]
fn key_create_grants_a_key_to_the_guest() {
    let (mut store, mut platform) = fresh_world();
    let cfg = cfg();
    let plan = FaultPlan::none();
    create(&mut store, &mut platform, &cfg, JANE, &b"Jane Doe".to_vec(), &plan).unwrap();
    assert_eq!(key_create(&store, &mut platform, JANE, GUEST, &plan), Ok(()));
    let c = &platform.channels[0];
    assert_eq!(
        c.overwrites[2],
        Overwrite { who: Subject::Member(GUEST), access: Access::AllowViewConnect }
    );
}

#[test]
fn revoking_a_never_granted_key_still_denies_the_guest() {
    let (mut store, mut platform) = fresh_world();
    let cfg = cfg();
    let plan = FaultPlan::none();
    create(&mut store, &mut platform, &cfg, JANE, &b"Jane Doe".to_vec(), &plan).unwrap();
    assert_eq!(key_revoke(&store, &mut platform, JANE, GUEST, &plan), Ok(()));
    let c = &platform.channels[0];
    assert_eq!(
        c.overwrites[2],
        Overwrite { who: Subject::Member(GUEST), access: Access::DenyViewConnect }
    );
}

#[test]
fn revoking_an_existing_key_flips_it_in_place() {
    let (mut store, mut platform) = fresh_world();
    let cfg = cfg();
    let plan = FaultPlan::none();
    create(&mut store, &mut platform, &cfg, JANE, &b"Jane Doe".to_vec(), &plan).unwrap();
    key_create(&store, &mut platform, JANE, GUEST, &plan).unwrap();
    key_revoke(&store, &mut platform, JANE, GUEST, &plan).unwrap();
    let c = &platform.channels[0];
    assert_eq!(c.overwrites.len(), 3);
    assert_eq!(
        c.overwrites[2],
        Overwrite { who: Subject::Member(GUEST), access: Access::DenyViewConnect }
    );
}

#[test]
fn close_then_open_restores_the_open_overwrites_exactly() {
    let (mut store, mut platform) = fresh_world();
    let cfg = cfg();
    let plan = FaultPlan::none();
    create(&mut store, &mut platform, &cfg, JANE, &b"Jane Doe".to_vec(), &plan).unwrap();
    open(&store, &mut platform, &cfg, JANE, &plan).unwrap();
    let opened = platform.channels[0].overwrites.clone();
    assert_eq!(
        opened,
        vec![
            Overwrite { who: Subject::Member(JANE), access: Access::AllowAll },
            Overwrite { who: Subject::Role(EVERYONE), access: Access::AllowViewConnect },
        ]
    );
    close(&store, &mut platform, &cfg, JANE, &plan).unwrap();
    assert_eq!(
        platform.channels[0].overwrites,
        vec![
            Overwrite { who: Subject::Member(JANE), access: Access::AllowAll },
            Overwrite { who: Subject::Role(EVERYONE), access: Access::DenyViewConnect },
        ]
    );
    open(&store, &mut platform, &cfg, JANE, &plan).unwrap();
    // no trace of the deny overwrite remains: the lists are equal
    assert_eq!(platform.channels[0].overwrites, opened);
}

#[test]
fn reset_name_is_a_noop_when_the_name_is_already_canonical() {
    let (mut store, mut platform) = fresh_world();
    let cfg = cfg();
    let plan = FaultPlan::none();
    create(&mut store, &mut platform, &cfg, JANE, &b"Jane Doe".to_vec(), &plan).unwrap();
    let r = reset_name(&store, &mut platform, JANE, &b"Jane Doe".to_vec(), &plan);
    assert_eq!(r, Ok(false));
    assert_eq!(platform.channels[0].name, b"room-janedoe".to_vec());
}

#[test]
fn reset_name_renames_a_drifted_channel_back() {
    let (mut store, mut platform) = fresh_world();
    let cfg = cfg();
    let plan = FaultPlan::none();
    create(&mut store, &mut platform, &cfg, JANE, &b"Jane Doe".to_vec(), &plan).unwrap();
    platform.rename_channel(100, &b"party-hall".to_vec(), false).unwrap();
    let r = reset_name(&store, &mut platform, JANE, &b"Jane Doe".to_vec(), &plan);
    assert_eq!(r, Ok(true));
    assert_eq!(platform.channels[0].name, b"room-janedoe".to_vec());
}

#[test]
fn reset_room_id_overwrites_an_existing_mapping() {
    let (mut store, mut platform) = fresh_world();
    let cfg = cfg();
    let plan = FaultPlan::none();
    create(&mut store, &mut platform, &cfg, JANE, &b"Jane Doe".to_vec(), &plan).unwrap();
    assert_eq!(reset_room_id(&mut store, JANE, 9999, &plan), Ok(true));
    assert_eq!(store.rows, vec![OwnershipRow { user_id: JANE, channel_id: 9999 }]);
    // the escape hatch makes no channel-existence check
    assert_eq!(fetch_guest_room(&store, JANE, &plan), Ok(9999));
}

#[test]
fn reset_room_id_of_a_roomless_user_affects_no_row() {
    let (mut store, _) = fresh_world();
    let plan = FaultPlan::none();
    assert_eq!(reset_room_id(&mut store, JANE, 9999, &plan), Ok(false));
    assert!(store.rows.is_empty());
}

#[test]
fn two_rooms_get_distinct_channels_and_rows() {
    let (mut store, mut platform) = fresh_world();
    let cfg = cfg();
    let plan = FaultPlan::none();
    let a = create(&mut store, &mut platform, &cfg, JANE, &b"Jane Doe".to_vec(), &plan);
    let b = create(&mut store, &mut platform, &cfg, GUEST, &b"Ann".to_vec(), &plan);
    assert_eq!(a, Ok(100));
    assert_eq!(b, Ok(101));
    assert_eq!(store.rows.len(), 2);
    assert_eq!(platform.channels.len(), 2);
    assert_eq!(platform.channels[1].name, b"room-ann".to_vec());
}

#[test]
fn role_failure_with_failed_deletion_wraps_the_role_fault() {
    let (mut store, mut platform) = fresh_world();
    let cfg = cfg();
    let mut plan = FaultPlan::none();
    plan.grant = true;
    plan.delete = true;
    let r = create(&mut store, &mut platform, &cfg, JANE, &b"Jane Doe".to_vec(), &plan);
    assert_eq!(r, Err(RoomError::Compensation(SagaFault::Role)));
    // neither rollback step worked: orphan channel and dangling row remain
    assert_eq!(platform.channels.len(), 1);
    assert_eq!(store.rows, vec![OwnershipRow { user_id: JANE, channel_id: 100 }]);
    assert!(platform.role_grants.is_empty());
}

#[test]
fn failed_permission_edit_changes_no_overwrite() {
    let (mut store, mut platform) = fresh_world();
    let cfg = cfg();
    let plan = FaultPlan::none();
    create(&mut store, &mut platform, &cfg, JANE, &b"Jane Doe".to_vec(), &plan).unwrap();
    let before = platform.channels[0].overwrites.clone();
    let mut failing = FaultPlan::none();
    failing.edit = true;
    assert_eq!(
        key_create(&store, &mut platform, JANE, GUEST, &failing),
        Err(RoomError::Provision)
    );
    assert_eq!(close(&store, &mut platform, &cfg, JANE, &failing), Err(RoomError::Provision));
    assert_eq!(platform.channels[0].overwrites, before);
}

#[test]
fn failed_rename_leaves_the_drifted_name() {
    let (mut store, mut platform) = fresh_world();
    let cfg = cfg();
    let plan = FaultPlan::none();
    create(&mut store, &mut platform, &cfg, JANE, &b"Jane Doe".to_vec(), &plan).unwrap();
    platform.rename_channel(100, &b"party-hall".to_vec(), false).unwrap();
    let mut failing = FaultPlan::none();
    failing.rename = true;
    let r = reset_name(&store, &mut platform, JANE, &b"Jane Doe".to_vec(), &failing);
    assert_eq!(r, Err(RoomError::Provision));
    assert_eq!(platform.channels[0].name, b"party-hall".to_vec());
}

#[test]
fn failed_update_reports_a_store_error() {
    let (mut store, _) = fresh_world();
    store.insert_ownership(JANE, 42, false);
    let mut failing = FaultPlan::none();
    failing.store = true;
    assert_eq!(reset_room_id(&mut store, JANE, 9999, &failing), Err(RoomError::Store));
    assert_eq!(store.rows, vec![OwnershipRow { user_id: JANE, channel_id: 42 }]);
}
