use hotel_bot::errors::RoomError;
use hotel_bot::store::{InsertOutcome, OwnershipRow, OwnershipTable};

#[test]
fn lookup_on_empty_store_misses() {
    let store = OwnershipTable::new();
    assert_eq!(store.get_owned_channel(7, false), Ok(None));
}

#[test]
fn insert_then_lookup_finds_the_row() {
    let mut store = OwnershipTable::new();
    assert_eq!(store.insert_ownership(7, 42, false), InsertOutcome::Inserted);
    assert_eq!(store.get_owned_channel(7, false), Ok(Some(42)));
    assert_eq!(store.get_owned_channel(8, false), Ok(None));
}

#[test]
fn duplicate_insert_is_a_noop_and_keeps_the_first_row() {
    let mut store = OwnershipTable::new();
    assert_eq!(store.insert_ownership(7, 42, false), InsertOutcome::Inserted);
    assert_eq!(store.insert_ownership(7, 43, false), InsertOutcome::NoOp);
    assert_eq!(store.get_owned_channel(7, false), Ok(Some(42)));
    assert_eq!(store.rows.len(), 1);
}

#[test]
fn failed_insert_leaves_the_relation_alone() {
    let mut store = OwnershipTable::new();
    assert_eq!(store.insert_ownership(7, 42, true), InsertOutcome::Failed);
    assert_eq!(store.rows.len(), 0);
}

#[test]
fn failed_lookup_is_a_store_error_not_a_miss() {
    let mut store = OwnershipTable::new();
    assert_eq!(store.insert_ownership(7, 42, false), InsertOutcome::Inserted);
    assert_eq!(store.get_owned_channel(7, true), Err(RoomError::Store));
}

#[test]
fn update_overwrites_an_existing_row() {
    let mut store = OwnershipTable::new();
    assert_eq!(store.insert_ownership(7, 42, false), InsertOutcome::Inserted);
    assert_eq!(store.update_ownership_channel(7, 99, false), Ok(true));
    assert_eq!(store.get_owned_channel(7, false), Ok(Some(99)));
    assert_eq!(store.rows.len(), 1);
}

#[test]
fn update_of_a_missing_row_is_a_noop() {
    let mut store = OwnershipTable::new();
    assert_eq!(store.update_ownership_channel(7, 99, false), Ok(false));
    assert_eq!(store.rows.len(), 0);
}

#[test]
fn at_most_one_row_per_user_across_operations() {
    let mut store = OwnershipTable::new();
    store.insert_ownership(1, 10, false);
    store.insert_ownership(2, 20, false);
    store.insert_ownership(1, 11, false);
    store.update_ownership_channel(2, 21, false);
    store.insert_ownership(2, 22, true);
    let rows_for_1: Vec<&OwnershipRow> =
        store.rows.iter().filter(|r| r.user_id == 1).collect();
    let rows_for_2: Vec<&OwnershipRow> =
        store.rows.iter().filter(|r| r.user_id == 2).collect();
    assert_eq!(rows_for_1.len(), 1);
    assert_eq!(rows_for_2.len(), 1);
    assert_eq!(rows_for_1[0].channel_id, 10);
    assert_eq!(rows_for_2[0].channel_id, 21);
}

#[test]
fn clock_reads_a_time_after_the_epoch() {
    assert!(hotel_bot::helpers::get_unix_timestamp_now().is_some());
}
