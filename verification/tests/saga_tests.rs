use hotel_bot::errors::{RoomError, SagaFault};
use hotel_bot::saga::{saga_start, saga_step, SagaAction, SagaEvent, SagaState};

#[test]
fn saga_begins_by_provisioning() {
    let s = saga_start();
    assert_eq!(s.state, SagaState::Provisioning);
    assert_eq!(s.action, SagaAction::CreateChannel);
}

#[test]
fn provision_failure_ends_the_saga_with_no_compensation() {
    let s = saga_start();
    let s = saga_step(&s.state, &SagaEvent::ProvisionFailed);
    assert_eq!(s.state, SagaState::Failed { error: RoomError::Provision });
    assert_eq!(s.action, SagaAction::Stop);
}

#[test]
fn happy_path_provisions_persists_grants() {
    let s = saga_start();
    let s = saga_step(&s.state, &SagaEvent::ProvisionOk { channel: 42 });
    assert_eq!(s.state, SagaState::Persisting { channel: 42 });
    assert_eq!(s.action, SagaAction::InsertOwnership { channel: 42 });
    let s = saga_step(&s.state, &SagaEvent::PersistOk);
    assert_eq!(s.state, SagaState::Granting { channel: 42 });
    assert_eq!(s.action, SagaAction::GrantRole);
    let s = saga_step(&s.state, &SagaEvent::RoleOk);
    assert_eq!(s.state, SagaState::Done { channel: 42 });
    assert_eq!(s.action, SagaAction::Stop);
}

#[test]
fn persist_noop_rolls_back_and_reports_the_noop() {
    let s = saga_start();
    let s = saga_step(&s.state, &SagaEvent::ProvisionOk { channel: 42 });
    let s = saga_step(&s.state, &SagaEvent::PersistNoOp);
    assert_eq!(
        s.state,
        SagaState::RollingBack { channel: 42, fault: SagaFault::PersistNoOp }
    );
    assert_eq!(s.action, SagaAction::DeleteChannel { channel: 42 });
    let s = saga_step(&s.state, &SagaEvent::DeleteOk);
    assert_eq!(s.state, SagaState::Failed { error: RoomError::StoreNoOp });
}

#[test]
fn persist_failure_rolls_back_and_reports_the_store_error() {
    let s = saga_start();
    let s = saga_step(&s.state, &SagaEvent::ProvisionOk { channel: 42 });
    let s = saga_step(&s.state, &SagaEvent::PersistFailed);
    assert_eq!(
        s.state,
        SagaState::RollingBack { channel: 42, fault: SagaFault::PersistStore }
    );
    let s = saga_step(&s.state, &SagaEvent::DeleteOk);
    assert_eq!(s.state, SagaState::Failed { error: RoomError::Store });
}

#[test]
fn role_failure_rolls_back_and_reports_the_role_error() {
    let s = saga_start();
    let s = saga_step(&s.state, &SagaEvent::ProvisionOk { channel: 42 });
    let s = saga_step(&s.state, &SagaEvent::PersistOk);
    let s = saga_step(&s.state, &SagaEvent::RoleFailed);
    assert_eq!(s.state, SagaState::RollingBack { channel: 42, fault: SagaFault::Role });
    assert_eq!(s.action, SagaAction::DeleteChannel { channel: 42 });
    let s = saga_step(&s.state, &SagaEvent::DeleteOk);
    assert_eq!(s.state, SagaState::Failed { error: RoomError::Role });
}

#[test]
fn failed_rollback_wraps_the_original_fault() {
    let s = saga_start();
    let s = saga_step(&s.state, &SagaEvent::ProvisionOk { channel: 42 });
    let s = saga_step(&s.state, &SagaEvent::PersistNoOp);
    let s = saga_step(&s.state, &SagaEvent::DeleteFailed);
    assert_eq!(
        s.state,
        SagaState::Failed { error: RoomError::Compensation(SagaFault::PersistNoOp) }
    );
    assert_eq!(s.action, SagaAction::Stop);
}
