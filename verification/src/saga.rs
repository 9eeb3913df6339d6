//! The `create` workflow as a pure decision machine.
//!
//! Creating a room is a three-step saga across two systems that share no
//! transaction: provision the channel, persist the ownership row, grant the
//! member role. When a later step fails, the already-created channel is
//! deleted as a compensating action; the ownership row is deliberately not
//! compensated after a role failure, reproducing the known gap of the
//! workflow. A deletion failure during rollback is reported as a
//! compensation error that wraps the fault which triggered the rollback.
//!
//! The machine itself performs no external call: `saga_step` maps the
//! current state and the outcome of the last action to the next state and
//! the next action. A host drives it by performing each action against the
//! real systems and feeding the outcome back in; the verified orchestrator
//! in `workflow` drives the same machine against the in-process models.

use vstd::prelude::*;

use crate::errors::{fault_error, RoomError, SagaFault};

verus! {

/// Where the `create` saga stands.
#[derive(Clone, Copy, Debug, PartialEq, Eq, Structural)]
pub enum SagaState {
    /// Waiting for the outcome of channel creation.
    Provisioning,
    /// The channel exists; waiting for the outcome of the ownership insert.
    Persisting { channel: u64 },
    /// Channel and row exist; waiting for the outcome of the role grant.
    Granting { channel: u64 },
    /// A step failed after the channel was created; waiting for the outcome
    /// of the compensating deletion. `fault` is the step that failed.
    RollingBack { channel: u64, fault: SagaFault },
    /// The saga finished: the room exists and the role is granted.
    Done { channel: u64 },
    /// The saga finished: the invocation failed with this error.
    Failed { error: RoomError },
}

/// The outcome of the last action, as the host observed it.
#[derive(Clone, Copy, Debug, PartialEq, Eq, Structural)]
pub enum SagaEvent {
    /// The channel was created and got this identifier.
    ProvisionOk { channel: u64 },
    /// Channel creation failed or there was no server context.
    ProvisionFailed,
    /// The ownership insert wrote exactly one row.
    PersistOk,
    /// The ownership insert affected no row (conflicting key).
    PersistNoOp,
    /// The ownership insert failed in the store.
    PersistFailed,
    /// The role grant succeeded.
    RoleOk,
    /// The role grant was rejected.
    RoleFailed,
    /// The compensating deletion succeeded.
    DeleteOk,
    /// The compensating deletion itself failed.
    DeleteFailed,
}

/// What the host must do next.
#[derive(Clone, Copy, Debug, PartialEq, Eq, Structural)]
pub enum SagaAction {
    /// Create the voice channel: canonical name, the two initial
    /// overwrites, the rooms category, NSFW-flagged.
    CreateChannel,
    /// Insert the ownership row binding the user to this channel.
    InsertOwnership { channel: u64 },
    /// Grant the member role to the user.
    GrantRole,
    /// Delete this channel (compensation).
    DeleteChannel { channel: u64 },
    /// Nothing: the saga has finished, the state is terminal.
    Stop,
}

/// One step: the state entered and the action to perform next.
#[derive(Clone, Copy, Debug, PartialEq, Eq, Structural)]
pub struct SagaStep {
    pub state: SagaState,
    pub action: SagaAction,
}

/// Whether `event` can answer the action issued in `state`. Terminal
/// states expect no event.
pub open spec fn saga_expects(state: SagaState, event: SagaEvent) -> bool {
    match state {
        SagaState::Provisioning => event is ProvisionOk || event is ProvisionFailed,
        SagaState::Persisting { .. } => event is PersistOk || event is PersistNoOp
            || event is PersistFailed,
        SagaState::Granting { .. } => event is RoleOk || event is RoleFailed,
        SagaState::RollingBack { .. } => event is DeleteOk || event is DeleteFailed,
        SagaState::Done { .. } => false,
        SagaState::Failed { .. } => false,
    }
}

/// The state after `event` answers the action issued in `state`.
pub open spec fn saga_next(state: SagaState, event: SagaEvent) -> SagaState {
    match (state, event) {
        (SagaState::Provisioning, SagaEvent::ProvisionOk { channel }) => (SagaState::Persisting {
            channel,
        }),
        (SagaState::Provisioning, SagaEvent::ProvisionFailed) => (SagaState::Failed {
            error: RoomError::Provision,
        }),
        (SagaState::Persisting { channel }, SagaEvent::PersistOk) => (SagaState::Granting {
            channel,
        }),
        (SagaState::Persisting { channel }, SagaEvent::PersistNoOp) => (SagaState::RollingBack {
            channel,
            fault: SagaFault::PersistNoOp,
        }),
        (SagaState::Persisting { channel }, SagaEvent::PersistFailed) => (SagaState::RollingBack {
            channel,
            fault: SagaFault::PersistStore,
        }),
        (SagaState::Granting { channel }, SagaEvent::RoleOk) => (SagaState::Done { channel }),
        (SagaState::Granting { channel }, SagaEvent::RoleFailed) => (SagaState::RollingBack {
            channel,
            fault: SagaFault::Role,
        }),
        (SagaState::RollingBack { channel: _, fault }, SagaEvent::DeleteOk) => (SagaState::Failed {
            error: fault_error(fault),
        }),
        (
            SagaState::RollingBack { channel: _, fault },
            SagaEvent::DeleteFailed,
        ) => (SagaState::Failed { error: RoomError::Compensation(fault) }),
        _ => state,
    }
}

/// The action to perform from the state `saga_next` enters.
pub open spec fn saga_action(state: SagaState) -> SagaAction {
    match state {
        SagaState::Provisioning => SagaAction::CreateChannel,
        SagaState::Persisting { channel } => SagaAction::InsertOwnership { channel },
        SagaState::Granting { .. } => SagaAction::GrantRole,
        SagaState::RollingBack { channel, .. } => SagaAction::DeleteChannel { channel },
        SagaState::Done { .. } => SagaAction::Stop,
        SagaState::Failed { .. } => SagaAction::Stop,
    }
}

/// The saga's entry point: provision first.
pub fn saga_start() -> (r: SagaStep)
    ensures
        r.state == SagaState::Provisioning,
        r.action == saga_action(r.state),
{
    SagaStep { state: SagaState::Provisioning, action: SagaAction::CreateChannel }
}

/// Advances the saga by one observed outcome.
pub fn saga_step(state: &SagaState, event: &SagaEvent) -> (r: SagaStep)
    requires
        saga_expects(*state, *event),
    ensures
        r.state == saga_next(*state, *event),
        r.action == saga_action(r.state),
{
    let next = match (state, event) {
        (SagaState::Provisioning, SagaEvent::ProvisionOk { channel }) => SagaState::Persisting {
            channel: *channel,
        },
        (SagaState::Provisioning, SagaEvent::ProvisionFailed) => SagaState::Failed {
            error: RoomError::Provision,
        },
        (SagaState::Persisting { channel }, SagaEvent::PersistOk) => SagaState::Granting {
            channel: *channel,
        },
        (SagaState::Persisting { channel }, SagaEvent::PersistNoOp) => SagaState::RollingBack {
            channel: *channel,
            fault: SagaFault::PersistNoOp,
        },
        (SagaState::Persisting { channel }, SagaEvent::PersistFailed) => SagaState::RollingBack {
            channel: *channel,
            fault: SagaFault::PersistStore,
        },
        (SagaState::Granting { channel }, SagaEvent::RoleOk) => SagaState::Done {
            channel: *channel,
        },
        (SagaState::Granting { channel }, SagaEvent::RoleFailed) => SagaState::RollingBack {
            channel: *channel,
            fault: SagaFault::Role,
        },
        (SagaState::RollingBack { channel: _, fault }, SagaEvent::DeleteOk) => SagaState::Failed {
            error: crate::errors::error_of_fault(*fault),
        },
        (SagaState::RollingBack { channel: _, fault }, SagaEvent::DeleteFailed) => {
            SagaState::Failed { error: RoomError::Compensation(*fault) }
        },
        _ => *state,
    };
    let action = match next {
        SagaState::Provisioning => SagaAction::CreateChannel,
        SagaState::Persisting { channel } => SagaAction::InsertOwnership { channel },
        SagaState::Granting { .. } => SagaAction::GrantRole,
        SagaState::RollingBack { channel, .. } => SagaAction::DeleteChannel { channel },
        SagaState::Done { .. } => SagaAction::Stop,
        SagaState::Failed { .. } => SagaAction::Stop,
    };
    SagaStep { state: next, action }
}

} // verus!
