//! Error taxonomy of the room workflow.
//!
//! A lookup miss (`NoRoom`) is the dominant expected failure and is kept
//! apart from transport-level store failures, so a command surface can render
//! a benign "you don't have a room" message instead of a generic one.

use vstd::prelude::*;

verus! {

/// The step of the `create` saga whose failure triggered a rollback.
///
/// When the compensating channel deletion itself fails, the reported error
/// wraps this fault so that the original cause is preserved rather than
/// replaced.
#[derive(Clone, Copy, Debug, PartialEq, Eq, Structural)]
pub enum SagaFault {
    /// The ownership insert affected no row: the user already owns a room.
    PersistNoOp,
    /// The ownership insert failed inside the store (transport or query).
    PersistStore,
    /// The platform rejected the role grant.
    Role,
}

/// Everything a room operation can fail with.
#[derive(Clone, Copy, Debug, PartialEq, Eq, Structural)]
pub enum RoomError {
    /// Channel creation, deletion or permission editing failed, or the
    /// command was not issued in a server context.
    Provision,
    /// The ownership insert affected no row (conflicting key).
    StoreNoOp,
    /// A store query or connection failed.
    Store,
    /// The user has no stored room. Expected, not exceptional.
    NoRoom,
    /// The role grant failed.
    Role,
    /// A compensating channel deletion failed; holds the fault that
    /// triggered the rollback, so the original cause is never swallowed.
    Compensation(SagaFault),
}

/// The error reported for a saga fault once its rollback has succeeded.
pub open spec fn fault_error(f: SagaFault) -> RoomError {
    match f {
        SagaFault::PersistNoOp => RoomError::StoreNoOp,
        SagaFault::PersistStore => RoomError::Store,
        SagaFault::Role => RoomError::Role,
    }
}

/// Executable counterpart of [`fault_error`].
pub fn error_of_fault(f: SagaFault) -> (r: RoomError)
    ensures
        r == fault_error(f),
{
    match f {
        SagaFault::PersistNoOp => RoomError::StoreNoOp,
        SagaFault::PersistStore => RoomError::Store,
        SagaFault::Role => RoomError::Role,
    }
}

} // verus!
