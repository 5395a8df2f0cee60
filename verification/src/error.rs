use vstd::prelude::*;

verus! {

/// Validation failures of the domain types. The domain does no I/O, so this
/// covers only broken invariants of value objects and entities.
#[derive(Debug, Clone, PartialEq, Eq, Structural)]
pub enum DomainError {
    /// A telegram id must be positive.
    InvalidTelegramId(i64),
    /// A timezone offset must lie between -12:00 and +14:00 (in minutes).
    InvalidTimeZoneOffset(i32),
    /// A successful count must lie between 0 and 5.
    InvalidSuccessfulCount(u8),
    /// A task title must not be blank.
    EmptyTaskTitle,
    /// The ten-minute check is already closed.
    TenMinCheckAlreadyClosed,
    /// A reason can only be appended to a check closed as `NoResponse`.
    ReasonNotAllowedForStatus,
    /// The reason of this check has already been set.
    ReasonAlreadySet,
}

} // verus!
