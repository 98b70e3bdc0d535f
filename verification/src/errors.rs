//! Typed error kinds of the protocol, and the abort shape of an operation.
//!
//! Every operation aborts immediately with zero mutation when a check fails.
//! Most failures carry one of the typed kinds below; a few paths (a proof-hash
//! mismatch, an arithmetic trap in the hosting environment) surface as a
//! generic, untyped abort instead, which `Abort::Panic` stands for.

use vstd::prelude::*;

verus! {

/// Typed error kinds raised by the protocol's operations.
#[derive(Clone, Copy, Debug, PartialEq, Eq, Structural)]
pub enum Error {
    ProjectNotFound,
    MilestoneNotFound,
    MilestoneAlreadyReleased,
    InsufficientBalance,
    InvalidMilestones,
    NotAuthorized,
    GoalMismatch,
    AlreadyInitialized,
    RoleNotFound,
}

impl Error {
    /// The stable numeric code of each kind, as exposed on the wire.
    pub fn code(&self) -> (r: u32)
        ensures
            r == self.code_spec(),
    {
        match self {
            Error::ProjectNotFound => 1,
            Error::MilestoneNotFound => 2,
            Error::MilestoneAlreadyReleased => 3,
            Error::InsufficientBalance => 4,
            Error::InvalidMilestones => 5,
            Error::NotAuthorized => 6,
            Error::GoalMismatch => 7,
            Error::AlreadyInitialized => 8,
            Error::RoleNotFound => 9,
        }
    }

    pub open spec fn code_spec(self) -> u32 {
        match self {
            Error::ProjectNotFound => 1,
            Error::MilestoneNotFound => 2,
            Error::MilestoneAlreadyReleased => 3,
            Error::InsufficientBalance => 4,
            Error::InvalidMilestones => 5,
            Error::NotAuthorized => 6,
            Error::GoalMismatch => 7,
            Error::AlreadyInitialized => 8,
            Error::RoleNotFound => 9,
        }
    }
}

/// How a failing operation surfaces to the caller: either one of the typed
/// error kinds, or a generic untyped abort of the hosting environment.
#[derive(Clone, Copy, Debug, PartialEq, Eq, Structural)]
pub enum Abort {
    /// The operation failed with a typed error kind.
    Code(Error),
    /// The operation failed with a generic, untyped abort.
    Panic,
}

} // verus!
