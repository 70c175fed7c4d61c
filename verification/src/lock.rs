//! The immutability state of a bucket.

use vstd::prelude::*;

verus! {

/// What retention a bucket enforces on new objects.
#[derive(Debug, Clone, Copy, PartialEq, Eq, Structural)]
pub enum LockState {
    /// No default retention.
    Off,
    /// Retention that a privileged principal can shorten.
    Governance { default_days: u32 },
    /// Retention that nobody can shorten.
    Compliance { default_days: u32 },
}

/// The short name of a lock state.
pub open spec fn lock_label(state: LockState) -> Seq<char> {
    match state {
        LockState::Off => "off"@,
        LockState::Governance { .. } => "governance"@,
        LockState::Compliance { .. } => "compliance"@,
    }
}

impl LockState {
    /// Short name for logs and messages.
    pub fn label(self) -> (r: &'static str)
        ensures
            r@ == lock_label(self),
    {
        match self {
            LockState::Off => "off",
            LockState::Governance { .. } => "governance",
            LockState::Compliance { .. } => "compliance",
        }
    }
}

} // verus!
