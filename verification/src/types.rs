//! Value types shared by the contract surface: errors, registry entries,
//! journal records, and the asset-transfer demands that operations hand to
//! the host.

use vstd::prelude::*;
use crate::policy::ActivityKind;

verus! {

/// Errors surfaced by contract operations. Every error aborts its operation
/// atomically: karma, stake and journal state are unchanged whenever one of
/// these is returned.
#[derive(Clone, Copy, Debug, PartialEq, Eq, Structural)]
pub enum KarmaError {
    AlreadyInitialized,
    InsufficientBalance,
    InvalidAmount,
    UserNotRegistered,
    AlreadyRegistered,
    InsufficientKarma,
    Unauthorized,
    ContractPaused,
}

/// Registry entry for one user.
#[derive(Clone, Copy, Debug, PartialEq, Eq, Structural)]
pub struct UserData {
    pub karma_points: i32,
    pub registered: bool,
}

/// One scored activity, as kept in a user's journal. The karma change is
/// already multiplier-adjusted; the timestamp is the host-supplied ledger
/// time at which the activity was recorded.
#[derive(Clone, Copy, Debug, PartialEq, Eq, Structural)]
pub struct ActivityRecord {
    pub activity_type: ActivityKind,
    pub karma_change: i32,
    pub timestamp: u64,
}

/// Which way an external asset transfer moves.
#[derive(Clone, Copy, Debug, PartialEq, Eq, Structural)]
pub enum TransferDirection {
    /// From the counterparty into the contract's custody.
    IntoCustody,
    /// From the contract's custody out to the counterparty.
    OutOfCustody,
}

/// An asset movement that the host must perform as part of a successful
/// operation. The host aborts the whole operation if the transfer fails,
/// so the ledger update and the movement commit together.
#[derive(Clone, Copy, Debug, PartialEq, Eq, Structural)]
pub struct TransferRequest {
    /// Identity of the asset contract to move units of.
    pub token: u64,
    /// The user on the far side of the movement.
    pub counterparty: u64,
    pub direction: TransferDirection,
    pub amount: i128,
}

} // verus!
