//! SLAC matching messages.

use vstd::prelude::*;

verus! {

/// The matching state that the session manager reports.
#[derive(Debug, Clone, Copy, PartialEq, Eq, Hash, Structural)]
pub enum SlacStatusUpdateStatus {
    Matching,
    Failed,
    Matched,
    Unmatched,
    BasicCharging,
}

#[derive(Debug, Clone, PartialEq)]
pub struct SlacStatusUpdate {
    pub evse_id: String,
    pub run_id: String,
    pub status: SlacStatusUpdateStatus,
}

} // verus!
