//! Stop-charging messages.

use vstd::prelude::*;

verus! {

#[derive(Debug, Clone, Copy, PartialEq, Eq, Hash, Structural)]
pub enum MessageStatus {
    Accepted,
    Rejected,
}

#[derive(Debug, Clone, PartialEq)]
pub struct StopChargingRequest {
    pub evse_id: String,
}

#[derive(Debug, Clone, PartialEq)]
pub struct StopChargingResponse {
    pub evse_id: String,
    pub status: MessageStatus,
}

} // verus!
