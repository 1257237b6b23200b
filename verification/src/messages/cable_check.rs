//! Cable-check messages.

use vstd::prelude::*;

verus! {

/// What a cable-check request asks for.
#[derive(Debug, Clone, Copy, PartialEq, Eq, Hash, Structural)]
pub enum CableCheckAction {
    Start,
    Status,
}

/// How far a cable check has come.
#[derive(Debug, Clone, Copy, PartialEq, Eq, Hash, Structural)]
pub enum CableCheckStatus {
    Ongoing,
    Finished,
}

/// The isolation level that a cable check found.
#[derive(Debug, Clone, Copy, PartialEq, Eq, Hash, Structural)]
pub enum IsolationLevel {
    Valid,
    Invalid,
    Warning,
    Fault,
    NoIMD,
}

#[derive(Debug, Clone, PartialEq)]
pub struct CableCheckRequest {
    pub evse_id: String,
    pub cable_check_action: CableCheckAction,
}

#[derive(Debug, Clone, PartialEq)]
pub struct CableCheckResponse {
    pub evse_id: String,
    pub cable_check_status: CableCheckStatus,
    pub isolation_level: Option<IsolationLevel>,
}

/// Either side of a cable-check exchange.
#[derive(Debug, Clone, PartialEq)]
pub enum CableCheck {
    Request(CableCheckRequest),
    Response(CableCheckResponse),
}

} // verus!
