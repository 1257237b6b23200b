//! Control-pilot messages.

use vstd::prelude::*;
use crate::quantity::Quantity;

verus! {

/// The state of the control pilot between station and vehicle.
#[derive(Debug, Clone, Copy, PartialEq, Eq, Hash, Structural)]
pub enum ControlPilotState {
    A1,
    A2,
    B1,
    B2,
    C1,
    C2,
    D1,
    D2,
    E,
    F,
}

/// Published whenever the control-pilot state is (re)asserted.
#[derive(Debug, Clone, PartialEq)]
pub struct CpStatusUpdate {
    pub evse_id: String,
    pub connector_id: u32,
    pub state: ControlPilotState,
    pub max_voltage: Option<Quantity>,
    pub min_voltage: Option<Quantity>,
    pub duty_cycle: Option<Quantity>,
}

/// Asks whether a PWM duty cycle may be applied to the control pilot.
#[derive(Debug, Clone, PartialEq)]
pub struct CpPwmRequest {
    pub evse_id: String,
    pub hlc: bool,
    pub current: Option<Quantity>,
    pub error_state: bool,
    pub fault_state: bool,
}

#[derive(Debug, Clone, Copy, PartialEq, Eq, Hash, Structural)]
pub enum CpPwmResponseStatus {
    Valid,
    Invalid,
    Error,
}

#[derive(Debug, Clone, PartialEq)]
pub struct CpPwmResponse {
    pub evse_id: String,
    pub status: CpPwmResponseStatus,
    pub info: Option<String>,
}

} // verus!
