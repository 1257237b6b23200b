//! Power-electronics setpoint messages.

use vstd::prelude::*;
use crate::quantity::Quantity;

verus! {

#[derive(Debug, Clone, PartialEq)]
pub struct AcSetpoint {
    pub charge_active_power: Option<Quantity>,
    pub charge_reactive_power: Option<Quantity>,
    pub charge_current: Option<Quantity>,
    pub discharge_active_power: Option<Quantity>,
    pub discharge_reactive_power: Option<Quantity>,
    pub discharge_current: Option<Quantity>,
}

#[derive(Debug, Clone, PartialEq)]
pub struct DcSetpoint {
    pub voltage: Quantity,
    pub charge_current: Option<Quantity>,
    pub charge_power: Option<Quantity>,
    pub discharge_current: Option<Quantity>,
    pub discharge_power: Option<Quantity>,
}

#[derive(Debug, Clone, PartialEq)]
pub struct EvLimits {
    pub maximum_voltage: Quantity,
    pub minimum_voltage: Option<Quantity>,
}

#[derive(Debug, Clone, PartialEq)]
pub struct PowerElectronicsSetpointRequest {
    pub evse_id: String,
    pub ev_limits: EvLimits,
    pub is_precharge: Option<bool>,
    pub ac: Option<AcSetpoint>,
    pub dc: Option<DcSetpoint>,
}

#[derive(Debug, Clone, Copy, PartialEq, Eq, Hash, Structural)]
pub enum SetPointRequestStatus {
    Accepted,
    Rejected,
}

#[derive(Debug, Clone, PartialEq)]
pub struct PowerElectronicsSetpointResponse {
    pub evse_id: String,
    pub status: SetPointRequestStatus,
}

} // verus!
