//! The electrical status and limits of the station.

use vstd::prelude::*;
use crate::quantity::Quantity;

verus! {

#[derive(Debug, Clone, PartialEq)]
pub struct AcMaxCurrent {
    pub l1: Quantity,
    pub l2: Quantity,
    pub l3: Quantity,
}

#[derive(Debug, Clone, PartialEq)]
pub struct AcPowerLimit {
    pub l1: Quantity,
    pub l2: Quantity,
    pub l3: Quantity,
}

#[derive(Debug, Clone, PartialEq)]
pub struct CsStatusAndLimitsAc {
    pub max_current: AcMaxCurrent,
    pub nominal_voltage: Quantity,
    pub rcd_error: bool,
}

#[derive(Debug, Clone, PartialEq)]
pub struct CsStatusAndLimitsAcBpt {
    pub evse_max_discharge_power: AcPowerLimit,
    pub evse_min_discharge_power: AcPowerLimit,
}

#[derive(Debug, Clone, Copy, PartialEq, Eq, Hash, Structural)]
pub enum CsStatusAndLimitsDcIsolation {
    Invalid,
    Valid,
    Warning,
    Fault,
    NoImd,
}

#[derive(Debug, Clone, PartialEq)]
pub struct CsStatusAndLimitsDc {
    pub present_voltage: Quantity,
    pub present_current: Quantity,
    pub max_current: Quantity,
    pub min_current: Quantity,
    pub max_voltage: Quantity,
    pub min_voltage: Quantity,
    pub max_power: Quantity,
    pub current_reg_tolerance: Option<Quantity>,
    pub peak_current_ripple: Quantity,
    pub energy_to_be_delivered: Option<Quantity>,
    pub isolation_status: Option<CsStatusAndLimitsDcIsolation>,
    pub evse_power_ramp_limit: Option<Quantity>,
}

#[derive(Debug, Clone, PartialEq)]
pub struct CsStatusAndLimitsDcBpt {
    pub evse_max_discharge_power: Quantity,
    pub evse_min_discharge_power: Quantity,
    pub evse_max_discharge_current: Quantity,
    pub evse_min_discharge_current: Quantity,
}

#[derive(Debug, Clone, Copy, PartialEq, Eq, Hash, Structural)]
pub enum CsStatusAndLimitsStatusCode {
    EvseNotReady,
    EvseReady,
    EvseShutdown,
    EvseUtilityInterruptEvent,
    EvseIsolationMonitoringActive,
    EvseEmergencyShutdown,
    EvseMalfunction,
}

#[derive(Debug, Clone, PartialEq)]
pub struct CsStatusAndLimitsEvse {
    pub evse_id: String,
    pub status_code: CsStatusAndLimitsStatusCode,
    pub ac: Option<CsStatusAndLimitsAc>,
    pub ac_bpt: Option<CsStatusAndLimitsAcBpt>,
    pub dc: Option<CsStatusAndLimitsDc>,
    pub dc_bpt: Option<CsStatusAndLimitsDcBpt>,
}

#[derive(Debug, Clone, PartialEq)]
pub struct CsStatusAndLimitsResponse {
    pub evses: Vec<CsStatusAndLimitsEvse>,
}

} // verus!
