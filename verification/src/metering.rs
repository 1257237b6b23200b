//! Meter values: the electrical reading that is assembled from three reads of
//! the energy meter.
//!
//! The meter gives raw integer readings in thousandths of the unit: of a volt,
//! of an ampere, and of the unit of energy.

use vstd::prelude::*;
use crate::context::{StationContext, StationView};
use crate::effects::{Command, Pending, Step, StepView};
use crate::messages::{
    MeterValuesRequest, MeterValuesResponse, MeterValuesUpdateCurrent, MeterValuesUpdateVoltage,
};
use crate::quantity::Quantity;
use crate::subsystems::{MeterChannel, MeterDataSet};

verus! {

/// The reading that answers `request`, assembled from the three reads: the
/// voltage and the current per phase, a power factor of one, a frequency of
/// fifty hertz and the cumulative imported active energy. What the meter does
/// not measure is absent or zero.
pub open spec fn meter_values_response(
    request: MeterValuesRequest,
    voltage: MeterDataSet,
    current: MeterDataSet,
    energy: MeterDataSet,
) -> MeterValuesResponse {
    MeterValuesResponse {
        evse_id: request.evse_id,
        timestamp: request.timestamp,
        voltage: MeterValuesUpdateVoltage {
            l1: Quantity::of_milli(voltage.l1 as int),
            l2: Quantity::of_milli(voltage.l2 as int),
            l3: Quantity::of_milli(voltage.l3 as int),
        },
        current: MeterValuesUpdateCurrent {
            l1: Quantity::of_milli(current.l1 as int),
            l2: Quantity::of_milli(current.l2 as int),
            l3: Quantity::of_milli(current.l3 as int),
        },
        power_factor: Quantity::of_units(1),
        dc_current: None,
        dc_voltage: None,
        frequency: Quantity::of_units(50),
        total_active_energy_imported: Quantity::of_milli(energy.total as int),
        total_active_energy_exported: None,
        total_reactive_energy_imported: Quantity::of_units(0),
        total_reactive_energy_exported: None,
        soc: None,
        signed_meter_values: None,
    }
}

/// Whether a meter-values request is served: one that names no EVSE is, and
/// one that names the configured EVSE.
pub open spec fn meter_request_served(s: StationView, request: MeterValuesRequest) -> bool {
    match request.evse_id {
        Some(evse_id) => s.serves(evse_id@),
        None => true,
    }
}

/// What a meter-values request asks for first: the voltage reading.
pub open spec fn meter_values_step(s: StationView, request: MeterValuesRequest) -> StepView {
    if meter_request_served(s, request) {
        StepView::perform(
            Command::ReadMeter(MeterChannel::Tension),
            Pending::VoltageRead { request },
        )
    } else {
        StepView::idle()
    }
}

/// Assembles the reading that answers `request` from the three reads.
pub fn assemble_meter_values(
    request: MeterValuesRequest,
    voltage: MeterDataSet,
    current: MeterDataSet,
    energy: MeterDataSet,
) -> (response: MeterValuesResponse)
    ensures
        response == meter_values_response(request, voltage, current, energy),
{
    MeterValuesResponse {
        evse_id: request.evse_id,
        timestamp: request.timestamp,
        voltage: MeterValuesUpdateVoltage {
            l1: Quantity::from_milli(voltage.l1),
            l2: Quantity::from_milli(voltage.l2),
            l3: Quantity::from_milli(voltage.l3),
        },
        current: MeterValuesUpdateCurrent {
            l1: Quantity::from_milli(current.l1),
            l2: Quantity::from_milli(current.l2),
            l3: Quantity::from_milli(current.l3),
        },
        power_factor: Quantity::from_units(1),
        dc_current: None,
        dc_voltage: None,
        frequency: Quantity::from_units(50),
        total_active_energy_imported: Quantity::from_milli(energy.total),
        total_active_energy_exported: None,
        total_reactive_energy_imported: Quantity::from_units(0),
        total_reactive_energy_exported: None,
        soc: None,
        signed_meter_values: None,
    }
}

/// A copy of a meter-values request, to keep while the meter is read.
pub fn copy_meter_request(request: &MeterValuesRequest) -> (copy: MeterValuesRequest)
    ensures
        copy == *request,
{
    let evse_id = match &request.evse_id {
        Some(evse_id) => Some(evse_id.clone()),
        None => None,
    };
    MeterValuesRequest { evse_id, timestamp: request.timestamp.clone() }
}

impl StationContext {
    /// Handles a meter-values request.
    pub fn on_meter_values(&self, request: &MeterValuesRequest) -> (step: Step)
        ensures
            step@ == meter_values_step(self@, *request),
    {
        let served = match &request.evse_id {
            Some(evse_id) => self.serves(evse_id.as_str()),
            None => true,
        };
        if served {
            Step::perform(
                Command::ReadMeter(MeterChannel::Tension),
                Pending::VoltageRead { request: copy_meter_request(request) },
            )
        } else {
            Step::idle()
        }
    }
}

} // verus!
