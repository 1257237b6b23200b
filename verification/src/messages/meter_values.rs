//! Meter-values messages.

use vstd::prelude::*;
use crate::quantity::Quantity;

verus! {

/// `time::OffsetDateTime`, the point in time that a meter reading is asked
/// for. The library carries it from the request to the response and never
/// looks inside.
#[verifier::external_type_specification]
#[verifier::external_body]
pub struct ExOffsetDateTime(time::OffsetDateTime);

/// `OffsetDateTime::clone`. The type derives `Clone` together with `Copy`, so
/// the clone is the value itself.
pub assume_specification[ <time::OffsetDateTime as Clone>::clone ](
    stamp: &time::OffsetDateTime,
) -> (copy: time::OffsetDateTime)
    ensures
        copy == *stamp,
;

#[derive(Debug, Clone, PartialEq)]
pub struct MeterValuesUpdateVoltage {
    pub l1: Quantity,
    pub l2: Quantity,
    pub l3: Quantity,
}

#[derive(Debug, Clone, PartialEq)]
pub struct MeterValuesUpdateCurrent {
    pub l1: Quantity,
    pub l2: Quantity,
    pub l3: Quantity,
}

#[derive(Debug, Clone, Copy, PartialEq)]
pub enum SignedMeterValuesMeasurand {
    CurrentExport,
    CurrentImport,
    CurrentOffered,
    EnergyActiveExportRegister,
    EnergyActiveImportRegister,
    EnergyReactiveExportRegister,
    EnergyReactiveImportRegister,
    EnergyActiveExportInterval,
    EnergyActiveImportInterval,
    EnergyActiveNet,
    EnergyReactiveExportInterval,
    EnergyReactiveImportInterval,
    EnergyReactiveNet,
    EnergyApparentNet,
    EnergyApparentImport,
    EnergyApparentExport,
    Frequency,
    PowerActiveExport,
    PowerActiveImport,
    PowerFactor,
    PowerOffered,
    PowerReactiveExport,
    PowerReactiveImport,
    SoC,
    Voltage,
}

#[derive(Debug, Clone, PartialEq)]
pub struct SignedMeterValuesUpdate {
    pub measurand: SignedMeterValuesMeasurand,
    pub signed_meter_data: String,
    pub signing_method: String,
    pub encoding_method: String,
    pub public_key: String,
}

#[derive(Debug, Clone, PartialEq)]
pub struct MeterValuesRequest {
    pub evse_id: Option<String>,
    pub timestamp: time::OffsetDateTime,
}

#[derive(Debug, Clone, PartialEq)]
pub struct MeterValuesResponse {
    pub evse_id: Option<String>,
    pub timestamp: time::OffsetDateTime,
    pub voltage: MeterValuesUpdateVoltage,
    pub current: MeterValuesUpdateCurrent,
    pub power_factor: Quantity,
    pub dc_current: Option<Quantity>,
    pub dc_voltage: Option<Quantity>,
    pub frequency: Quantity,
    pub total_active_energy_imported: Quantity,
    pub total_active_energy_exported: Option<Quantity>,
    pub total_reactive_energy_imported: Quantity,
    pub total_reactive_energy_exported: Option<Quantity>,
    pub soc: Option<Quantity>,
    pub signed_meter_values: Option<Vec<SignedMeterValuesUpdate>>,
}

} // verus!
