//! The static parameters of the station.

use vstd::prelude::*;

verus! {

#[derive(Debug, Clone, Copy, PartialEq, Eq, Hash, Structural)]
pub enum CsConnectorType {
    ACSinglePhaseCore,
    ACThreePhaseCore,
    DCCore,
    DCExtended,
    DCComboCore,
    DCUnique,
}

#[derive(Debug, Clone, Copy, PartialEq, Eq, Hash, Structural)]
pub enum CsParametersControlMode {
    Scheduled,
    Dynamic,
}

#[derive(Debug, Clone, Copy, PartialEq, Eq, Hash, Structural)]
pub enum CsParametersBptChannel {
    Unified,
    Separated,
}

#[derive(Debug, Clone, Copy, PartialEq, Eq, Hash, Structural)]
pub enum CsParametersGeneratorMode {
    GridFollowing,
    GridForming,
}

#[derive(Debug, Clone, Copy, PartialEq, Eq, Hash, Structural)]
pub enum CsParametersGridCodeIslandingDetectionMode {
    Active,
    Passive,
}

#[derive(Debug, Clone, PartialEq)]
pub struct CsParametersConnectorServiceCommon {
    pub connector_type: CsConnectorType,
    pub control_mode: Option<CsParametersControlMode>,
}

#[derive(Debug, Clone, PartialEq)]
pub struct CsParametersConnectorServiceAc {
    pub common: CsParametersConnectorServiceCommon,
    pub nominal_voltage: u32,
}

#[derive(Debug, Clone, PartialEq)]
pub struct CsParametersConnectorServiceAcBpt {
    pub common: CsParametersConnectorServiceCommon,
    pub nominal_voltage: u32,
    pub bpt_channel: Option<CsParametersBptChannel>,
    pub generator_mode: Option<CsParametersGeneratorMode>,
    pub grid_island_detection_mode: Option<CsParametersGridCodeIslandingDetectionMode>,
}

#[derive(Debug, Clone, PartialEq)]
pub struct CsParametersConnectorServiceDc {
    pub common: CsParametersConnectorServiceCommon,
    pub nominal_voltage: Option<u32>,
}

#[derive(Debug, Clone, PartialEq)]
pub struct CsParametersConnectorServiceDcBpt {
    pub common: CsParametersConnectorServiceCommon,
    pub nominal_voltage: Option<u32>,
    pub bpt_channel: Option<CsParametersBptChannel>,
    pub generator_mode: Option<CsParametersGeneratorMode>,
    pub grid_island_detection_mode: Option<CsParametersGridCodeIslandingDetectionMode>,
}

/// The service types that a connector supports.
#[derive(Debug, Clone, PartialEq)]
pub struct CsParametersConnectorService {
    pub ac: Option<CsParametersConnectorServiceAc>,
    pub ac_bpt: Option<CsParametersConnectorServiceAcBpt>,
    pub dc: Option<CsParametersConnectorServiceDc>,
    pub dc_bpt: Option<CsParametersConnectorServiceDcBpt>,
}

#[derive(Debug, Clone, PartialEq)]
pub struct CsParametersConnector {
    pub id: u32,
    pub services: CsParametersConnectorService,
}

#[derive(Debug, Clone, PartialEq)]
pub struct CsParametersResponseEntry {
    pub evse_id: String,
    pub supports_eim: bool,
    pub network_interface: String,
    pub connectors: Vec<CsParametersConnector>,
}

#[derive(Debug, Clone, PartialEq)]
pub struct CsParametersResponse {
    pub sw_version: String,
    pub hw_version: String,
    pub number_of_evses: u32,
    pub parameters: Vec<CsParametersResponseEntry>,
}

} // verus!
