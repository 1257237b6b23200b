//! The vocabulary that the station shares with the session manager.
//!
//! Electrical values are held as [`crate::quantity::Quantity`], in thousandths
//! of their unit.

pub mod authorization;
pub mod cable_check;
pub mod contactor;
pub mod control_pilot;
pub mod device_model;
pub mod meter_values;
pub mod parameters;
pub mod setpoint;
pub mod slac;
pub mod status_and_limits;
pub mod stop_charging;

pub use authorization::{
    AuthorizationRequest, AuthorizationResponse, AuthorizationStatus, AuthorizationTokenType,
    AuthorizationUpdate,
};
pub use cable_check::{
    CableCheck, CableCheckAction, CableCheckRequest, CableCheckResponse, CableCheckStatus,
    IsolationLevel,
};
pub use contactor::{
    CsContactorStatusRequest, CsContactorStatusResponse, CsContactorStatusResponseStatus,
    CsContactorStatusUpdate,
};
pub use control_pilot::{
    ControlPilotState, CpPwmRequest, CpPwmResponse, CpPwmResponseStatus, CpStatusUpdate,
};
pub use device_model::{
    DataType, DeviceModelComponent, DeviceModelComponentVariable,
    DeviceModelComponentVariableMutability, DeviceModelEvse, DeviceModelEvseConnector,
    DeviceModelEvseConnectorType, DeviceModelResponse,
};
pub use meter_values::{
    MeterValuesRequest, MeterValuesResponse, MeterValuesUpdateCurrent, MeterValuesUpdateVoltage,
    SignedMeterValuesMeasurand, SignedMeterValuesUpdate,
};
pub use parameters::{
    CsConnectorType, CsParametersBptChannel, CsParametersConnector, CsParametersConnectorService,
    CsParametersConnectorServiceAc, CsParametersConnectorServiceAcBpt,
    CsParametersConnectorServiceCommon, CsParametersConnectorServiceDc,
    CsParametersConnectorServiceDcBpt, CsParametersControlMode, CsParametersGeneratorMode,
    CsParametersGridCodeIslandingDetectionMode, CsParametersResponse, CsParametersResponseEntry,
};
pub use setpoint::{
    AcSetpoint, DcSetpoint, EvLimits, PowerElectronicsSetpointRequest,
    PowerElectronicsSetpointResponse, SetPointRequestStatus,
};
pub use slac::{SlacStatusUpdate, SlacStatusUpdateStatus};
pub use status_and_limits::{
    AcMaxCurrent, AcPowerLimit, CsStatusAndLimitsAc, CsStatusAndLimitsAcBpt, CsStatusAndLimitsDc,
    CsStatusAndLimitsDcBpt, CsStatusAndLimitsDcIsolation, CsStatusAndLimitsEvse,
    CsStatusAndLimitsResponse, CsStatusAndLimitsStatusCode,
};
pub use stop_charging::{MessageStatus, StopChargingRequest, StopChargingResponse};
