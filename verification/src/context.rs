//! The station context: the one record of station state that every handler
//! reads or changes.

use vstd::prelude::*;
use crate::messages::{
    ControlPilotState, CsParametersResponse, CsStatusAndLimitsEvse, CsStatusAndLimitsResponse,
    DeviceModelResponse,
};

verus! {

/// The interval between accepted meter samples where none is configured.
pub const DEFAULT_METER_INTERVAL_MS: u64 = 1000;

/// Which plug signals are staged when they leave `A1`.
///
/// A staged transition publishes the intermediate state `B1` before the
/// state it ends in.
#[derive(Debug, Clone, Copy, PartialEq, Eq, Hash, Structural)]
pub enum StagingPolicy {
    /// Only plugging in is staged.
    PlugOnly,
    /// Plugging in and locking are staged.
    PlugAndLock,
}

/// The immutable configuration of the binding: the names of the three
/// collaborating subsystems and the identifier of the EVSE.
#[derive(Debug, Clone, PartialEq)]
pub struct ApiUserData {
    pub charge_api: String,
    pub auth_api: String,
    pub meter_api: String,
    pub evse_id: String,
}

/// The configuration that a station is built from.
#[derive(Debug, Clone, PartialEq)]
pub struct BindingConfig {
    pub cs_parameters: CsParametersResponse,
    pub cs_status_and_limits: CsStatusAndLimitsResponse,
    pub device_model: Option<DeviceModelResponse>,
    pub charge_api: String,
    pub meter_api: String,
    pub auth_api: String,
    /// The least time between two accepted meter samples, in milliseconds;
    /// [`DEFAULT_METER_INTERVAL_MS`] where it is `None`.
    pub meter_interval_ms: Option<u64>,
    pub staging: StagingPolicy,
}

/// Why a configuration was rejected.
#[derive(Debug, Clone, Copy, PartialEq, Eq, Hash, Structural)]
pub enum ConfigError {
    /// The station parameters do not describe exactly one EVSE.
    NotOneEvse,
    /// The EVSE does not have exactly one connector.
    NotOneConnector,
}

impl ConfigError {
    /// The text of the error.
    pub open spec fn spec_message(self) -> Seq<char> {
        match self {
            ConfigError::NotOneEvse => "One EVSE is mandatory, and only one is supported"@,
            ConfigError::NotOneConnector =>
                "One connector is mandatory, and only one is supported"@,
        }
    }

    /// The text of the error.
    pub fn message(&self) -> (text: &'static str)
        ensures
            text@ == self.spec_message(),
    {
        match self {
            ConfigError::NotOneEvse => "One EVSE is mandatory, and only one is supported",
            ConfigError::NotOneConnector =>
                "One connector is mandatory, and only one is supported",
        }
    }
}

/// The station context as a mathematical value.
pub struct StationView {
    pub apis: ApiUserData,
    pub cp_state: ControlPilotState,
    pub contactor_closed: bool,
    pub station_parameters: CsParametersResponse,
    pub status_and_limits: Seq<CsStatusAndLimitsEvse>,
    pub device_model: Option<DeviceModelResponse>,
    pub forced_cp_state: Option<ControlPilotState>,
    pub forced_contactor_closed: Option<bool>,
    pub last_meter_sample_at: Option<u64>,
    pub meter_interval_ms: u64,
    pub staging: StagingPolicy,
}

impl StationView {
    /// Exactly one EVSE with exactly one connector is configured, and the
    /// binding's configuration names that EVSE.
    pub open spec fn wf(self) -> bool {
        &&& self.station_parameters.parameters@.len() == 1
        &&& self.station_parameters.parameters@[0].connectors@.len() == 1
        &&& self.apis.evse_id == self.station_parameters.parameters@[0].evse_id
    }

    /// The identifier of the configured EVSE.
    pub open spec fn evse_id(self) -> String {
        self.station_parameters.parameters@[0].evse_id
    }

    /// The identifier of the configured connector.
    pub open spec fn connector_id(self) -> u32 {
        self.station_parameters.parameters@[0].connectors@[0].id
    }

    /// Whether `evse_id` names the configured EVSE.
    pub open spec fn serves(self, evse_id: Seq<char>) -> bool {
        evse_id == self.evse_id()@
    }

    /// The control-pilot state that replies and updates report: the forced
    /// one while an override is set, the computed one otherwise.
    pub open spec fn reported_cp_state(self) -> ControlPilotState {
        match self.forced_cp_state {
            Some(forced) => forced,
            None => self.cp_state,
        }
    }

    /// The contactor position that replies and updates report: the forced one
    /// while an override is set, the computed one otherwise.
    pub open spec fn reported_contactor_closed(self) -> bool {
        match self.forced_contactor_closed {
            Some(forced) => forced,
            None => self.contactor_closed,
        }
    }
}

/// Why `config` is rejected, if it is.
pub open spec fn config_error(config: BindingConfig) -> Option<ConfigError> {
    if config.cs_parameters.parameters@.len() != 1 {
        Some(ConfigError::NotOneEvse)
    } else if config.cs_parameters.parameters@[0].connectors@.len() != 1 {
        Some(ConfigError::NotOneConnector)
    } else {
        None
    }
}

/// The state that a station built from `config` starts in: unplugged, the
/// contactor open, no override, no meter sample seen.
pub open spec fn initial_view(config: BindingConfig) -> StationView {
    StationView {
        apis: ApiUserData {
            charge_api: config.charge_api,
            auth_api: config.auth_api,
            meter_api: config.meter_api,
            evse_id: config.cs_parameters.parameters@[0].evse_id,
        },
        cp_state: ControlPilotState::A1,
        contactor_closed: false,
        station_parameters: config.cs_parameters,
        status_and_limits: config.cs_status_and_limits.evses@,
        device_model: config.device_model,
        forced_cp_state: None,
        forced_contactor_closed: None,
        last_meter_sample_at: None,
        meter_interval_ms: match config.meter_interval_ms {
            Some(interval) => interval,
            None => DEFAULT_METER_INTERVAL_MS,
        },
        staging: config.staging,
    }
}

/// The single shared record of station state.
///
/// Every value of the type describes exactly one EVSE with exactly one
/// connector.
#[derive(Debug)]
pub struct StationContext {
    pub(crate) apis: ApiUserData,
    pub(crate) cp_state: ControlPilotState,
    pub(crate) contactor_closed: bool,
    pub(crate) station_parameters: CsParametersResponse,
    pub(crate) status_and_limits: CsStatusAndLimitsResponse,
    pub(crate) device_model: Option<DeviceModelResponse>,
    pub(crate) forced_cp_state: Option<ControlPilotState>,
    pub(crate) forced_contactor_closed: Option<bool>,
    pub(crate) last_meter_sample_at: Option<u64>,
    pub(crate) meter_interval_ms: u64,
    pub(crate) staging: StagingPolicy,
}

impl View for StationContext {
    type V = StationView;

    open(crate) spec fn view(&self) -> StationView {
        StationView {
            apis: self.apis,
            cp_state: self.cp_state,
            contactor_closed: self.contactor_closed,
            station_parameters: self.station_parameters,
            status_and_limits: self.status_and_limits.evses@,
            device_model: self.device_model,
            forced_cp_state: self.forced_cp_state,
            forced_contactor_closed: self.forced_contactor_closed,
            last_meter_sample_at: self.last_meter_sample_at,
            meter_interval_ms: self.meter_interval_ms,
            staging: self.staging,
        }
    }
}

/// Builds the station context from its configuration.
///
/// The configuration is accepted if and only if it describes exactly one EVSE
/// with exactly one connector.
pub fn binding_init(config: BindingConfig) -> (built: Result<StationContext, ConfigError>)
    ensures
        match built {
            Ok(context) => config_error(config) is None && context@ == initial_view(config)
                && context@.wf(),
            Err(error) => config_error(config) == Some(error),
        },
{
    if config.cs_parameters.parameters.len() != 1 {
        return Err(ConfigError::NotOneEvse);
    }
    if config.cs_parameters.parameters[0].connectors.len() != 1 {
        return Err(ConfigError::NotOneConnector);
    }
    let evse_id = config.cs_parameters.parameters[0].evse_id.clone();
    let meter_interval_ms: u64 = match config.meter_interval_ms {
        Some(interval) => interval,
        None => DEFAULT_METER_INTERVAL_MS,
    };
    Ok(
        StationContext {
            apis: ApiUserData {
                charge_api: config.charge_api,
                auth_api: config.auth_api,
                meter_api: config.meter_api,
                evse_id,
            },
            cp_state: ControlPilotState::A1,
            contactor_closed: false,
            station_parameters: config.cs_parameters,
            status_and_limits: config.cs_status_and_limits,
            device_model: config.device_model,
            forced_cp_state: None,
            forced_contactor_closed: None,
            last_meter_sample_at: None,
            meter_interval_ms,
            staging: config.staging,
        },
    )
}

impl StationContext {
    /// What holds of every station context: its model is well formed.
    #[verifier::type_invariant]
    pub open(crate) spec fn well_formed(self) -> bool {
        self@.wf()
    }

    /// The identifier of the configured EVSE.
    pub fn evse_id(&self) -> (id: &String)
        ensures
            *id == self@.evse_id(),
            self@.wf(),
    {
        proof {
            use_type_invariant(self);
        }
        &self.station_parameters.parameters[0].evse_id
    }

    /// The identifier of the configured connector.
    pub fn connector_id(&self) -> (id: u32)
        ensures
            id == self@.connector_id(),
    {
        proof {
            use_type_invariant(self);
        }
        self.station_parameters.parameters[0].connectors[0].id
    }

    /// Whether `evse_id` names the configured EVSE.
    pub fn serves(&self, evse_id: &str) -> (own: bool)
        ensures
            own == self@.serves(evse_id@),
    {
        let id = self.evse_id();
        crate::text::str_eq(evse_id, id.as_str())
    }

    /// The computed control-pilot state.
    pub fn cp_state(&self) -> (state: ControlPilotState)
        ensures
            state == self@.cp_state,
    {
        self.cp_state
    }

    /// The computed contactor position.
    pub fn contactor_closed(&self) -> (closed: bool)
        ensures
            closed == self@.contactor_closed,
    {
        self.contactor_closed
    }

    /// The control-pilot override, if one is set.
    pub fn forced_cp_state(&self) -> (forced: Option<ControlPilotState>)
        ensures
            forced == self@.forced_cp_state,
    {
        self.forced_cp_state
    }

    /// The contactor override, if one is set.
    pub fn forced_contactor_closed(&self) -> (forced: Option<bool>)
        ensures
            forced == self@.forced_contactor_closed,
    {
        self.forced_contactor_closed
    }

    /// The control-pilot state that replies and updates report.
    pub fn reported_cp_state(&self) -> (state: ControlPilotState)
        ensures
            state == self@.reported_cp_state(),
    {
        match self.forced_cp_state {
            Some(forced) => forced,
            None => self.cp_state,
        }
    }

    /// The contactor position that replies and updates report.
    pub fn reported_contactor_closed(&self) -> (closed: bool)
        ensures
            closed == self@.reported_contactor_closed(),
    {
        match self.forced_contactor_closed {
            Some(forced) => forced,
            None => self.contactor_closed,
        }
    }

    /// When the last meter sample was accepted, if one was.
    pub fn last_meter_sample_at(&self) -> (at: Option<u64>)
        ensures
            at == self@.last_meter_sample_at,
    {
        self.last_meter_sample_at
    }

    /// The least time between two accepted meter samples, in milliseconds.
    pub fn meter_interval_ms(&self) -> (interval: u64)
        ensures
            interval == self@.meter_interval_ms,
    {
        self.meter_interval_ms
    }

    /// Which plug signals are staged.
    pub fn staging(&self) -> (policy: StagingPolicy)
        ensures
            policy == self@.staging,
    {
        self.staging
    }

    /// The binding's configuration.
    pub fn apis(&self) -> (apis: &ApiUserData)
        ensures
            *apis == self@.apis,
    {
        &self.apis
    }
}

} // verus!
