use evse_coordinator::context::{binding_init, BindingConfig, StagingPolicy, StationContext};
use evse_coordinator::dispatcher::UpdateClass;
use evse_coordinator::effects::{Call, Command, Pending, Step};
use evse_coordinator::messages::{
    CableCheckAction, CableCheckRequest, CableCheckResponse, CableCheckStatus, CpPwmRequest,
    CpPwmResponse, CpPwmResponseStatus, CsContactorStatusRequest, CsContactorStatusResponse,
    CsContactorStatusResponseStatus, CsParametersConnector, CsParametersConnectorService,
    CsParametersResponse, CsParametersResponseEntry, CsStatusAndLimitsDc, CsStatusAndLimitsEvse,
    CsStatusAndLimitsResponse, CsStatusAndLimitsStatusCode, DcSetpoint, DeviceModelResponse,
    EvLimits, IsolationLevel, PowerElectronicsSetpointRequest, PowerElectronicsSetpointResponse,
    SetPointRequestStatus, StopChargingRequest,
};
use evse_coordinator::quantity::Quantity;
use evse_coordinator::subsystems::{ChargingMsg, PowerRequest};

fn volts(units: i32) -> Quantity {
    Quantity::from_units(units)
}

fn dc_status(present_voltage: i32, present_current: i32) -> CsStatusAndLimitsDc {
    CsStatusAndLimitsDc {
        present_voltage: volts(present_voltage),
        present_current: volts(present_current),
        max_current: volts(200),
        min_current: volts(0),
        max_voltage: volts(1000),
        min_voltage: volts(150),
        max_power: volts(50_000),
        current_reg_tolerance: None,
        peak_current_ripple: volts(1),
        energy_to_be_delivered: None,
        isolation_status: None,
        evse_power_ramp_limit: None,
    }
}

fn status_entry(evse_id: &str, dc: Option<CsStatusAndLimitsDc>) -> CsStatusAndLimitsEvse {
    CsStatusAndLimitsEvse {
        evse_id: evse_id.to_string(),
        status_code: CsStatusAndLimitsStatusCode::EvseReady,
        ac: None,
        ac_bpt: None,
        dc,
        dc_bpt: None,
    }
}

fn device_model() -> DeviceModelResponse {
    DeviceModelResponse {
        model: "M".to_string(),
        vendor: "V".to_string(),
        identity: "I".to_string(),
        ocpp_csms_url: "ws://csms".to_string(),
        security_profile: 1,
        basic_auth_password: "pw".to_string(),
        serial_number: "S1".to_string(),
        firmware_version: "F1".to_string(),
        sim_iccid: None,
        sim_imsi: None,
        evses: vec![],
        components: vec![],
    }
}

fn dispatcher_parameters() -> CsParametersResponse {
    CsParametersResponse {
        sw_version: "1.0".to_string(),
        hw_version: "A".to_string(),
        number_of_evses: 1,
        parameters: vec![CsParametersResponseEntry {
            evse_id: "EVSE-1".to_string(),
            supports_eim: true,
            network_interface: "eth0".to_string(),
            connectors: vec![CsParametersConnector {
                id: 1,
                services: CsParametersConnectorService {
                    ac: None,
                    ac_bpt: None,
                    dc: None,
                    dc_bpt: None,
                },
            }],
        }],
    }
}

fn dispatcher_station(model: Option<DeviceModelResponse>) -> StationContext {
    binding_init(BindingConfig {
        cs_parameters: dispatcher_parameters(),
        cs_status_and_limits: CsStatusAndLimitsResponse {
            evses: vec![
                status_entry("EVSE-1", Some(dc_status(0, 0))),
                status_entry("EVSE-2", Some(dc_status(1, 2))),
                status_entry("EVSE-1", None),
            ],
        },
        device_model: model,
        charge_api: "chmgr".to_string(),
        meter_api: "engy".to_string(),
        auth_api: "auth".to_string(),
        meter_interval_ms: None,
        staging: StagingPolicy::PlugOnly,
    })
    .unwrap()
}

fn setpoint_request(evse_id: &str, dc: Option<DcSetpoint>) -> PowerElectronicsSetpointRequest {
    PowerElectronicsSetpointRequest {
        evse_id: evse_id.to_string(),
        ev_limits: EvLimits { maximum_voltage: volts(500), minimum_voltage: None },
        is_precharge: None,
        ac: None,
        dc,
    }
}

fn dc_setpoint(voltage: i32, charge_current: Option<i32>) -> DcSetpoint {
    DcSetpoint {
        voltage: volts(voltage),
        charge_current: charge_current.map(volts),
        charge_power: None,
        discharge_current: None,
        discharge_power: None,
    }
}

#[test]
fn subscribers_get_all_three_classes() {
    let station = dispatcher_station(None);
    let classes = station.on_subscribe();
    assert_eq!(
        classes,
        vec![UpdateClass::CpStatus, UpdateClass::Authorization, UpdateClass::ContactorStatus]
    );
    assert_eq!(station.on_subscribe(), classes);
}

#[test]
fn contactor_status_reports_the_position() {
    let mut station = dispatcher_station(None);
    let request = CsContactorStatusRequest { evse_id: "EVSE-1".to_string() };
    assert_eq!(
        station.on_contactor_status(&request),
        Some(CsContactorStatusResponse {
            evse_id: "EVSE-1".to_string(),
            status: CsContactorStatusResponseStatus::Opened,
            info: None,
        })
    );
    station.on_charge_event(&ChargingMsg::Power(PowerRequest::Start));
    assert_eq!(
        station.on_contactor_status(&request).unwrap().status,
        CsContactorStatusResponseStatus::Closed
    );
}

#[test]
fn contactor_status_for_another_evse_is_not_answered() {
    let station = dispatcher_station(None);
    let request = CsContactorStatusRequest { evse_id: "EVSE-2".to_string() };
    assert_eq!(station.on_contactor_status(&request), None);
}

#[test]
fn status_and_limits_are_given_for_the_own_evse_only() {
    let station = dispatcher_station(None);
    let record = station.on_status_and_limits(Some("EVSE-1")).unwrap();
    assert_eq!(record.evses.len(), 3);
    assert_eq!(record.evses[1], status_entry("EVSE-2", Some(dc_status(1, 2))));
    assert!(station.on_status_and_limits(Some("EVSE-2")).is_none());
    assert!(station.on_status_and_limits(Some("")).is_none());
}

#[test]
fn status_and_limits_without_an_evse_are_given() {
    let station = dispatcher_station(None);
    let record = station.on_status_and_limits(None).unwrap();
    assert_eq!(record.evses.len(), 3);
    assert_eq!(record.evses[0], status_entry("EVSE-1", Some(dc_status(0, 0))));
}

#[test]
fn static_parameters_are_given_as_configured() {
    let station = dispatcher_station(None);
    assert_eq!(station.on_cs_parameters(), &dispatcher_parameters());
}

#[test]
fn device_model_is_given_where_configured() {
    assert_eq!(dispatcher_station(None).on_device_model(), None);
    assert_eq!(dispatcher_station(Some(device_model())).on_device_model(), Some(&device_model()));
}

#[test]
fn cable_check_always_finishes_valid() {
    let station = dispatcher_station(None);
    for action in [CableCheckAction::Start, CableCheckAction::Status] {
        let request = CableCheckRequest { evse_id: "EVSE-1".to_string(), cable_check_action: action };
        assert_eq!(
            station.on_cable_check(&request),
            Some(CableCheckResponse {
                evse_id: "EVSE-1".to_string(),
                cable_check_status: CableCheckStatus::Finished,
                isolation_level: Some(IsolationLevel::Valid),
            })
        );
    }
    let foreign = CableCheckRequest {
        evse_id: "EVSE-2".to_string(),
        cable_check_action: CableCheckAction::Start,
    };
    assert_eq!(station.on_cable_check(&foreign), None);
}

#[test]
fn cp_pwm_is_always_valid() {
    let station = dispatcher_station(None);
    let request = CpPwmRequest {
        evse_id: "EVSE-1".to_string(),
        hlc: true,
        current: Some(Quantity::from_milli(16_500)),
        error_state: true,
        fault_state: true,
    };
    assert_eq!(
        station.on_cp_pwm(&request),
        Some(CpPwmResponse {
            evse_id: "EVSE-1".to_string(),
            status: CpPwmResponseStatus::Valid,
            info: None,
        })
    );
    let foreign = CpPwmRequest { evse_id: "EVSE-3".to_string(), ..request };
    assert_eq!(station.on_cp_pwm(&foreign), None);
}

#[test]
fn stop_charging_opens_the_contactor_first() {
    let station = dispatcher_station(None);
    let step = station.on_stop_charging(&StopChargingRequest { evse_id: "EVSE-1".to_string() });
    assert_eq!(
        step,
        Step {
            updates: vec![],
            reply: None,
            call: Some(Call {
                command: Command::RemotePower(false),
                pending: Pending::PowerForStop { evse_id: "EVSE-1".to_string() },
            }),
        }
    );
    let foreign = station.on_stop_charging(&StopChargingRequest { evse_id: "EVSE-2".to_string() });
    assert_eq!(foreign, Step { updates: vec![], reply: None, call: None });
}

#[test]
fn setpoint_sets_present_voltage_and_current() {
    let mut station = dispatcher_station(None);
    let reply = station
        .on_power_electronics_setpoint(&setpoint_request("EVSE-1", Some(dc_setpoint(400, Some(32)))));
    assert_eq!(
        reply,
        Some(PowerElectronicsSetpointResponse {
            evse_id: "EVSE-1".to_string(),
            status: SetPointRequestStatus::Accepted,
        })
    );
    let record = station.on_status_and_limits(Some("EVSE-1")).unwrap();
    assert_eq!(record.evses[0], status_entry("EVSE-1", Some(dc_status(400, 32))));
    assert_eq!(record.evses[1], status_entry("EVSE-2", Some(dc_status(1, 2))));
    assert_eq!(record.evses[2], status_entry("EVSE-1", None));
}

#[test]
fn setpoint_without_current_keeps_the_present_current() {
    let mut station = dispatcher_station(None);
    station.on_power_electronics_setpoint(&setpoint_request("EVSE-1", Some(dc_setpoint(400, Some(32)))));
    station.on_power_electronics_setpoint(&setpoint_request("EVSE-1", Some(dc_setpoint(410, None))));
    let record = station.on_status_and_limits(Some("EVSE-1")).unwrap();
    assert_eq!(record.evses[0], status_entry("EVSE-1", Some(dc_status(410, 32))));
}

#[test]
fn setpoint_without_dc_is_accepted_and_changes_nothing() {
    let mut station = dispatcher_station(None);
    let reply = station.on_power_electronics_setpoint(&setpoint_request("EVSE-1", None));
    assert_eq!(reply.unwrap().status, SetPointRequestStatus::Accepted);
    let record = station.on_status_and_limits(Some("EVSE-1")).unwrap();
    assert_eq!(record.evses[0], status_entry("EVSE-1", Some(dc_status(0, 0))));
}

#[test]
fn setpoint_for_another_evse_is_dropped() {
    let mut station = dispatcher_station(None);
    let reply = station
        .on_power_electronics_setpoint(&setpoint_request("EVSE-2", Some(dc_setpoint(400, Some(32)))));
    assert_eq!(reply, None);
    let record = station.on_status_and_limits(Some("EVSE-1")).unwrap();
    assert_eq!(record.evses[0], status_entry("EVSE-1", Some(dc_status(0, 0))));
    assert_eq!(record.evses[1], status_entry("EVSE-2", Some(dc_status(1, 2))));
}
