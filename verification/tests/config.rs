use evse_coordinator::context::{
    binding_init, BindingConfig, ConfigError, StagingPolicy, DEFAULT_METER_INTERVAL_MS,
};
use evse_coordinator::messages::{
    ControlPilotState, CsParametersConnector, CsParametersConnectorService, CsParametersResponse,
    CsParametersResponseEntry, CsStatusAndLimitsResponse,
};
use evse_coordinator::quantity::Quantity;
use evse_coordinator::text::str_eq;

fn config_connector(id: u32) -> CsParametersConnector {
    CsParametersConnector {
        id,
        services: CsParametersConnectorService { ac: None, ac_bpt: None, dc: None, dc_bpt: None },
    }
}

fn config_entry(evse_id: &str, connectors: Vec<CsParametersConnector>) -> CsParametersResponseEntry {
    CsParametersResponseEntry {
        evse_id: evse_id.to_string(),
        supports_eim: true,
        network_interface: "eth0".to_string(),
        connectors,
    }
}

fn config_of(parameters: Vec<CsParametersResponseEntry>) -> BindingConfig {
    BindingConfig {
        cs_parameters: CsParametersResponse {
            sw_version: "1.0".to_string(),
            hw_version: "A".to_string(),
            number_of_evses: parameters.len() as u32,
            parameters,
        },
        cs_status_and_limits: CsStatusAndLimitsResponse { evses: vec![] },
        device_model: None,
        charge_api: "chmgr".to_string(),
        meter_api: "engy".to_string(),
        auth_api: "auth".to_string(),
        meter_interval_ms: None,
        staging: StagingPolicy::PlugOnly,
    }
}

#[test]
fn one_evse_with_one_connector_is_accepted() {
    let config = config_of(vec![config_entry("EVSE-1", vec![config_connector(7)])]);
    let station = binding_init(config).expect("a valid configuration");
    assert_eq!(station.evse_id(), "EVSE-1");
    assert_eq!(station.connector_id(), 7);
    assert_eq!(station.cp_state(), ControlPilotState::A1);
    assert!(!station.contactor_closed());
    assert_eq!(station.forced_cp_state(), None);
    assert_eq!(station.forced_contactor_closed(), None);
    assert_eq!(station.last_meter_sample_at(), None);
    assert_eq!(station.staging(), StagingPolicy::PlugOnly);
    assert_eq!(station.apis().evse_id, "EVSE-1");
    assert_eq!(station.apis().charge_api, "chmgr");
    assert_eq!(station.apis().auth_api, "auth");
    assert_eq!(station.apis().meter_api, "engy");
}

#[test]
fn meter_interval_defaults_to_one_second() {
    let config = config_of(vec![config_entry("EVSE-1", vec![config_connector(1)])]);
    let station = binding_init(config).unwrap();
    assert_eq!(DEFAULT_METER_INTERVAL_MS, 1000);
    assert_eq!(station.meter_interval_ms(), 1000);
}

#[test]
fn configured_meter_interval_is_kept() {
    let mut config = config_of(vec![config_entry("EVSE-1", vec![config_connector(1)])]);
    config.meter_interval_ms = Some(250);
    let station = binding_init(config).unwrap();
    assert_eq!(station.meter_interval_ms(), 250);
}

#[test]
fn no_evse_is_rejected() {
    let error = binding_init(config_of(vec![])).unwrap_err();
    assert_eq!(error, ConfigError::NotOneEvse);
    assert_eq!(error.message(), "One EVSE is mandatory, and only one is supported");
}

#[test]
fn two_evses_are_rejected() {
    let config = config_of(vec![
        config_entry("EVSE-1", vec![config_connector(1)]),
        config_entry("EVSE-2", vec![config_connector(1)]),
    ]);
    assert_eq!(binding_init(config).unwrap_err(), ConfigError::NotOneEvse);
}

#[test]
fn no_connector_is_rejected() {
    let config = config_of(vec![config_entry("EVSE-1", vec![])]);
    let error = binding_init(config).unwrap_err();
    assert_eq!(error, ConfigError::NotOneConnector);
    assert_eq!(error.message(), "One connector is mandatory, and only one is supported");
}

#[test]
fn two_connectors_are_rejected() {
    let config =
        config_of(vec![config_entry("EVSE-1", vec![config_connector(1), config_connector(2)])]);
    assert_eq!(binding_init(config).unwrap_err(), ConfigError::NotOneConnector);
}

#[test]
fn station_serves_only_its_own_evse() {
    let config = config_of(vec![config_entry("EVSE-1", vec![config_connector(1)])]);
    let station = binding_init(config).unwrap();
    assert!(station.serves("EVSE-1"));
    assert!(!station.serves("EVSE-2"));
    assert!(!station.serves("EVSE-"));
    assert!(!station.serves(""));
}

#[test]
fn strings_compare_by_their_characters() {
    assert!(str_eq("", ""));
    assert!(str_eq("abc", "abc"));
    assert!(!str_eq("abc", "abd"));
    assert!(!str_eq("abc", "ab"));
    assert!(str_eq("é-1", "é-1"));
    assert!(!str_eq("é", "e"));
}

#[test]
fn quantity_from_milli_keeps_the_raw_value() {
    assert_eq!(Quantity::from_milli(230_000), Quantity { milli: 230_000 });
    assert_eq!(Quantity::from_milli(-1), Quantity { milli: -1 });
    assert_eq!(Quantity::from_milli(i32::MAX).milli, 2_147_483_647);
}

#[test]
fn quantity_from_units_scales_by_a_thousand() {
    assert_eq!(Quantity::from_units(50), Quantity { milli: 50_000 });
    assert_eq!(Quantity::from_units(-3).milli, -3_000);
    assert_eq!(Quantity::from_units(i32::MIN).milli, -2_147_483_648_000);
}

#[test]
fn quantity_splits_into_units_and_thousandths() {
    let q = Quantity { milli: 230_456 };
    assert_eq!(q.whole_units(), 230);
    assert_eq!(q.thousandths(), 456);
    let negative = Quantity { milli: -1_250 };
    assert_eq!(negative.whole_units(), -1);
    assert_eq!(negative.thousandths(), -250);
    let least = Quantity { milli: i64::MIN };
    assert_eq!(least.whole_units(), -9_223_372_036_854_775);
    assert_eq!(least.thousandths(), -808);
    assert_eq!(Quantity { milli: 0 }.whole_units(), 0);
    assert_eq!(Quantity { milli: 999 }.whole_units(), 0);
    assert_eq!(Quantity { milli: -999 }.thousandths(), -999);
}
