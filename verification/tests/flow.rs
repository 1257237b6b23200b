use evse_coordinator::authorization::{HlcChargingNotification, SessionStatusNotification};
use evse_coordinator::context::{binding_init, BindingConfig, StagingPolicy, StationContext};
use evse_coordinator::dispatcher::UpdateClass;
use evse_coordinator::effects::{
    Call, CallResult, Command, HandlerError, Pending, Reply, Step, Update,
};
use evse_coordinator::messages::{
    AuthorizationRequest, AuthorizationStatus, AuthorizationTokenType, AuthorizationUpdate,
    ControlPilotState, CpStatusUpdate, CsContactorStatusResponseStatus, CsContactorStatusUpdate,
    CsParametersConnector, CsParametersConnectorService, CsParametersResponse,
    CsParametersResponseEntry, CsStatusAndLimitsResponse, MessageStatus, StopChargingRequest,
    StopChargingResponse,
};
use evse_coordinator::normalizer::Notification;
use evse_coordinator::routes::{BusTopic, Verb};
use evse_coordinator::subsystems::{
    AuthMsg, AuthState, ChargingMsg, MeterChannel, MeterDataSet, PaymentOption, PlugState,
    PowerRequest, SlacStatus,
};

fn flow_station() -> StationContext {
    binding_init(BindingConfig {
        cs_parameters: CsParametersResponse {
            sw_version: "1.0".to_string(),
            hw_version: "A".to_string(),
            number_of_evses: 1,
            parameters: vec![CsParametersResponseEntry {
                evse_id: "EVSE-1".to_string(),
                supports_eim: true,
                network_interface: "eth0".to_string(),
                connectors: vec![CsParametersConnector {
                    id: 2,
                    services: CsParametersConnectorService {
                        ac: None,
                        ac_bpt: None,
                        dc: None,
                        dc_bpt: None,
                    },
                }],
            }],
        },
        cs_status_and_limits: CsStatusAndLimitsResponse { evses: vec![] },
        device_model: None,
        charge_api: "chmgr".to_string(),
        meter_api: "engy".to_string(),
        auth_api: "auth".to_string(),
        meter_interval_ms: None,
        staging: StagingPolicy::PlugOnly,
    })
    .unwrap()
}

fn nothing() -> Step {
    Step { updates: vec![], reply: None, call: None }
}

fn calling(command: Command, pending: Pending) -> Step {
    Step { updates: vec![], reply: None, call: Some(Call { command, pending }) }
}

fn cp_update(state: ControlPilotState) -> Update {
    Update::CpStatus(CpStatusUpdate {
        evse_id: "EVSE-1".to_string(),
        connector_id: 2,
        state,
        max_voltage: None,
        min_voltage: None,
        duty_cycle: None,
    })
}

fn done_login(ocpp_check: bool) -> CallResult {
    CallResult::Login(AuthState { auth: AuthMsg::Done, tagid: "tag-7".to_string(), ocpp_check })
}

#[test]
fn startup_subscribes_logs_out_and_subscribes_to_topics() {
    let station = flow_station();
    let step = station.apis().start();
    assert_eq!(step, calling(Command::SubscribeCharge, Pending::ChargeSubscription));
    let step = station.resume(Pending::ChargeSubscription, CallResult::Done).unwrap();
    assert_eq!(step, calling(Command::Logout, Pending::StartupLogout));
    let step = station.resume(Pending::StartupLogout, CallResult::Done).unwrap();
    assert_eq!(step, calling(Command::SubscribeTopics, Pending::Last));
    let step = station.resume(Pending::Last, CallResult::Done).unwrap();
    assert_eq!(step, nothing());
}

#[test]
fn failed_logout_at_startup_is_tolerated() {
    let station = flow_station();
    let step = station.resume(Pending::StartupLogout, CallResult::Failed);
    assert_eq!(step, Ok(calling(Command::SubscribeTopics, Pending::Last)));
}

#[test]
fn failed_subscription_at_startup_fails() {
    let station = flow_station();
    assert_eq!(
        station.resume(Pending::ChargeSubscription, CallResult::Failed),
        Err(HandlerError::SubcallFailed)
    );
    assert_eq!(station.resume(Pending::Last, CallResult::Failed), Err(HandlerError::SubcallFailed));
}

#[test]
fn every_failed_call_fails_its_handler() {
    let station = flow_station();
    let id = "EVSE-1".to_string();
    assert_eq!(
        station.resume(Pending::PaymentOption { evse_id: id.clone() }, CallResult::Failed),
        Err(HandlerError::SubcallFailed)
    );
    assert_eq!(
        station.resume(Pending::Login { evse_id: id.clone() }, CallResult::Failed),
        Err(HandlerError::SubcallFailed)
    );
    assert_eq!(
        station.resume(Pending::PowerForHlc, CallResult::Failed),
        Err(HandlerError::SubcallFailed)
    );
    assert_eq!(
        station.resume(Pending::PowerForStop { evse_id: id }, CallResult::Failed),
        Err(HandlerError::SubcallFailed)
    );
}

#[test]
fn login_reply_of_another_kind_is_unexpected() {
    let station = flow_station();
    let pending = Pending::Login { evse_id: "EVSE-1".to_string() };
    assert_eq!(
        station.resume(pending.clone(), CallResult::Done),
        Err(HandlerError::UnexpectedReply)
    );
    let reading = MeterDataSet { l1: 0, l2: 0, l3: 0, total: 0 };
    assert_eq!(
        station.resume(pending, CallResult::Meter(reading)),
        Err(HandlerError::UnexpectedReply)
    );
}

#[test]
fn stop_charging_is_accepted_once_the_contactor_command_is_acknowledged() {
    let station = flow_station();
    let step = station.on_stop_charging(&StopChargingRequest { evse_id: "EVSE-1".to_string() });
    let call = step.call.unwrap();
    assert_eq!(call.command, Command::RemotePower(false));
    let step = station.resume(call.pending, CallResult::Done).unwrap();
    assert_eq!(
        step,
        Step {
            updates: vec![],
            reply: Some(Reply::StopCharging(StopChargingResponse {
                evse_id: "EVSE-1".to_string(),
                status: MessageStatus::Accepted,
            })),
            call: None,
        }
    );
}

#[test]
fn hlc_charging_republishes_the_cp_status_after_the_command() {
    let mut station = flow_station();
    station.on_charge_event(&ChargingMsg::Plugged(PlugState::Lock));
    let n = HlcChargingNotification { evse_id: Some("EVSE-1".to_string()), status: Some(true) };
    let call = station.on_hlc_charging(&n).call.unwrap();
    let step = station.resume(call.pending, CallResult::Done).unwrap();
    assert_eq!(step, Step { updates: vec![cp_update(ControlPilotState::C2)], reply: None, call: None });
    assert_eq!(station.republish_cp_status(), step);
}

#[test]
fn hlc_charging_republishes_the_forced_state_under_an_override() {
    let mut station = flow_station();
    station.on_charge_event(&ChargingMsg::Plugged(PlugState::Lock));
    station.on_force_cp_state(Some("D2"), None);
    let step = station.resume(Pending::PowerForHlc, CallResult::Done).unwrap();
    assert_eq!(step.updates, vec![cp_update(ControlPilotState::D2)]);
    station.clear_forced_cp_state();
    let step = station.resume(Pending::PowerForHlc, CallResult::Done).unwrap();
    assert_eq!(step.updates, vec![cp_update(ControlPilotState::C2)]);
}

#[test]
fn authorization_with_local_login_publishes_one_accepted_update() {
    let station = flow_station();
    let n = SessionStatusNotification {
        evse_id: Some("EVSE-1".to_string()),
        session_status: Some("Authorization".to_string()),
        selected_payment_option: Some("EIM".to_string()),
    };
    let call = station.on_session_status(&n).unwrap().call.unwrap();
    assert_eq!(call.command, Command::PaymentOption(PaymentOption::Eim));
    let call = station.resume(call.pending, CallResult::Done).unwrap().call.unwrap();
    assert_eq!(call.command, Command::Login);
    let step = station.resume(call.pending, done_login(false)).unwrap();
    assert_eq!(
        step,
        Step {
            updates: vec![Update::Authorization(AuthorizationUpdate {
                evse_id: "EVSE-1".to_string(),
                id_token: Some("tag-7".to_string()),
                token_type: AuthorizationTokenType::ISO14443,
                status: AuthorizationStatus::Accepted,
            })],
            reply: None,
            call: None,
        }
    );
}

#[test]
fn authorization_with_ocpp_check_is_forwarded_instead() {
    let station = flow_station();
    let n = SessionStatusNotification {
        evse_id: Some("EVSE-1".to_string()),
        session_status: Some("Authorization".to_string()),
        selected_payment_option: Some("pnc".to_string()),
    };
    let call = station.on_session_status(&n).unwrap().call.unwrap();
    let call = station.resume(call.pending, CallResult::Done).unwrap().call.unwrap();
    let step = station.resume(call.pending, done_login(true)).unwrap();
    assert_eq!(step.updates, vec![]);
    assert_eq!(step.reply, None);
    let call = step.call.unwrap();
    assert_eq!(
        call.command,
        Command::ForwardAuthorization(AuthorizationRequest {
            evse_id: Some("EVSE-1".to_string()),
            id_token: Some("tag-7".to_string()),
            token_type: AuthorizationTokenType::ISO14443,
        })
    );
    assert_eq!(station.resume(call.pending, CallResult::Done), Ok(nothing()));
}

#[test]
fn plug_power_and_session_stop_end_with_an_open_contactor() {
    let mut station = flow_station();
    let step = station
        .on_notification(&Notification::Charge(ChargingMsg::Plugged(PlugState::PlugIn)))
        .unwrap();
    assert_eq!(step.updates, vec![cp_update(ControlPilotState::B1), cp_update(ControlPilotState::B2)]);
    assert_eq!(step.call, None);

    let step = station
        .on_notification(&Notification::Charge(ChargingMsg::Power(PowerRequest::Start)))
        .unwrap();
    assert_eq!(
        step.updates,
        vec![Update::ContactorStatus(CsContactorStatusUpdate {
            evse_id: "EVSE-1".to_string(),
            status: CsContactorStatusResponseStatus::Closed,
            info: None,
        })]
    );

    let stop = Notification::SessionStatus(SessionStatusNotification {
        evse_id: Some("EVSE-1".to_string()),
        session_status: Some("SessionStop".to_string()),
        selected_payment_option: None,
    });
    let step = station.on_notification(&stop).unwrap();
    assert_eq!(step.updates, vec![]);
    let call = step.call.unwrap();
    assert_eq!(call.command, Command::RemotePower(false));
    assert_eq!(station.apis().api(&call.command), "chmgr");
    assert_eq!(call.command.verb(), "remote_power");
    assert!(station.contactor_closed());
    assert_eq!(station.resume(call.pending, CallResult::Done), Ok(nothing()));

    let step = station
        .on_notification(&Notification::Charge(ChargingMsg::Power(PowerRequest::Stop(0))))
        .unwrap();
    assert_eq!(
        step.updates,
        vec![Update::ContactorStatus(CsContactorStatusUpdate {
            evse_id: "EVSE-1".to_string(),
            status: CsContactorStatusResponseStatus::Opened,
            info: None,
        })]
    );
    assert!(!station.contactor_closed());
    assert_eq!(station.cp_state(), ControlPilotState::B2);
}

#[test]
fn notifications_are_dispatched_by_source() {
    let mut station = flow_station();
    assert_eq!(station.on_notification(&Notification::MeterSample { at_ms: 100 }), Ok(nothing()));
    assert_eq!(station.last_meter_sample_at(), Some(100));
    assert_eq!(station.on_notification(&Notification::MeterSample { at_ms: 200 }), Ok(nothing()));
    assert_eq!(station.last_meter_sample_at(), Some(100));

    let hlc = Notification::HlcCharging(HlcChargingNotification {
        evse_id: Some("EVSE-1".to_string()),
        status: Some(true),
    });
    assert_eq!(
        station.on_notification(&hlc),
        Ok(calling(Command::RemotePower(true), Pending::PowerForHlc))
    );
    let missing = Notification::SessionStatus(SessionStatusNotification {
        evse_id: None,
        session_status: None,
        selected_payment_option: None,
    });
    assert_eq!(station.on_notification(&missing), Err(HandlerError::MissingEvseId));
    assert_eq!(station.cp_state(), ControlPilotState::A1);
}

#[test]
fn foreign_notifications_change_nothing() {
    let mut station = flow_station();
    station.on_charge_event(&ChargingMsg::Plugged(PlugState::PlugIn));
    let foreign = Notification::SessionStatus(SessionStatusNotification {
        evse_id: Some("EVSE-other".to_string()),
        session_status: Some("SessionStop".to_string()),
        selected_payment_option: None,
    });
    assert_eq!(station.on_notification(&foreign), Ok(nothing()));
    assert_eq!(station.cp_state(), ControlPilotState::B2);
    assert!(!station.contactor_closed());
    assert_eq!(station.forced_cp_state(), None);
    assert_eq!(station.last_meter_sample_at(), None);
}

#[test]
fn every_command_has_its_api_and_verb() {
    let station = flow_station();
    let apis = station.apis();
    let request = AuthorizationRequest {
        evse_id: None,
        id_token: None,
        token_type: AuthorizationTokenType::ISO14443,
    };
    let table = [
        (Command::SubscribeCharge, "chmgr", "subscribe"),
        (Command::Logout, "auth", "logout"),
        (Command::SubscribeTopics, "from_mqtt", "subscribe_events"),
        (Command::PaymentOption(PaymentOption::Eim), "chmgr", "payment-option"),
        (Command::Login, "auth", "login"),
        (Command::ForwardAuthorization(request), "to_mqtt", "authorization"),
        (Command::RemotePower(true), "chmgr", "remote_power"),
        (Command::SetSlacStatus(SlacStatus::Matched), "chmgr", "set_slac_status"),
        (Command::ReadMeter(MeterChannel::Tension), "engy", "tension"),
        (Command::ReadMeter(MeterChannel::Current), "engy", "current"),
        (Command::ReadMeter(MeterChannel::Energy), "engy", "energy"),
    ];
    for (command, api, verb) in table {
        assert_eq!(apis.api(&command), api);
        assert_eq!(command.verb(), verb);
    }
}

#[test]
fn bus_topics_have_their_names() {
    let topics = BusTopic::subscribed();
    assert_eq!(
        topics,
        vec![
            BusTopic::SessionStatus,
            BusTopic::HlcCharging,
            BusTopic::TransactionStatus,
            BusTopic::SlacStatus
        ]
    );
    let names: Vec<&str> = topics.iter().map(|t| t.name()).collect();
    assert_eq!(names, vec!["iso15118_state_info", "hlc_charging", "transaction_status", "slac_status"]);
    for topic in topics {
        assert_eq!(BusTopic::from_name(topic.name()), Some(topic));
    }
    assert_eq!(BusTopic::from_name("cp_status"), None);
    assert_eq!(BusTopic::from_name(""), None);
}

#[test]
fn verbs_and_events_have_their_names() {
    assert_eq!(Verb::Subscribe.name(), "subscribe");
    assert_eq!(Verb::ContactorStatus.name(), "cs_contactor_status");
    assert_eq!(Verb::StatusAndLimits.name(), "cs_status_and_limits");
    assert_eq!(Verb::CsParameters.name(), "cs_parameters");
    assert_eq!(Verb::DeviceModel.name(), "device_model");
    assert_eq!(Verb::MeterValues.name(), "meter_values");
    assert_eq!(Verb::StopCharging.name(), "stop_charging");
    assert_eq!(Verb::CableCheck.name(), "cable_check");
    assert_eq!(Verb::PowerElectronicsSetpoint.name(), "power_electronics_setpoint");
    assert_eq!(Verb::CpPwm.name(), "cp_pwm");
    assert_eq!(Verb::ForceCpState.name(), "force_cp_state");
    assert_eq!(Verb::ClearCpState.name(), "clear_cp_state");
    assert_eq!(UpdateClass::CpStatus.event(), "cp_status");
    assert_eq!(UpdateClass::Authorization.event(), "authorization");
    assert_eq!(UpdateClass::ContactorStatus.event(), "cs_contactor_status");
    assert_eq!(cp_update(ControlPilotState::A1).class(), UpdateClass::CpStatus);
}
