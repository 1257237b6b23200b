//! The names under which the station and its collaborators are reached: the
//! API and verb of every command, the bus topics, the verbs that the station
//! serves and the events that it publishes.

use vstd::prelude::*;
use crate::context::ApiUserData;
use crate::dispatcher::UpdateClass;
use crate::effects::{Command, Update};
use crate::subsystems::MeterChannel;
use crate::text::str_eq;

verus! {

/// The verb that performs a command.
pub open spec fn verb_of(command: Command) -> Seq<char> {
    match command {
        Command::SubscribeCharge => "subscribe"@,
        Command::Logout => "logout"@,
        Command::SubscribeTopics => "subscribe_events"@,
        Command::PaymentOption(_) => "payment-option"@,
        Command::Login => "login"@,
        Command::ForwardAuthorization(_) => "authorization"@,
        Command::RemotePower(_) => "remote_power"@,
        Command::SetSlacStatus(_) => "set_slac_status"@,
        Command::ReadMeter(MeterChannel::Tension) => "tension"@,
        Command::ReadMeter(MeterChannel::Current) => "current"@,
        Command::ReadMeter(MeterChannel::Energy) => "energy"@,
    }
}

/// The API that performs a command: the charge-control, access-control or
/// meter subsystem as configured, or one side of the bus.
pub open spec fn api_of(apis: ApiUserData, command: Command) -> Seq<char> {
    match command {
        Command::SubscribeCharge => apis.charge_api@,
        Command::Logout => apis.auth_api@,
        Command::SubscribeTopics => "from_mqtt"@,
        Command::PaymentOption(_) => apis.charge_api@,
        Command::Login => apis.auth_api@,
        Command::ForwardAuthorization(_) => "to_mqtt"@,
        Command::RemotePower(_) => apis.charge_api@,
        Command::SetSlacStatus(_) => apis.charge_api@,
        Command::ReadMeter(_) => apis.meter_api@,
    }
}

impl Command {
    /// The verb that performs the command.
    pub fn verb(&self) -> (name: &'static str)
        ensures
            name@ == verb_of(*self),
    {
        match self {
            Command::SubscribeCharge => "subscribe",
            Command::Logout => "logout",
            Command::SubscribeTopics => "subscribe_events",
            Command::PaymentOption(_) => "payment-option",
            Command::Login => "login",
            Command::ForwardAuthorization(_) => "authorization",
            Command::RemotePower(_) => "remote_power",
            Command::SetSlacStatus(_) => "set_slac_status",
            Command::ReadMeter(MeterChannel::Tension) => "tension",
            Command::ReadMeter(MeterChannel::Current) => "current",
            Command::ReadMeter(MeterChannel::Energy) => "energy",
        }
    }
}

impl ApiUserData {
    /// The API that performs `command`.
    pub fn api<'a>(&'a self, command: &Command) -> (name: &'a str)
        ensures
            name@ == api_of(*self, *command),
    {
        match command {
            Command::SubscribeCharge => self.charge_api.as_str(),
            Command::Logout => self.auth_api.as_str(),
            Command::SubscribeTopics => "from_mqtt",
            Command::PaymentOption(_) => self.charge_api.as_str(),
            Command::Login => self.auth_api.as_str(),
            Command::ForwardAuthorization(_) => "to_mqtt",
            Command::RemotePower(_) => self.charge_api.as_str(),
            Command::SetSlacStatus(_) => self.charge_api.as_str(),
            Command::ReadMeter(_) => self.meter_api.as_str(),
        }
    }
}

/// The bus topics that the coordinator handles.
#[derive(Debug, Clone, Copy, PartialEq, Eq, Hash, Structural)]
pub enum BusTopic {
    SessionStatus,
    HlcCharging,
    TransactionStatus,
    SlacStatus,
}

/// The name of a bus topic.
pub open spec fn topic_name(topic: BusTopic) -> Seq<char> {
    match topic {
        BusTopic::SessionStatus => "iso15118_state_info"@,
        BusTopic::HlcCharging => "hlc_charging"@,
        BusTopic::TransactionStatus => "transaction_status"@,
        BusTopic::SlacStatus => "slac_status"@,
    }
}

/// The topic that a name stands for.
pub open spec fn topic_named(name: Seq<char>) -> Option<BusTopic> {
    if name == "iso15118_state_info"@ {
        Some(BusTopic::SessionStatus)
    } else if name == "hlc_charging"@ {
        Some(BusTopic::HlcCharging)
    } else if name == "transaction_status"@ {
        Some(BusTopic::TransactionStatus)
    } else if name == "slac_status"@ {
        Some(BusTopic::SlacStatus)
    } else {
        None
    }
}

/// The topics that the binding subscribes to at startup, in order.
pub open spec fn subscribed_topics() -> Seq<BusTopic> {
    seq![
        BusTopic::SessionStatus,
        BusTopic::HlcCharging,
        BusTopic::TransactionStatus,
        BusTopic::SlacStatus,
    ]
}

impl BusTopic {
    /// The name of the topic.
    pub fn name(&self) -> (name: &'static str)
        ensures
            name@ == topic_name(*self),
    {
        match self {
            BusTopic::SessionStatus => "iso15118_state_info",
            BusTopic::HlcCharging => "hlc_charging",
            BusTopic::TransactionStatus => "transaction_status",
            BusTopic::SlacStatus => "slac_status",
        }
    }

    /// The topic that `name` stands for.
    pub fn from_name(name: &str) -> (topic: Option<BusTopic>)
        ensures
            topic == topic_named(name@),
    {
        if str_eq(name, "iso15118_state_info") {
            Some(BusTopic::SessionStatus)
        } else if str_eq(name, "hlc_charging") {
            Some(BusTopic::HlcCharging)
        } else if str_eq(name, "transaction_status") {
            Some(BusTopic::TransactionStatus)
        } else if str_eq(name, "slac_status") {
            Some(BusTopic::SlacStatus)
        } else {
            None
        }
    }

    /// The topics that the binding subscribes to at startup, in order.
    pub fn subscribed() -> (topics: Vec<BusTopic>)
        ensures
            topics@ == subscribed_topics(),
    {
        let mut topics: Vec<BusTopic> = Vec::new();
        topics.push(BusTopic::SessionStatus);
        topics.push(BusTopic::HlcCharging);
        topics.push(BusTopic::TransactionStatus);
        topics.push(BusTopic::SlacStatus);
        topics
    }
}

/// The verbs that the station serves.
#[derive(Debug, Clone, Copy, PartialEq, Eq, Hash, Structural)]
pub enum Verb {
    Subscribe,
    ContactorStatus,
    StatusAndLimits,
    CsParameters,
    DeviceModel,
    MeterValues,
    StopCharging,
    CableCheck,
    PowerElectronicsSetpoint,
    CpPwm,
    ForceCpState,
    ClearCpState,
}

/// The name of a verb.
pub open spec fn verb_name(verb: Verb) -> Seq<char> {
    match verb {
        Verb::Subscribe => "subscribe"@,
        Verb::ContactorStatus => "cs_contactor_status"@,
        Verb::StatusAndLimits => "cs_status_and_limits"@,
        Verb::CsParameters => "cs_parameters"@,
        Verb::DeviceModel => "device_model"@,
        Verb::MeterValues => "meter_values"@,
        Verb::StopCharging => "stop_charging"@,
        Verb::CableCheck => "cable_check"@,
        Verb::PowerElectronicsSetpoint => "power_electronics_setpoint"@,
        Verb::CpPwm => "cp_pwm"@,
        Verb::ForceCpState => "force_cp_state"@,
        Verb::ClearCpState => "clear_cp_state"@,
    }
}

impl Verb {
    /// The name of the verb.
    pub fn name(&self) -> (name: &'static str)
        ensures
            name@ == verb_name(*self),
    {
        match self {
            Verb::Subscribe => "subscribe",
            Verb::ContactorStatus => "cs_contactor_status",
            Verb::StatusAndLimits => "cs_status_and_limits",
            Verb::CsParameters => "cs_parameters",
            Verb::DeviceModel => "device_model",
            Verb::MeterValues => "meter_values",
            Verb::StopCharging => "stop_charging",
            Verb::CableCheck => "cable_check",
            Verb::PowerElectronicsSetpoint => "power_electronics_setpoint",
            Verb::CpPwm => "cp_pwm",
            Verb::ForceCpState => "force_cp_state",
            Verb::ClearCpState => "clear_cp_state",
        }
    }
}

/// The class of an update.
pub open spec fn class_of(update: Update) -> UpdateClass {
    match update {
        Update::CpStatus(_) => UpdateClass::CpStatus,
        Update::ContactorStatus(_) => UpdateClass::ContactorStatus,
        Update::Authorization(_) => UpdateClass::Authorization,
    }
}

/// The name of the event that carries a class of updates.
pub open spec fn event_name(class: UpdateClass) -> Seq<char> {
    match class {
        UpdateClass::CpStatus => "cp_status"@,
        UpdateClass::Authorization => "authorization"@,
        UpdateClass::ContactorStatus => "cs_contactor_status"@,
    }
}

impl Update {
    /// The class of the update.
    pub fn class(&self) -> (class: UpdateClass)
        ensures
            class == class_of(*self),
    {
        match self {
            Update::CpStatus(_) => UpdateClass::CpStatus,
            Update::ContactorStatus(_) => UpdateClass::ContactorStatus,
            Update::Authorization(_) => UpdateClass::Authorization,
        }
    }
}

impl UpdateClass {
    /// The name of the event that carries the updates of the class.
    pub fn event(&self) -> (name: &'static str)
        ensures
            name@ == event_name(*self),
    {
        match self {
            UpdateClass::CpStatus => "cp_status",
            UpdateClass::Authorization => "authorization",
            UpdateClass::ContactorStatus => "cs_contactor_status",
        }
    }
}

} // verus!
