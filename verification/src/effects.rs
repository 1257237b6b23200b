//! What a handler asks its caller to do.
//!
//! A handler never performs I/O. It returns a [`Step`]: the updates to publish,
//! the reply to send and, where a collaborator has to be called, the command
//! together with what the handler is waiting for. The caller performs the
//! call and hands its outcome to `StationContext::resume`, which returns the
//! next step.

use vstd::prelude::*;
use vstd::string::StringExecFns;
use crate::messages::{
    AuthorizationRequest, AuthorizationUpdate, CpStatusUpdate, CsContactorStatusUpdate,
    MeterValuesRequest, MeterValuesResponse, StopChargingResponse,
};
use crate::subsystems::{AuthState, MeterChannel, MeterDataSet, PaymentOption, SlacStatus};

verus! {

/// A notification published to the subscribed listeners.
#[derive(Debug, Clone, PartialEq)]
pub enum Update {
    CpStatus(CpStatusUpdate),
    ContactorStatus(CsContactorStatusUpdate),
    Authorization(AuthorizationUpdate),
}

/// A call to a collaborating subsystem.
#[derive(Debug, Clone, PartialEq)]
pub enum Command {
    /// Subscribe to the events of the charge-control subsystem.
    SubscribeCharge,
    /// Reset the authentication of the access-control subsystem.
    Logout,
    /// Subscribe to the bus topics that the coordinator handles.
    SubscribeTopics,
    /// Tell the charge-control subsystem which payment option was selected.
    PaymentOption(PaymentOption),
    /// Ask the access-control subsystem for a login.
    Login,
    /// Hand an authorization to the external relay.
    ForwardAuthorization(AuthorizationRequest),
    /// Close (`true`) or open (`false`) the contactor.
    RemotePower(bool),
    /// Tell the charge-control subsystem the matching status.
    SetSlacStatus(SlacStatus),
    /// Read one channel of the energy meter.
    ReadMeter(MeterChannel),
}

/// What a handler is waiting for while a command is outstanding.
#[derive(Debug, Clone, PartialEq)]
pub enum Pending {
    /// The subscription to charge-control events; the logout follows.
    ChargeSubscription,
    /// The logout at startup; the topic subscription follows whether or not
    /// the logout succeeded.
    StartupLogout,
    /// The payment option; the login follows.
    PaymentOption { evse_id: String },
    /// The login; the authorization is resolved from its reply.
    Login { evse_id: String },
    /// The contactor command of a high-level-charging notification; the
    /// control-pilot status is republished after it.
    PowerForHlc,
    /// The open-contactor command of a stop-charging request; the reply
    /// follows.
    PowerForStop { evse_id: String },
    /// The voltage reading of a meter-values request.
    VoltageRead { request: MeterValuesRequest },
    /// The current reading of a meter-values request.
    CurrentRead { request: MeterValuesRequest, voltage: MeterDataSet },
    /// The energy reading of a meter-values request.
    EnergyRead { request: MeterValuesRequest, voltage: MeterDataSet, current: MeterDataSet },
    /// The last command of a handler; nothing follows its acknowledgement.
    Last,
}

/// The outcome of a command.
#[derive(Debug, Clone, PartialEq)]
pub enum CallResult {
    /// The call failed or timed out.
    Failed,
    /// The call succeeded and its reply carries nothing that is read.
    Done,
    /// The reply of the access-control subsystem to a login.
    Login(AuthState),
    /// The reply of the meter subsystem to a read.
    Meter(MeterDataSet),
}

/// The reply that ends a request.
#[derive(Debug, Clone, PartialEq)]
pub enum Reply {
    StopCharging(StopChargingResponse),
    MeterValues(MeterValuesResponse),
}

/// A command and what awaits its outcome.
#[derive(Debug, Clone, PartialEq)]
pub struct Call {
    pub command: Command,
    pub pending: Pending,
}

/// What the caller has to do next, in this order: publish `updates`, send
/// `reply`, perform `call`. With no `call` the handler has finished.
#[derive(Debug, Clone, PartialEq)]
pub struct Step {
    pub updates: Vec<Update>,
    pub reply: Option<Reply>,
    pub call: Option<Call>,
}

/// Why a handler failed.
#[derive(Debug, Clone, PartialEq, Eq)]
pub enum HandlerError {
    /// A session-status notification carries no EVSE identifier.
    MissingEvseId,
    /// The selected payment option, given here as it was spelled, is none of
    /// the recognized ones.
    InvalidPaymentOption(String),
    /// A call to a collaborating subsystem failed or timed out.
    SubcallFailed,
    /// A collaborating subsystem replied with something else than was asked.
    UnexpectedReply,
}

impl HandlerError {
    /// The text of the error.
    pub open spec fn spec_message(self) -> Seq<char> {
        match self {
            HandlerError::MissingEvseId => "Missing EVSE identifier"@,
            HandlerError::InvalidPaymentOption(name) => "Invalid Payment Option: "@ + name@,
            HandlerError::SubcallFailed => "Call to a collaborating subsystem failed"@,
            HandlerError::UnexpectedReply => "Unexpected reply from a collaborating subsystem"@,
        }
    }

    /// The text of the error. That of an invalid payment option names the
    /// option.
    pub fn message(&self) -> (text: String)
        ensures
            text@ == self.spec_message(),
    {
        match self {
            HandlerError::MissingEvseId => "Missing EVSE identifier".to_owned(),
            HandlerError::InvalidPaymentOption(name) => {
                let mut text = "Invalid Payment Option: ".to_owned();
                text.append(name.as_str());
                text
            },
            HandlerError::SubcallFailed => "Call to a collaborating subsystem failed".to_owned(),
            HandlerError::UnexpectedReply =>
                "Unexpected reply from a collaborating subsystem".to_owned(),
        }
    }
}

/// A [`Step`] as a mathematical value.
pub struct StepView {
    pub updates: Seq<Update>,
    pub reply: Option<Reply>,
    pub call: Option<Call>,
}

impl StepView {
    /// The step that asks for nothing.
    pub open spec fn idle() -> StepView {
        StepView { updates: Seq::empty(), reply: None, call: None }
    }

    /// The step that only publishes `updates`.
    pub open spec fn publish(updates: Seq<Update>) -> StepView {
        StepView { updates, reply: None, call: None }
    }

    /// The step that only performs `command`, keeping `pending` for its
    /// outcome.
    pub open spec fn perform(command: Command, pending: Pending) -> StepView {
        StepView { updates: Seq::empty(), reply: None, call: Some(Call { command, pending }) }
    }

    /// The step that only sends `reply`.
    pub open spec fn answer(reply: Reply) -> StepView {
        StepView { updates: Seq::empty(), reply: Some(reply), call: None }
    }

    /// Whether the step asks for nothing: no update, no reply, no call.
    pub open spec fn is_idle(self) -> bool {
        self == Self::idle()
    }

    /// Whether the step ends its handler.
    pub open spec fn is_final(self) -> bool {
        self.call is None
    }
}

impl View for Step {
    type V = StepView;

    open spec fn view(&self) -> StepView {
        StepView { updates: self.updates@, reply: self.reply, call: self.call }
    }
}

impl Step {
    /// The step that asks for nothing.
    pub fn idle() -> (step: Step)
        ensures
            step@ == StepView::idle(),
    {
        Step { updates: Vec::new(), reply: None, call: None }
    }

    /// The step that only publishes `updates`.
    pub fn publish(updates: Vec<Update>) -> (step: Step)
        ensures
            step@ == StepView::publish(updates@),
    {
        Step { updates, reply: None, call: None }
    }

    /// The step that only performs `command`, keeping `pending` for its
    /// outcome.
    pub fn perform(command: Command, pending: Pending) -> (step: Step)
        ensures
            step@ == StepView::perform(command, pending),
    {
        Step { updates: Vec::new(), reply: None, call: Some(Call { command, pending }) }
    }

    /// The step that only sends `reply`.
    pub fn answer(reply: Reply) -> (step: Step)
        ensures
            step@ == StepView::answer(reply),
    {
        Step { updates: Vec::new(), reply: Some(reply), call: None }
    }
}

} // verus!
