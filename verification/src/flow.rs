//! How a handler goes on once the outcome of its outstanding command is
//! known, and how the binding starts up.
//!
//! A failed command fails its handler. The one exception is the logout at
//! startup: the binding may already be logged out, so startup goes on
//! whatever came back.

use vstd::prelude::*;
use crate::authorization::{login_step, resolve_login, result_view};
use crate::context::{ApiUserData, StationContext, StationView};
use crate::effects::{CallResult, Command, HandlerError, Pending, Reply, Step, StepView, Update};
use crate::machine::cp_status_update;
use crate::messages::{MessageStatus, StopChargingResponse};
use crate::metering::{assemble_meter_values, meter_values_response};
use crate::subsystems::MeterChannel;

verus! {

/// The first step of startup: the subscription to the events of the
/// charge-control subsystem.
pub open spec fn startup_step() -> StepView {
    StepView::perform(Command::SubscribeCharge, Pending::ChargeSubscription)
}

/// The step that republishes the reported control-pilot state.
pub open spec fn cp_republish_step(s: StationView) -> StepView {
    StepView::publish(seq![Update::CpStatus(cp_status_update(s, s.reported_cp_state()))])
}

/// The reply that accepts a stop-charging request for `evse_id`.
pub open spec fn stop_charging_reply(evse_id: String) -> Reply {
    Reply::StopCharging(StopChargingResponse { evse_id, status: MessageStatus::Accepted })
}

/// How a handler that waits for `pending` goes on after a command that did
/// not fail.
pub open spec fn next_step(s: StationView, pending: Pending, result: CallResult) -> Result<
    StepView,
    HandlerError,
> {
    match pending {
        Pending::ChargeSubscription => Ok(
            StepView::perform(Command::Logout, Pending::StartupLogout),
        ),
        Pending::StartupLogout => Ok(StepView::perform(Command::SubscribeTopics, Pending::Last)),
        Pending::PaymentOption { evse_id } => Ok(
            StepView::perform(Command::Login, Pending::Login { evse_id }),
        ),
        Pending::Login { evse_id } => match result {
            CallResult::Login(state) => Ok(login_step(evse_id, state)),
            _ => Err(HandlerError::UnexpectedReply),
        },
        Pending::PowerForHlc => Ok(cp_republish_step(s)),
        Pending::PowerForStop { evse_id } => Ok(StepView::answer(stop_charging_reply(evse_id))),
        Pending::VoltageRead { request } => match result {
            CallResult::Meter(voltage) => Ok(
                StepView::perform(
                    Command::ReadMeter(MeterChannel::Current),
                    Pending::CurrentRead { request, voltage },
                ),
            ),
            _ => Err(HandlerError::UnexpectedReply),
        },
        Pending::CurrentRead { request, voltage } => match result {
            CallResult::Meter(current) => Ok(
                StepView::perform(
                    Command::ReadMeter(MeterChannel::Energy),
                    Pending::EnergyRead { request, voltage, current },
                ),
            ),
            _ => Err(HandlerError::UnexpectedReply),
        },
        Pending::EnergyRead { request, voltage, current } => match result {
            CallResult::Meter(energy) => Ok(
                StepView::answer(
                    Reply::MeterValues(meter_values_response(request, voltage, current, energy)),
                ),
            ),
            _ => Err(HandlerError::UnexpectedReply),
        },
        Pending::Last => Ok(StepView::idle()),
    }
}

/// How a handler that waits for `pending` goes on after the outcome `result`
/// of its command: a failure fails the handler, except that of the logout at
/// startup.
pub open spec fn resume_step(s: StationView, pending: Pending, result: CallResult) -> Result<
    StepView,
    HandlerError,
> {
    if result is Failed && !(pending is StartupLogout) {
        Err(HandlerError::SubcallFailed)
    } else {
        next_step(s, pending, result)
    }
}

impl ApiUserData {
    /// The first step of startup.
    pub fn start(&self) -> (step: Step)
        ensures
            step@ == startup_step(),
    {
        Step::perform(Command::SubscribeCharge, Pending::ChargeSubscription)
    }
}

impl StationContext {
    /// The step that republishes the reported control-pilot state.
    pub fn republish_cp_status(&self) -> (step: Step)
        ensures
            step@ == cp_republish_step(self@),
    {
        let mut updates: Vec<Update> = Vec::new();
        let update = self.cp_status_update(self.reported_cp_state());
        updates.push(Update::CpStatus(update));
        Step::publish(updates)
    }

    /// Goes on with the handler that waits for `pending`, given the outcome
    /// of its command.
    pub fn resume(&self, pending: Pending, result: CallResult) -> (next: Result<Step, HandlerError>)
        ensures
            result_view(next) == resume_step(self@, pending, result),
    {
        if let Pending::StartupLogout = pending {
            return Ok(Step::perform(Command::SubscribeTopics, Pending::Last));
        }
        if let CallResult::Failed = result {
            return Err(HandlerError::SubcallFailed);
        }
        match pending {
            Pending::ChargeSubscription => Ok(
                Step::perform(Command::Logout, Pending::StartupLogout),
            ),
            Pending::StartupLogout => Ok(Step::perform(Command::SubscribeTopics, Pending::Last)),
            Pending::PaymentOption { evse_id } => Ok(
                Step::perform(Command::Login, Pending::Login { evse_id }),
            ),
            Pending::Login { evse_id } => match result {
                CallResult::Login(state) => Ok(resolve_login(evse_id, state)),
                _ => Err(HandlerError::UnexpectedReply),
            },
            Pending::PowerForHlc => Ok(self.republish_cp_status()),
            Pending::PowerForStop { evse_id } => Ok(
                Step::answer(
                    Reply::StopCharging(
                        StopChargingResponse { evse_id, status: MessageStatus::Accepted },
                    ),
                ),
            ),
            Pending::VoltageRead { request } => match result {
                CallResult::Meter(voltage) => Ok(
                    Step::perform(
                        Command::ReadMeter(MeterChannel::Current),
                        Pending::CurrentRead { request, voltage },
                    ),
                ),
                _ => Err(HandlerError::UnexpectedReply),
            },
            Pending::CurrentRead { request, voltage } => match result {
                CallResult::Meter(current) => Ok(
                    Step::perform(
                        Command::ReadMeter(MeterChannel::Energy),
                        Pending::EnergyRead { request, voltage, current },
                    ),
                ),
                _ => Err(HandlerError::UnexpectedReply),
            },
            Pending::EnergyRead { request, voltage, current } => match result {
                CallResult::Meter(energy) => Ok(
                    Step::answer(
                        Reply::MeterValues(
                            assemble_meter_values(request, voltage, current, energy),
                        ),
                    ),
                ),
                _ => Err(HandlerError::UnexpectedReply),
            },
            Pending::Last => Ok(Step::idle()),
        }
    }
}

} // verus!
