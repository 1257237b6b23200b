//! The event normalizer: every notification that reaches the station, from
//! whichever source, becomes a change of the station context and a step.

use vstd::prelude::*;
use crate::authorization::{
    hlc_charging_step, result_view, session_status_step, slac_status_step,
    transaction_status_step, HlcChargingNotification, SessionStatusNotification,
    TransactionStatusNotification,
};
use crate::context::{StationContext, StationView};
use crate::effects::{HandlerError, Step, StepView};
use crate::machine::{after_charge_event, charge_event_updates};
use crate::messages::SlacStatusUpdate;
use crate::subsystems::ChargingMsg;
use crate::throttle::after_meter_sample;

verus! {

/// A notification, by its source.
#[derive(Debug, Clone, PartialEq)]
pub enum Notification {
    /// An event of the charge-control subsystem.
    Charge(ChargingMsg),
    /// A sample of the energy meter that arrived at `at_ms` milliseconds.
    MeterSample { at_ms: u64 },
    /// A session-status notification from the bus.
    SessionStatus(SessionStatusNotification),
    /// A high-level-charging status notification from the bus.
    HlcCharging(HlcChargingNotification),
    /// A transaction-status notification from the bus.
    TransactionStatus(TransactionStatusNotification),
    /// A matching-status notification from the bus.
    SlacStatus(SlacStatusUpdate),
}

/// The station after a notification: events of the charge-control subsystem
/// drive the state machine, meter samples pass the throttle, and what comes
/// from the bus leaves the station as it is.
pub open spec fn after_notification(s: StationView, n: Notification) -> StationView {
    match n {
        Notification::Charge(msg) => after_charge_event(s, msg),
        Notification::MeterSample { at_ms } => after_meter_sample(s, at_ms),
        _ => s,
    }
}

/// What a notification asks for.
pub open spec fn notification_step(s: StationView, n: Notification) -> Result<
    StepView,
    HandlerError,
> {
    match n {
        Notification::Charge(msg) => Ok(StepView::publish(charge_event_updates(s, msg))),
        Notification::MeterSample { at_ms } => Ok(StepView::idle()),
        Notification::SessionStatus(status) => session_status_step(s, status),
        Notification::HlcCharging(status) => Ok(hlc_charging_step(s, status)),
        Notification::TransactionStatus(status) => Ok(transaction_status_step(s, status)),
        Notification::SlacStatus(status) => Ok(slac_status_step(s, status)),
    }
}

impl StationContext {
    /// Handles a notification from any source.
    pub fn on_notification(&mut self, n: &Notification) -> (result: Result<Step, HandlerError>)
        ensures
            final(self)@ == after_notification(old(self)@, *n),
            result_view(result) == notification_step(old(self)@, *n),
    {
        match n {
            Notification::Charge(msg) => {
                let updates = self.on_charge_event(msg);
                Ok(Step::publish(updates))
            },
            Notification::MeterSample { at_ms } => {
                let _ = self.on_meter_sample(*at_ms);
                Ok(Step::idle())
            },
            Notification::SessionStatus(status) => self.on_session_status(status),
            Notification::HlcCharging(status) => Ok(self.on_hlc_charging(status)),
            Notification::TransactionStatus(status) => Ok(self.on_transaction_status(status)),
            Notification::SlacStatus(status) => Ok(self.on_slac_status(status)),
        }
    }
}

} // verus!
