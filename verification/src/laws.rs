//! What holds of the coordinator whatever it is fed.

use vstd::prelude::*;
use crate::authorization::{
    hlc_charging_step, login_step, session_status_step, slac_status_step,
    transaction_status_step, HlcChargingNotification, SessionStatusNotification,
    TransactionStatusNotification,
};
use crate::context::{StagingPolicy, StationView};
use crate::dispatcher::{
    cable_check_reply, contactor_status_reply, cp_pwm_reply, status_query_served,
    stop_charging_step,
};
use crate::effects::{Call, CallResult, Pending, StepView, Update};
use crate::flow::{cp_republish_step, resume_step};
use crate::machine::{
    after_charge_event, charge_event_updates, contactor_status, cp_status_update, plug_target,
    plug_updates,
};
use crate::messages::{
    CableCheckRequest, ControlPilotState, CpPwmRequest, CsContactorStatusRequest,
    MeterValuesRequest, PowerElectronicsSetpointRequest, SlacStatusUpdate, StopChargingRequest,
};
use crate::metering::meter_values_step;
use crate::overrides::{after_clear, after_force, clear_updates, force_updates};
use crate::power_electronics::{after_setpoint, setpoint_reply};
use crate::subsystems::{AuthState, ChargingMsg, PlugState, PowerRequest};
use crate::throttle::{after_meter_sample, sample_accepted};

verus! {

/// The station after a sequence of plug signals, applied in order.
pub open spec fn after_plug_signals(s: StationView, signals: Seq<PlugState>) -> StationView
    decreases signals.len(),
{
    if signals.len() == 0 {
        s
    } else {
        after_charge_event(
            after_plug_signals(s, signals.drop_last()),
            ChargingMsg::Plugged(signals.last()),
        )
    }
}

/// After any sequence of plug signals the control-pilot state is the one that
/// the last signal leads to, and nothing else of the station has changed.
pub proof fn law_plug_sequence(s: StationView, signals: Seq<PlugState>)
    ensures
        after_plug_signals(s, signals) == (StationView {
            cp_state: if signals.len() == 0 {
                s.cp_state
            } else {
                plug_target(signals.last())
            },
            ..s
        }),
    decreases signals.len(),
{
    if signals.len() > 0 {
        law_plug_sequence(s, signals.drop_last());
    }
}

/// A staged signal that reaches an unplugged station without an override
/// publishes two updates: the intermediate `B1`, then the state it ends in.
pub proof fn law_staged_jump(s: StationView, plug: PlugState)
    requires
        s.cp_state == ControlPilotState::A1,
        s.forced_cp_state is None,
        plug == PlugState::PlugIn || (plug == PlugState::Lock && s.staging
            == StagingPolicy::PlugAndLock),
    ensures
        charge_event_updates(s, ChargingMsg::Plugged(plug)) == seq![
            Update::CpStatus(cp_status_update(s, ControlPilotState::B1)),
            Update::CpStatus(cp_status_update(s, plug_target(plug))),
        ],
        plug_target(plug) == ControlPilotState::B2 || plug_target(plug) == ControlPilotState::C2,
        after_charge_event(s, ChargingMsg::Plugged(plug)).cp_state == plug_target(plug),
{
}

/// Delivering the same event of the charge-control subsystem a second time
/// changes nothing: the station is as it was after the first delivery.
pub proof fn law_redelivery_is_idempotent(s: StationView, msg: ChargingMsg)
    ensures
        after_charge_event(after_charge_event(s, msg), msg) == after_charge_event(s, msg),
{
}

/// A plug signal that is delivered a second time publishes at most the state
/// that is already reported, never an intermediate one.
pub proof fn law_redelivery_reasserts(s: StationView, plug: PlugState)
    ensures
        plug_updates(after_charge_event(s, ChargingMsg::Plugged(plug)), plug).len() <= 1,
        forall|i: int|
            0 <= i < plug_updates(after_charge_event(s, ChargingMsg::Plugged(plug)), plug).len()
                ==> #[trigger] plug_updates(
                after_charge_event(s, ChargingMsg::Plugged(plug)),
                plug,
            )[i] == Update::CpStatus(
                cp_status_update(s, after_charge_event(s, ChargingMsg::Plugged(plug)).cp_state),
            ),
{
}

/// Plug signals and power requests may arrive in either order: the station
/// ends in the same state.
pub proof fn law_sources_commute(s: StationView, plug: PlugState, request: PowerRequest)
    ensures
        after_charge_event(
            after_charge_event(s, ChargingMsg::Plugged(plug)),
            ChargingMsg::Power(request),
        ) == after_charge_event(
            after_charge_event(s, ChargingMsg::Power(request)),
            ChargingMsg::Plugged(plug),
        ),
{
}

/// Repeating a force request changes nothing.
pub proof fn law_force_is_idempotent(s: StationView, cp: Option<Seq<char>>, closed: Option<bool>)
    ensures
        after_force(after_force(s, cp, closed), cp, closed) == after_force(s, cp, closed),
{
}

/// Whether every update of `updates` that reports an overridden value of the
/// station `s` reports the override.
pub open spec fn reports_overrides(s: StationView, updates: Seq<Update>) -> bool {
    forall|i: int|
        0 <= i < updates.len() ==> match #[trigger] updates[i] {
            Update::CpStatus(update) => s.forced_cp_state matches Some(forced) ==> update.state
                == forced,
            Update::ContactorStatus(update) => s.forced_contactor_closed matches Some(forced)
                ==> update.status == contactor_status(forced),
            Update::Authorization(_) => true,
        }
}

/// While an override is set, computed transitions leave it alone, the
/// reported value stays the forced one, and every update that is published
/// reports the forced value.
pub proof fn law_override_is_reported(s: StationView, msg: ChargingMsg)
    ensures
        after_charge_event(s, msg).forced_cp_state == s.forced_cp_state,
        after_charge_event(s, msg).forced_contactor_closed == s.forced_contactor_closed,
        s.forced_cp_state is Some ==> after_charge_event(s, msg).reported_cp_state()
            == s.reported_cp_state(),
        s.forced_contactor_closed is Some ==> after_charge_event(s, msg).reported_contactor_closed()
            == s.reported_contactor_closed(),
        reports_overrides(after_charge_event(s, msg), charge_event_updates(s, msg)),
        reports_overrides(s, cp_republish_step(s).updates),
{
}

/// A force request publishes the values that it forces.
pub proof fn law_force_is_published(s: StationView, cp: Option<Seq<char>>, closed: Option<bool>)
    ensures
        reports_overrides(after_force(s, cp, closed), force_updates(s, cp, closed)),
{
}

/// A contactor-status query reports the forced position while an override is
/// set.
pub proof fn law_query_reports_override(s: StationView, request: CsContactorStatusRequest)
    requires
        s.serves(request.evse_id@),
        s.forced_contactor_closed is Some,
    ensures
        contactor_status_reply(s, request) matches Some(reply) && reply.status
            == contactor_status(s.forced_contactor_closed->0),
{
}

/// Clearing an override shows the computed value again: it is what is
/// reported from then on, and what the clear request publishes.
pub proof fn law_clearing_shows_computed(s: StationView, cp: bool, contactor: bool)
    ensures
        after_clear(s, cp, contactor).cp_state == s.cp_state,
        after_clear(s, cp, contactor).contactor_closed == s.contactor_closed,
        cp ==> after_clear(s, cp, contactor).reported_cp_state() == s.cp_state,
        contactor ==> after_clear(s, cp, contactor).reported_contactor_closed()
            == s.contactor_closed,
        reports_overrides(after_clear(s, cp, contactor), clear_updates(s, cp, contactor)),
        names_station(s, clear_updates(s, cp, contactor)),
{
}

/// The computed values follow the signals whether or not an override is set,
/// so that clearing the override shows the value that the signals led to.
pub proof fn law_clearing_restores_computed(s: StationView, msg: ChargingMsg)
    ensures
        after_charge_event(s, msg).cp_state == after_charge_event(
            StationView { forced_cp_state: None, ..s },
            msg,
        ).cp_state,
        after_charge_event(s, msg).contactor_closed == after_charge_event(
            StationView { forced_contactor_closed: None, ..s },
            msg,
        ).contactor_closed,
        (StationView { forced_cp_state: None, ..after_charge_event(s, msg) }).reported_cp_state()
            == after_charge_event(s, msg).cp_state,
        (StationView {
            forced_contactor_closed: None,
            ..after_charge_event(s, msg)
        }).reported_contactor_closed() == after_charge_event(s, msg).contactor_closed,
{
}

/// Whether every update of `updates` names the EVSE of the station `s`, and
/// every control-pilot update its connector too.
pub open spec fn names_station(s: StationView, updates: Seq<Update>) -> bool {
    forall|i: int|
        0 <= i < updates.len() ==> match #[trigger] updates[i] {
            Update::CpStatus(update) => update.evse_id@ == s.evse_id()@ && update.connector_id
                == s.connector_id(),
            Update::ContactorStatus(update) => update.evse_id@ == s.evse_id()@,
            Update::Authorization(update) => update.evse_id@ == s.evse_id()@,
        }
}

/// Every update that the state machine, a force request or a republication
/// publishes names the configured EVSE and connector.
pub proof fn law_updates_name_the_station(
    s: StationView,
    msg: ChargingMsg,
    cp: Option<Seq<char>>,
    closed: Option<bool>,
)
    ensures
        names_station(s, charge_event_updates(s, msg)),
        names_station(s, force_updates(s, cp, closed)),
        names_station(s, cp_republish_step(s).updates),
{
}

/// An authorization that a session-status notification starts is resolved
/// for the configured EVSE: the identifier that travels with the payment
/// option and the login is the station's, and so is the one in the update
/// that accepts the authorization.
pub proof fn law_authorization_names_the_station(
    s: StationView,
    n: SessionStatusNotification,
    state: AuthState,
)
    ensures
        session_status_step(s, n) matches Ok(step) ==> match step.call {
            Some(Call { pending: Pending::PaymentOption { evse_id }, .. }) => s.serves(evse_id@)
                && names_station(s, login_step(evse_id, state).updates),
            Some(Call { pending: Pending::Login { evse_id }, .. }) => s.serves(evse_id@)
                && names_station(s, login_step(evse_id, state).updates),
            _ => true,
        },
{
}

/// Every reply to a request names the configured EVSE.
pub proof fn law_replies_name_the_station(
    s: StationView,
    contactor: CsContactorStatusRequest,
    cable: CableCheckRequest,
    pwm: CpPwmRequest,
    stop: StopChargingRequest,
    setpoint: PowerElectronicsSetpointRequest,
)
    ensures
        contactor_status_reply(s, contactor) matches Some(reply) ==> reply.evse_id@
            == s.evse_id()@,
        cable_check_reply(s, cable) matches Some(reply) ==> reply.evse_id@ == s.evse_id()@,
        cp_pwm_reply(s, pwm) matches Some(reply) ==> reply.evse_id@ == s.evse_id()@,
        setpoint_reply(s, setpoint) matches Some(reply) ==> reply.evse_id@ == s.evse_id()@,
        stop_charging_step(s, stop).call matches Some(call) ==> call.pending
            == (Pending::PowerForStop { evse_id: stop.evse_id }) && stop.evse_id@
            == s.evse_id()@,
{
}

/// A notification for another EVSE than the configured one asks for nothing.
pub proof fn law_foreign_notification_is_dropped(
    s: StationView,
    evse_id: String,
    session: SessionStatusNotification,
    hlc: HlcChargingNotification,
    transaction: TransactionStatusNotification,
    slac: SlacStatusUpdate,
)
    requires
        !s.serves(evse_id@),
        session.evse_id == Some(evse_id),
        hlc.evse_id == Some(evse_id),
        transaction.evse_id == Some(evse_id),
        slac.evse_id == evse_id,
    ensures
        session_status_step(s, session) == Ok::<StepView, crate::effects::HandlerError>(
            StepView::idle(),
        ),
        hlc_charging_step(s, hlc).is_idle(),
        transaction_status_step(s, transaction).is_idle(),
        slac_status_step(s, slac).is_idle(),
{
}

/// A request for another EVSE than the configured one is not answered and
/// changes nothing.
pub proof fn law_foreign_request_is_dropped(
    s: StationView,
    evse_id: String,
    contactor: CsContactorStatusRequest,
    cable: CableCheckRequest,
    pwm: CpPwmRequest,
    stop: StopChargingRequest,
    setpoint: PowerElectronicsSetpointRequest,
    meter: MeterValuesRequest,
)
    requires
        !s.serves(evse_id@),
        contactor.evse_id == evse_id,
        cable.evse_id == evse_id,
        pwm.evse_id == evse_id,
        stop.evse_id == evse_id,
        setpoint.evse_id == evse_id,
        meter.evse_id == Some(evse_id),
    ensures
        contactor_status_reply(s, contactor) is None,
        cable_check_reply(s, cable) is None,
        cp_pwm_reply(s, pwm) is None,
        stop_charging_step(s, stop).is_idle(),
        setpoint_reply(s, setpoint) is None,
        after_setpoint(s, setpoint) == s,
        !status_query_served(s, Some(evse_id@)),
        meter_values_step(s, meter).is_idle(),
{
}

/// Of two meter samples that arrive less than the configured interval apart,
/// the first being accepted, the second is dropped and leaves the time of the
/// last accepted sample as it is.
pub proof fn law_throttle_drops_early_sample(s: StationView, first: u64, second: u64)
    requires
        sample_accepted(s, first),
        second - first < s.meter_interval_ms,
    ensures
        !sample_accepted(after_meter_sample(s, first), second),
        after_meter_sample(after_meter_sample(s, first), second) == after_meter_sample(s, first),
        after_meter_sample(s, first).last_meter_sample_at == Some(first),
{
}

/// The most calls that a handler can still make after the one that it waits
/// for.
pub open spec fn calls_after(pending: Pending) -> nat {
    match pending {
        Pending::ChargeSubscription => 2,
        Pending::StartupLogout => 1,
        Pending::PaymentOption { .. } => 2,
        Pending::Login { .. } => 1,
        Pending::PowerForHlc => 0,
        Pending::PowerForStop { .. } => 0,
        Pending::VoltageRead { .. } => 2,
        Pending::CurrentRead { .. } => 1,
        Pending::EnergyRead { .. } => 0,
        Pending::Last => 0,
    }
}

/// Every handler ends: each call that follows another leaves fewer calls to
/// make, and a handler that waits for its last call makes no other.
pub proof fn law_handlers_end(s: StationView, pending: Pending, result: CallResult)
    ensures
        resume_step(s, pending, result) matches Ok(step) ==> match step.call {
            Some(call) => calls_after(call.pending) < calls_after(pending),
            None => true,
        },
        calls_after(pending) == 0 ==> (resume_step(s, pending, result) matches Ok(step)
            ==> step.is_final()),
{
}

/// A meter sample that arrives at least the configured interval after the
/// last accepted one is accepted.
pub proof fn law_throttle_accepts_late_sample(s: StationView, first: u64, second: u64)
    requires
        sample_accepted(s, first),
        second - first >= s.meter_interval_ms,
    ensures
        sample_accepted(after_meter_sample(s, first), second),
        after_meter_sample(after_meter_sample(s, first), second).last_meter_sample_at == Some(
            second,
        ),
{
}

} // verus!
