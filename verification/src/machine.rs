//! The control-pilot and contactor state machine.
//!
//! Plug signals drive the control-pilot state, power requests drive the
//! contactor. Both are tracked underneath an override: while one is set, the
//! computed value keeps changing and no update is published for it.

use vstd::prelude::*;
use crate::context::{StagingPolicy, StationContext, StationView};
use crate::effects::Update;
use crate::messages::{
    ControlPilotState, CpStatusUpdate, CsContactorStatusResponseStatus, CsContactorStatusUpdate,
};
use crate::subsystems::{ChargingMsg, PlugState, PowerRequest};

verus! {

/// The control-pilot state that a plug signal leads to: plugged in is `B2`,
/// locked is `C2`, anything else is `A1`.
pub open spec fn plug_target(plug: PlugState) -> ControlPilotState {
    match plug {
        PlugState::PlugIn => ControlPilotState::B2,
        PlugState::Lock => ControlPilotState::C2,
        _ => ControlPilotState::A1,
    }
}

/// Whether a plug signal received in state `from` passes through `B1` first.
pub open spec fn is_staged(policy: StagingPolicy, from: ControlPilotState, plug: PlugState) -> bool {
    &&& from == ControlPilotState::A1
    &&& match plug {
        PlugState::PlugIn => true,
        PlugState::Lock => policy == StagingPolicy::PlugAndLock,
        _ => false,
    }
}

/// The contactor position after a power request: closed by a start or a
/// charge in progress, open after a stop, unchanged otherwise.
pub open spec fn power_target(request: PowerRequest, closed: bool) -> bool {
    match request {
        PowerRequest::Start => true,
        PowerRequest::Charging(_) => true,
        PowerRequest::Stop(_) => false,
        PowerRequest::Idle => closed,
    }
}

/// The status that stands for a contactor position.
pub open spec fn contactor_status(closed: bool) -> CsContactorStatusResponseStatus {
    if closed {
        CsContactorStatusResponseStatus::Closed
    } else {
        CsContactorStatusResponseStatus::Opened
    }
}

/// The update that reports `state` for the configured connector.
pub open spec fn cp_status_update(s: StationView, state: ControlPilotState) -> CpStatusUpdate {
    CpStatusUpdate {
        evse_id: s.evse_id(),
        connector_id: s.connector_id(),
        state,
        max_voltage: None,
        min_voltage: None,
        duty_cycle: None,
    }
}

/// The update that reports a contactor position for the configured EVSE.
pub open spec fn contactor_status_update(s: StationView, closed: bool) -> CsContactorStatusUpdate {
    CsContactorStatusUpdate { evse_id: s.evse_id(), status: contactor_status(closed), info: None }
}

/// The station after an event of the charge-control subsystem.
pub open spec fn after_charge_event(s: StationView, msg: ChargingMsg) -> StationView {
    match msg {
        ChargingMsg::Plugged(plug) => StationView { cp_state: plug_target(plug), ..s },
        ChargingMsg::Power(request) => StationView {
            contactor_closed: power_target(request, s.contactor_closed),
            ..s
        },
        _ => s,
    }
}

/// The updates that a plug signal publishes: none under an override, the
/// intermediate `B1` and then the target where the transition is staged, the
/// target alone otherwise.
pub open spec fn plug_updates(s: StationView, plug: PlugState) -> Seq<Update> {
    if s.forced_cp_state is Some {
        Seq::empty()
    } else if is_staged(s.staging, s.cp_state, plug) {
        seq![
            Update::CpStatus(cp_status_update(s, ControlPilotState::B1)),
            Update::CpStatus(cp_status_update(s, plug_target(plug))),
        ]
    } else {
        seq![Update::CpStatus(cp_status_update(s, plug_target(plug)))]
    }
}

/// The updates that a power request publishes: none under an override, the
/// contactor position after the request otherwise.
pub open spec fn power_updates(s: StationView, request: PowerRequest) -> Seq<Update> {
    if s.forced_contactor_closed is Some {
        Seq::empty()
    } else {
        seq![
            Update::ContactorStatus(
                contactor_status_update(s, power_target(request, s.contactor_closed)),
            ),
        ]
    }
}

/// The updates that an event of the charge-control subsystem publishes.
pub open spec fn charge_event_updates(s: StationView, msg: ChargingMsg) -> Seq<Update> {
    match msg {
        ChargingMsg::Plugged(plug) => plug_updates(s, plug),
        ChargingMsg::Power(request) => power_updates(s, request),
        _ => Seq::empty(),
    }
}

/// The status that stands for a contactor position.
pub fn contactor_status_of(closed: bool) -> (status: CsContactorStatusResponseStatus)
    ensures
        status == contactor_status(closed),
{
    if closed {
        CsContactorStatusResponseStatus::Closed
    } else {
        CsContactorStatusResponseStatus::Opened
    }
}

/// The control-pilot state that a plug signal leads to.
pub fn plug_target_of(plug: PlugState) -> (state: ControlPilotState)
    ensures
        state == plug_target(plug),
{
    match plug {
        PlugState::PlugIn => ControlPilotState::B2,
        PlugState::Lock => ControlPilotState::C2,
        _ => ControlPilotState::A1,
    }
}

/// The contactor position after a power request.
pub fn power_target_of(request: PowerRequest, closed: bool) -> (after: bool)
    ensures
        after == power_target(request, closed),
{
    match request {
        PowerRequest::Start => true,
        PowerRequest::Charging(_) => true,
        PowerRequest::Stop(_) => false,
        PowerRequest::Idle => closed,
    }
}

impl StationContext {
    /// Whether a plug signal received now passes through `B1` first.
    pub fn stages(&self, plug: PlugState) -> (staged: bool)
        ensures
            staged == is_staged(self@.staging, self@.cp_state, plug),
    {
        match self.cp_state {
            ControlPilotState::A1 => match plug {
                PlugState::PlugIn => true,
                PlugState::Lock => match self.staging {
                    StagingPolicy::PlugAndLock => true,
                    StagingPolicy::PlugOnly => false,
                },
                _ => false,
            },
            _ => false,
        }
    }

    /// The update that reports `state` for the configured connector.
    pub fn cp_status_update(&self, state: ControlPilotState) -> (update: CpStatusUpdate)
        ensures
            update == cp_status_update(self@, state),
    {
        CpStatusUpdate {
            evse_id: self.evse_id().clone(),
            connector_id: self.connector_id(),
            state,
            max_voltage: None,
            min_voltage: None,
            duty_cycle: None,
        }
    }

    /// The update that reports a contactor position for the configured EVSE.
    pub fn contactor_status_update(&self, closed: bool) -> (update: CsContactorStatusUpdate)
        ensures
            update == contactor_status_update(self@, closed),
    {
        CsContactorStatusUpdate {
            evse_id: self.evse_id().clone(),
            status: contactor_status_of(closed),
            info: None,
        }
    }

    /// Applies an event of the charge-control subsystem and returns the
    /// updates to publish, in order.
    pub fn on_charge_event(&mut self, msg: &ChargingMsg) -> (updates: Vec<Update>)
        ensures
            final(self)@ == after_charge_event(old(self)@, *msg),
            updates@ == charge_event_updates(old(self)@, *msg),
    {
        proof {
            use_type_invariant(&*self);
        }
        let mut updates: Vec<Update> = Vec::new();
        match *msg {
            ChargingMsg::Plugged(plug) => {
                let staged = self.stages(plug);
                let target = plug_target_of(plug);
                self.cp_state = target;
                if self.forced_cp_state.is_none() {
                    if staged {
                        let intermediate = self.cp_status_update(ControlPilotState::B1);
                        updates.push(Update::CpStatus(intermediate));
                    }
                    let reached = self.cp_status_update(target);
                    updates.push(Update::CpStatus(reached));
                }
            },
            ChargingMsg::Power(request) => {
                let closed = power_target_of(request, self.contactor_closed);
                self.contactor_closed = closed;
                if self.forced_contactor_closed.is_none() {
                    let position = self.contactor_status_update(closed);
                    updates.push(Update::ContactorStatus(position));
                }
            },
            _ => {},
        }
        updates
    }
}

} // verus!
