//! The request dispatcher: the queries and commands that the session manager
//! sends to the station.
//!
//! A request that names another EVSE than the configured one is dropped: it
//! is not answered and changes nothing.

use vstd::prelude::*;
use crate::context::{StationContext, StationView};
use crate::effects::{Command, Pending, Step, StepView};
use crate::machine::{contactor_status, contactor_status_of};
use crate::text::text_view;
use crate::messages::{
    CableCheckRequest, CableCheckResponse, CableCheckStatus, CpPwmRequest, CpPwmResponse,
    CpPwmResponseStatus, CsContactorStatusRequest, CsContactorStatusResponse,
    CsParametersResponse, CsStatusAndLimitsResponse, DeviceModelResponse, IsolationLevel,
    StopChargingRequest,
};

verus! {

/// The classes of updates that the station publishes.
#[derive(Debug, Clone, Copy, PartialEq, Eq, Hash, Structural)]
pub enum UpdateClass {
    CpStatus,
    Authorization,
    ContactorStatus,
}

/// The classes that a subscriber is registered for: all of them.
pub open spec fn subscribed_classes() -> Seq<UpdateClass> {
    seq![UpdateClass::CpStatus, UpdateClass::Authorization, UpdateClass::ContactorStatus]
}

/// The reply to a contactor-status query: the reported position of the
/// contactor, or nothing for another EVSE.
pub open spec fn contactor_status_reply(
    s: StationView,
    request: CsContactorStatusRequest,
) -> Option<CsContactorStatusResponse> {
    if s.serves(request.evse_id@) {
        Some(
            CsContactorStatusResponse {
                evse_id: request.evse_id,
                status: contactor_status(s.reported_contactor_closed()),
                info: None,
            },
        )
    } else {
        None
    }
}

/// Whether a query for the electrical status and limits is served: one that
/// names no EVSE is, and one that names the configured EVSE.
pub open spec fn status_query_served(s: StationView, evse_id: Option<Seq<char>>) -> bool {
    match evse_id {
        Some(evse_id) => s.serves(evse_id),
        None => true,
    }
}

/// The reply to a cable check: finished with a valid isolation, or nothing
/// for another EVSE.
pub open spec fn cable_check_reply(s: StationView, request: CableCheckRequest) -> Option<
    CableCheckResponse,
> {
    if s.serves(request.evse_id@) {
        Some(
            CableCheckResponse {
                evse_id: request.evse_id,
                cable_check_status: CableCheckStatus::Finished,
                isolation_level: Some(IsolationLevel::Valid),
            },
        )
    } else {
        None
    }
}

/// The reply to a PWM validity check: valid, or nothing for another EVSE.
pub open spec fn cp_pwm_reply(s: StationView, request: CpPwmRequest) -> Option<CpPwmResponse> {
    if s.serves(request.evse_id@) {
        Some(
            CpPwmResponse {
                evse_id: request.evse_id,
                status: CpPwmResponseStatus::Valid,
                info: None,
            },
        )
    } else {
        None
    }
}

/// What a stop-charging request asks for: the open-contactor command, after
/// which the request is answered.
pub open spec fn stop_charging_step(s: StationView, request: StopChargingRequest) -> StepView {
    if s.serves(request.evse_id@) {
        StepView::perform(
            Command::RemotePower(false),
            Pending::PowerForStop { evse_id: request.evse_id },
        )
    } else {
        StepView::idle()
    }
}

impl StationContext {
    /// The classes of updates that a subscriber is registered for.
    pub fn on_subscribe(&self) -> (classes: Vec<UpdateClass>)
        ensures
            classes@ == subscribed_classes(),
    {
        let mut classes: Vec<UpdateClass> = Vec::new();
        classes.push(UpdateClass::CpStatus);
        classes.push(UpdateClass::Authorization);
        classes.push(UpdateClass::ContactorStatus);
        classes
    }

    /// Answers a contactor-status query.
    pub fn on_contactor_status(&self, request: &CsContactorStatusRequest) -> (reply: Option<
        CsContactorStatusResponse,
    >)
        ensures
            reply == contactor_status_reply(self@, *request),
    {
        if !self.serves(request.evse_id.as_str()) {
            return None;
        }
        Some(
            CsContactorStatusResponse {
                evse_id: request.evse_id.clone(),
                status: contactor_status_of(self.reported_contactor_closed()),
                info: None,
            },
        )
    }

    /// Answers a query for the electrical status and limits with the whole
    /// record, or with nothing where the query names another EVSE.
    pub fn on_status_and_limits(&self, evse_id: Option<&str>) -> (reply: Option<
        &CsStatusAndLimitsResponse,
    >)
        ensures
            reply is Some <==> status_query_served(self@, text_view(evse_id)),
            reply matches Some(record) ==> record.evses@ == self@.status_and_limits,
    {
        let served = match evse_id {
            Some(evse_id) => self.serves(evse_id),
            None => true,
        };
        if served {
            Some(&self.status_and_limits)
        } else {
            None
        }
    }

    /// Answers a query for the static parameters.
    pub fn on_cs_parameters(&self) -> (reply: &CsParametersResponse)
        ensures
            *reply == self@.station_parameters,
    {
        &self.station_parameters
    }

    /// Answers a query for the device model, where one is configured.
    pub fn on_device_model(&self) -> (reply: Option<&DeviceModelResponse>)
        ensures
            match reply {
                Some(model) => self@.device_model == Some(*model),
                None => self@.device_model is None,
            },
    {
        self.device_model.as_ref()
    }

    /// Answers a cable check.
    pub fn on_cable_check(&self, request: &CableCheckRequest) -> (reply: Option<
        CableCheckResponse,
    >)
        ensures
            reply == cable_check_reply(self@, *request),
    {
        if !self.serves(request.evse_id.as_str()) {
            return None;
        }
        Some(
            CableCheckResponse {
                evse_id: request.evse_id.clone(),
                cable_check_status: CableCheckStatus::Finished,
                isolation_level: Some(IsolationLevel::Valid),
            },
        )
    }

    /// Answers a PWM validity check.
    pub fn on_cp_pwm(&self, request: &CpPwmRequest) -> (reply: Option<CpPwmResponse>)
        ensures
            reply == cp_pwm_reply(self@, *request),
    {
        if !self.serves(request.evse_id.as_str()) {
            return None;
        }
        Some(
            CpPwmResponse {
                evse_id: request.evse_id.clone(),
                status: CpPwmResponseStatus::Valid,
                info: None,
            },
        )
    }

    /// Handles a stop-charging request.
    pub fn on_stop_charging(&self, request: &StopChargingRequest) -> (step: Step)
        ensures
            step@ == stop_charging_step(self@, *request),
    {
        if self.serves(request.evse_id.as_str()) {
            Step::perform(
                Command::RemotePower(false),
                Pending::PowerForStop { evse_id: request.evse_id.clone() },
            )
        } else {
            Step::idle()
        }
    }
}

} // verus!
