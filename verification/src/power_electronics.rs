//! The power-electronics setpoint: a best-effort application of the requested
//! voltage and current to the electrical status of the station.

use vstd::prelude::*;
use crate::context::{StationContext, StationView};
use crate::messages::{
    CsStatusAndLimitsDc, CsStatusAndLimitsEvse, PowerElectronicsSetpointRequest,
    PowerElectronicsSetpointResponse, SetPointRequestStatus,
};
use crate::quantity::Quantity;
use crate::text::str_eq;

verus! {

/// The DC status after a setpoint: the present voltage is the requested one,
/// and so is the present current where the setpoint gives a charge current.
pub open spec fn dc_after_setpoint(
    dc: CsStatusAndLimitsDc,
    voltage: Quantity,
    charge_current: Option<Quantity>,
) -> CsStatusAndLimitsDc {
    CsStatusAndLimitsDc {
        present_voltage: voltage,
        present_current: match charge_current {
            Some(current) => current,
            None => dc.present_current,
        },
        ..dc
    }
}

/// One entry of the electrical status after a setpoint for `evse_id`: the DC
/// status of an entry of that EVSE follows the setpoint, any other entry
/// stays as it is.
pub open spec fn entry_after_setpoint(
    entry: CsStatusAndLimitsEvse,
    evse_id: Seq<char>,
    voltage: Quantity,
    charge_current: Option<Quantity>,
) -> CsStatusAndLimitsEvse {
    match entry.dc {
        Some(dc) => if entry.evse_id@ == evse_id {
            CsStatusAndLimitsEvse {
                dc: Some(dc_after_setpoint(dc, voltage, charge_current)),
                ..entry
            }
        } else {
            entry
        },
        None => entry,
    }
}

/// The electrical status after a setpoint request.
pub open spec fn status_after_setpoint(
    status: Seq<CsStatusAndLimitsEvse>,
    request: PowerElectronicsSetpointRequest,
) -> Seq<CsStatusAndLimitsEvse> {
    match request.dc {
        Some(setpoint) => Seq::new(
            status.len(),
            |i: int|
                entry_after_setpoint(
                    status[i],
                    request.evse_id@,
                    setpoint.voltage,
                    setpoint.charge_current,
                ),
        ),
        None => status,
    }
}

/// The station after a setpoint request: one for the configured EVSE is
/// applied to the electrical status, one for another EVSE changes nothing.
pub open spec fn after_setpoint(s: StationView, request: PowerElectronicsSetpointRequest) -> StationView {
    if s.serves(request.evse_id@) {
        StationView {
            status_and_limits: status_after_setpoint(s.status_and_limits, request),
            ..s
        }
    } else {
        s
    }
}

/// The reply to a setpoint request: accepted, or nothing for another EVSE.
pub open spec fn setpoint_reply(s: StationView, request: PowerElectronicsSetpointRequest) -> Option<
    PowerElectronicsSetpointResponse,
> {
    if s.serves(request.evse_id@) {
        Some(
            PowerElectronicsSetpointResponse {
                evse_id: request.evse_id,
                status: SetPointRequestStatus::Accepted,
            },
        )
    } else {
        None
    }
}

impl StationContext {
    /// Applies a DC setpoint to every entry of the electrical status that
    /// belongs to `evse_id`.
    fn apply_dc_setpoint(&mut self, evse_id: &str, voltage: Quantity, charge_current: Option<Quantity>)
        ensures
            final(self)@ == (StationView {
                status_and_limits: Seq::new(
                    old(self)@.status_and_limits.len(),
                    |i: int|
                        entry_after_setpoint(
                            old(self)@.status_and_limits[i],
                            evse_id@,
                            voltage,
                            charge_current,
                        ),
                ),
                ..old(self)@
            }),
    {
        proof {
            use_type_invariant(&*self);
        }
        let ghost before = self@;
        let count = self.status_and_limits.evses.len();
        let mut i: usize = 0;
        while i < count
            invariant
                i <= count,
                before.wf(),
                count == before.status_and_limits.len(),
                self.status_and_limits.evses@.len() == count,
                self@ == (StationView { status_and_limits: self@.status_and_limits, ..before }),
                forall|j: int|
                    0 <= j < i ==> self@.status_and_limits[j] == entry_after_setpoint(
                        before.status_and_limits[j],
                        evse_id@,
                        voltage,
                        charge_current,
                    ),
                forall|j: int|
                    i <= j < count ==> self@.status_and_limits[j] == before.status_and_limits[j],
            decreases count - i,
        {
            let own = str_eq(self.status_and_limits.evses[i].evse_id.as_str(), evse_id);
            if own {
                match &mut self.status_and_limits.evses[i].dc {
                    Some(dc) => {
                        dc.present_voltage = voltage;
                        if let Some(current) = charge_current {
                            dc.present_current = current;
                        }
                    },
                    None => {},
                }
            }
            i += 1;
        }
        proof {
            assert(self@.status_and_limits =~= Seq::new(
                before.status_and_limits.len(),
                |i: int|
                    entry_after_setpoint(
                        before.status_and_limits[i],
                        evse_id@,
                        voltage,
                        charge_current,
                    ),
            ));
        }
    }

    /// Handles a power-electronics setpoint.
    pub fn on_power_electronics_setpoint(&mut self, request: &PowerElectronicsSetpointRequest) -> (reply:
        Option<PowerElectronicsSetpointResponse>)
        ensures
            final(self)@ == after_setpoint(old(self)@, *request),
            reply == setpoint_reply(old(self)@, *request),
    {
        if !self.serves(request.evse_id.as_str()) {
            return None;
        }
        match &request.dc {
            Some(setpoint) => {
                self.apply_dc_setpoint(
                    request.evse_id.as_str(),
                    setpoint.voltage,
                    setpoint.charge_current,
                );
            },
            None => {},
        }
        Some(
            PowerElectronicsSetpointResponse {
                evse_id: request.evse_id.clone(),
                status: SetPointRequestStatus::Accepted,
            },
        )
    }
}

} // verus!
