//! The debug overrides of the control-pilot state and the contactor position.
//!
//! An override is layered on top of the computed value: it decides what
//! replies and updates report, while the computed value keeps following the
//! signals underneath and shows again once the override is cleared.

use vstd::prelude::*;
use crate::context::{StationContext, StationView};
use crate::effects::Update;
use crate::machine::{contactor_status_update, cp_status_update};
use crate::messages::ControlPilotState;
use crate::text::{str_eq, text_view};

verus! {

/// The control-pilot state that a name stands for.
pub open spec fn cp_state_named(name: Seq<char>) -> Option<ControlPilotState> {
    if name == "A1"@ {
        Some(ControlPilotState::A1)
    } else if name == "A2"@ {
        Some(ControlPilotState::A2)
    } else if name == "B1"@ {
        Some(ControlPilotState::B1)
    } else if name == "B2"@ {
        Some(ControlPilotState::B2)
    } else if name == "C1"@ {
        Some(ControlPilotState::C1)
    } else if name == "C2"@ {
        Some(ControlPilotState::C2)
    } else if name == "D1"@ {
        Some(ControlPilotState::D1)
    } else if name == "D2"@ {
        Some(ControlPilotState::D2)
    } else if name == "E"@ {
        Some(ControlPilotState::E)
    } else if name == "F"@ {
        Some(ControlPilotState::F)
    } else {
        None
    }
}

/// The control-pilot override after a request that names `cp`: the named
/// state where the name is one, the override as it was otherwise.
pub open spec fn forced_cp_after(
    forced: Option<ControlPilotState>,
    cp: Option<Seq<char>>,
) -> Option<ControlPilotState> {
    match cp {
        Some(name) => match cp_state_named(name) {
            Some(state) => Some(state),
            None => forced,
        },
        None => forced,
    }
}

/// The station after a force request.
pub open spec fn after_force(s: StationView, cp: Option<Seq<char>>, closed: Option<bool>) -> StationView {
    StationView {
        forced_cp_state: forced_cp_after(s.forced_cp_state, cp),
        forced_contactor_closed: match closed {
            Some(position) => Some(position),
            None => s.forced_contactor_closed,
        },
        ..s
    }
}

/// The updates that a force request publishes: the forced control-pilot state
/// where the request names one and an override is set after it, then the
/// forced contactor position where the request gives one.
pub open spec fn force_updates(s: StationView, cp: Option<Seq<char>>, closed: Option<bool>) -> Seq<
    Update,
> {
    let cp_part = match (cp, forced_cp_after(s.forced_cp_state, cp)) {
        (Some(_), Some(state)) => seq![Update::CpStatus(cp_status_update(s, state))],
        _ => Seq::empty(),
    };
    let contactor_part = match closed {
        Some(position) => seq![Update::ContactorStatus(contactor_status_update(s, position))],
        None => Seq::empty(),
    };
    cp_part + contactor_part
}

/// The station after a clear request: the overrides that the request names
/// are gone, the computed values are as they were.
pub open spec fn after_clear(s: StationView, cp: bool, contactor: bool) -> StationView {
    StationView {
        forced_cp_state: if cp {
            None
        } else {
            s.forced_cp_state
        },
        forced_contactor_closed: if contactor {
            None
        } else {
            s.forced_contactor_closed
        },
        ..s
    }
}

/// The updates that a clear request publishes: the computed control-pilot
/// state where its override is cleared, then the computed contactor position
/// where its override is cleared.
pub open spec fn clear_updates(s: StationView, cp: bool, contactor: bool) -> Seq<Update> {
    let cp_part = if cp {
        seq![Update::CpStatus(cp_status_update(s, s.cp_state))]
    } else {
        Seq::empty()
    };
    let contactor_part = if contactor {
        seq![Update::ContactorStatus(contactor_status_update(s, s.contactor_closed))]
    } else {
        Seq::empty()
    };
    cp_part + contactor_part
}

/// The control-pilot state that a name stands for.
pub fn parse_cp_state(name: &str) -> (state: Option<ControlPilotState>)
    ensures
        state == cp_state_named(name@),
{
    if str_eq(name, "A1") {
        Some(ControlPilotState::A1)
    } else if str_eq(name, "A2") {
        Some(ControlPilotState::A2)
    } else if str_eq(name, "B1") {
        Some(ControlPilotState::B1)
    } else if str_eq(name, "B2") {
        Some(ControlPilotState::B2)
    } else if str_eq(name, "C1") {
        Some(ControlPilotState::C1)
    } else if str_eq(name, "C2") {
        Some(ControlPilotState::C2)
    } else if str_eq(name, "D1") {
        Some(ControlPilotState::D1)
    } else if str_eq(name, "D2") {
        Some(ControlPilotState::D2)
    } else if str_eq(name, "E") {
        Some(ControlPilotState::E)
    } else if str_eq(name, "F") {
        Some(ControlPilotState::F)
    } else {
        None
    }
}

impl StationContext {
    /// Sets the overrides that a force request gives and returns the updates
    /// that report them, in order.
    pub fn on_force_cp_state(&mut self, cp: Option<&str>, closed_contactor: Option<bool>) -> (updates:
        Vec<Update>)
        ensures
            final(self)@ == after_force(old(self)@, text_view(cp), closed_contactor),
            updates@ == force_updates(old(self)@, text_view(cp), closed_contactor),
    {
        proof {
            use_type_invariant(&*self);
        }
        let mut updates: Vec<Update> = Vec::new();
        if let Some(name) = cp {
            if let Some(state) = parse_cp_state(name) {
                self.forced_cp_state = Some(state);
            }
            if let Some(forced) = self.forced_cp_state {
                let update = self.cp_status_update(forced);
                updates.push(Update::CpStatus(update));
            }
        }
        if let Some(position) = closed_contactor {
            self.forced_contactor_closed = Some(position);
            let update = self.contactor_status_update(position);
            updates.push(Update::ContactorStatus(update));
        }
        proof {
            assert(updates@ =~= force_updates(old(self)@, text_view(cp), closed_contactor));
        }
        updates
    }

    /// Clears the overrides that a clear request names and returns the
    /// updates that report the computed values, in order.
    pub fn on_clear_cp_state(&mut self, cp: bool, closed_contactor: bool) -> (updates: Vec<Update>)
        ensures
            final(self)@ == after_clear(old(self)@, cp, closed_contactor),
            updates@ == clear_updates(old(self)@, cp, closed_contactor),
    {
        proof {
            use_type_invariant(&*self);
        }
        let mut updates: Vec<Update> = Vec::new();
        if cp {
            self.forced_cp_state = None;
            let update = self.cp_status_update(self.cp_state);
            updates.push(Update::CpStatus(update));
        }
        if closed_contactor {
            self.forced_contactor_closed = None;
            let update = self.contactor_status_update(self.contactor_closed);
            updates.push(Update::ContactorStatus(update));
        }
        proof {
            assert(updates@ =~= clear_updates(old(self)@, cp, closed_contactor));
        }
        updates
    }

    /// Clears the control-pilot override and republishes the computed state.
    pub fn clear_forced_cp_state(&mut self) -> (updates: Vec<Update>)
        ensures
            final(self)@ == after_clear(old(self)@, true, false),
            updates@ == clear_updates(old(self)@, true, false),
            updates@ == seq![Update::CpStatus(cp_status_update(old(self)@, old(self)@.cp_state))],
    {
        self.on_clear_cp_state(true, false)
    }

    /// Clears the contactor override and republishes the computed position.
    pub fn clear_forced_contactor(&mut self) -> (updates: Vec<Update>)
        ensures
            final(self)@ == after_clear(old(self)@, false, true),
            updates@ == clear_updates(old(self)@, false, true),
            updates@ == seq![
                Update::ContactorStatus(
                    contactor_status_update(old(self)@, old(self)@.contactor_closed),
                ),
            ],
    {
        self.on_clear_cp_state(false, true)
    }
}

} // verus!
