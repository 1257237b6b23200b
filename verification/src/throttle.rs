//! The throttle on meter samples.
//!
//! The meter sends samples as fast as it measures. A sample is accepted only
//! if at least the configured interval has passed since the last accepted
//! one, which bounds how often the station is updated.

use vstd::prelude::*;
use crate::context::{StationContext, StationView};

verus! {

/// Whether a sample taken at `at_ms` is accepted: the first one always is, a
/// later one if at least the configured interval lies between it and the last
/// accepted sample.
pub open spec fn sample_accepted(s: StationView, at_ms: u64) -> bool {
    match s.last_meter_sample_at {
        None => true,
        Some(last) => at_ms - last >= s.meter_interval_ms,
    }
}

/// The station after a sample taken at `at_ms`: an accepted sample becomes the
/// last accepted one, a dropped sample changes nothing.
pub open spec fn after_meter_sample(s: StationView, at_ms: u64) -> StationView {
    if sample_accepted(s, at_ms) {
        StationView { last_meter_sample_at: Some(at_ms), ..s }
    } else {
        s
    }
}

impl StationContext {
    /// Takes a meter sample that arrived at `at_ms` milliseconds and says
    /// whether it was accepted.
    pub fn on_meter_sample(&mut self, at_ms: u64) -> (accepted: bool)
        ensures
            accepted == sample_accepted(old(self)@, at_ms),
            final(self)@ == after_meter_sample(old(self)@, at_ms),
    {
        proof {
            use_type_invariant(&*self);
        }
        let accepted = match self.last_meter_sample_at {
            None => true,
            Some(last) => at_ms >= last && at_ms - last >= self.meter_interval_ms,
        };
        if accepted {
            self.last_meter_sample_at = Some(at_ms);
        }
        accepted
    }
}

} // verus!
