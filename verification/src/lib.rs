//! Coordination core of a charging-station controller for one EVSE connector.
//!
//! The crate keeps one [`context::StationContext`] per station and turns every
//! notification or request that reaches the station into a change of that
//! context plus the updates to publish, the reply to send and the command to
//! issue next. Nothing here performs I/O: the caller carries out what a
//! [`effects::Step`] asks for and hands the outcome back.
//!
//! * [`context`] holds the station context and builds it from its
//!   configuration.
//! * [`machine`] is the control-pilot and contactor state machine.
//! * [`throttle`] bounds how often meter samples are taken.
//! * [`authorization`] handles what the session manager sends over the bus.
//! * [`dispatcher`], [`overrides`], [`metering`] and [`power_electronics`]
//!   answer the session manager's requests.
//! * [`flow`] goes on with a handler once the outcome of its command is known.
//! * [`normalizer`] takes a notification from any source.
//! * [`routes`] names the APIs, verbs, topics and events.
//! * [`laws`] states what holds of all of this whatever it is fed.

pub mod quantity;
pub mod text;
pub mod messages;
pub mod subsystems;
pub mod effects;
pub mod context;
pub mod machine;
pub mod throttle;
pub mod authorization;
pub mod dispatcher;
pub mod overrides;
pub mod metering;
pub mod power_electronics;
pub mod flow;
pub mod routes;
pub mod normalizer;
pub mod laws;
