//! The vocabulary of the collaborating subsystems: charge control, access
//! control and the energy meter.
//!
//! Each type holds what the coordinator reads of the subsystem's own message.

use vstd::prelude::*;

verus! {

/// What the charge-control subsystem reports of the plug.
#[derive(Debug, Clone, Copy, PartialEq, Eq, Hash, Structural)]
pub enum PlugState {
    PlugIn,
    Lock,
    Error,
    PlugOut,
    Unknown,
}

/// What the charge-control subsystem reports of the vehicle's power request.
#[derive(Debug, Clone, Copy, PartialEq, Eq, Hash, Structural)]
pub enum PowerRequest {
    Start,
    Charging(u32),
    Idle,
    Stop(i32),
}

/// The canonical payment options.
#[derive(Debug, Clone, Copy, PartialEq, Eq, Hash, Structural)]
pub enum PaymentOption {
    Eim,
    Pnc,
}

/// An event of the charge-control subsystem.
#[derive(Debug, Clone, Copy, PartialEq, Eq, Hash, Structural)]
pub enum ChargingMsg {
    Plugged(PlugState),
    Power(PowerRequest),
    Payment(PaymentOption),
    /// Any other event; the coordinator does not react to it.
    Other,
}

/// How far the access-control subsystem has come with a login.
#[derive(Debug, Clone, Copy, PartialEq, Eq, Hash, Structural)]
pub enum AuthMsg {
    Done,
    Fail,
    Pending,
    Idle,
}

/// The access-control subsystem's reply to a login.
#[derive(Debug, Clone, PartialEq)]
pub struct AuthState {
    pub auth: AuthMsg,
    pub tagid: String,
    pub ocpp_check: bool,
}

/// The matching status in the charge-control subsystem's own vocabulary.
#[derive(Debug, Clone, Copy, PartialEq, Eq, Hash, Structural)]
pub enum SlacStatus {
    Matched,
    Matching,
    Unmatched,
    Timeout,
}

/// One reading of the energy meter, in raw integer units.
#[derive(Debug, Clone, Copy, PartialEq, Eq, Hash, Structural)]
pub struct MeterDataSet {
    pub l1: i32,
    pub l2: i32,
    pub l3: i32,
    pub total: i32,
}

/// The readings that the meter subsystem offers.
#[derive(Debug, Clone, Copy, PartialEq, Eq, Hash, Structural)]
pub enum MeterChannel {
    Tension,
    Current,
    Energy,
}

} // verus!
