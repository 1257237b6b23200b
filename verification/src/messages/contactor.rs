//! Contactor messages.

use vstd::prelude::*;

verus! {

#[derive(Debug, Clone, PartialEq)]
pub struct CsContactorStatusRequest {
    pub evse_id: String,
}

/// The position of the contactor.
#[derive(Debug, Clone, Copy, PartialEq, Eq, Hash, Structural)]
pub enum CsContactorStatusResponseStatus {
    Closed,
    Opened,
    Error,
}

#[derive(Debug, Clone, PartialEq)]
pub struct CsContactorStatusResponse {
    pub evse_id: String,
    pub status: CsContactorStatusResponseStatus,
    pub info: Option<String>,
}

/// Published whenever the contactor position is (re)asserted.
#[derive(Debug, Clone, PartialEq)]
pub struct CsContactorStatusUpdate {
    pub evse_id: String,
    pub status: CsContactorStatusResponseStatus,
    pub info: Option<String>,
}

} // verus!
