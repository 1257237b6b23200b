//! The authorization coordinator: what the station does with the
//! notifications that the session manager sends over the bus.
//!
//! Every notification names an EVSE. One that names another EVSE than the
//! configured one is dropped: it changes nothing and asks for nothing.

use vstd::prelude::*;
use crate::context::{StationContext, StationView};
use crate::effects::{Command, HandlerError, Pending, Step, StepView, Update};
use crate::messages::{
    AuthorizationRequest, AuthorizationStatus, AuthorizationTokenType, AuthorizationUpdate,
    SlacStatusUpdate, SlacStatusUpdateStatus,
};
use crate::subsystems::{AuthMsg, AuthState, PaymentOption, SlacStatus};
use crate::text::str_eq;

verus! {

/// A session-status notification, as far as the coordinator reads it.
#[derive(Debug, Clone, PartialEq)]
pub struct SessionStatusNotification {
    pub evse_id: Option<String>,
    pub session_status: Option<String>,
    /// The payment option that the vehicle selected, as the session manager
    /// spells it.
    pub selected_payment_option: Option<String>,
}

/// A high-level-charging status notification.
#[derive(Debug, Clone, PartialEq)]
pub struct HlcChargingNotification {
    pub evse_id: Option<String>,
    /// Whether power is requested.
    pub status: Option<bool>,
}

/// A transaction-status notification.
#[derive(Debug, Clone, PartialEq)]
pub struct TransactionStatusNotification {
    pub evse_id: Option<String>,
    pub status: Option<String>,
}

/// The lowercase form of a text, as `str::to_lowercase` computes it.
pub uninterp spec fn lowercase(text: Seq<char>) -> Seq<char>;

/// `str::to_lowercase`: the result is the lowercase form of the text, a
/// function of the text alone.
#[verifier::external_body]
fn to_lowercase(text: &str) -> (lower: String)
    ensures
        lower@ == lowercase(text@),
{
    text.to_lowercase()
}

/// The payment option that a lowercase name stands for.
pub open spec fn payment_option_named(lower: Seq<char>) -> Option<PaymentOption> {
    if lower == "eim"@ {
        Some(PaymentOption::Eim)
    } else if lower == "pnc"@ {
        Some(PaymentOption::Pnc)
    } else {
        None
    }
}

/// The payment option that a lowercase name stands for: `eim` and `pnc` are
/// recognized, nothing else is.
pub fn payment_option_from_lowercase(lower: &str) -> (option: Option<PaymentOption>)
    ensures
        option == payment_option_named(lower@),
{
    if str_eq(lower, "eim") {
        Some(PaymentOption::Eim)
    } else if str_eq(lower, "pnc") {
        Some(PaymentOption::Pnc)
    } else {
        None
    }
}

/// The payment option that a name stands for, whatever its case.
pub fn parse_payment_option(name: &str) -> (option: Option<PaymentOption>)
    ensures
        option == payment_option_named(lowercase(name@)),
{
    let lower = to_lowercase(name);
    payment_option_from_lowercase(lower.as_str())
}

/// The matching status of the charge-control subsystem that stands for one of
/// the session manager: a failed matching counts as unmatched, basic charging
/// as a timeout.
pub open spec fn slac_status_for(status: SlacStatusUpdateStatus) -> SlacStatus {
    match status {
        SlacStatusUpdateStatus::Unmatched => SlacStatus::Unmatched,
        SlacStatusUpdateStatus::Matched => SlacStatus::Matched,
        SlacStatusUpdateStatus::Matching => SlacStatus::Matching,
        SlacStatusUpdateStatus::Failed => SlacStatus::Unmatched,
        SlacStatusUpdateStatus::BasicCharging => SlacStatus::Timeout,
    }
}

/// Translates a matching status into the charge-control subsystem's
/// vocabulary.
pub fn translate_slac_status(status: SlacStatusUpdateStatus) -> (translated: SlacStatus)
    ensures
        translated == slac_status_for(status),
{
    match status {
        SlacStatusUpdateStatus::Unmatched => SlacStatus::Unmatched,
        SlacStatusUpdateStatus::Matched => SlacStatus::Matched,
        SlacStatusUpdateStatus::Matching => SlacStatus::Matching,
        SlacStatusUpdateStatus::Failed => SlacStatus::Unmatched,
        SlacStatusUpdateStatus::BasicCharging => SlacStatus::Timeout,
    }
}

/// A handler's result with the step taken as a mathematical value.
pub open spec fn result_view(result: Result<Step, HandlerError>) -> Result<StepView, HandlerError> {
    match result {
        Ok(step) => Ok(step@),
        Err(error) => Err(error),
    }
}

/// What an authorization asks for first: the payment option where one was
/// selected, the login otherwise. A selected option that is not recognized
/// fails the handler with an error that names it.
pub open spec fn authorization_step(
    evse_id: String,
    selected_payment_option: Option<String>,
) -> Result<StepView, HandlerError> {
    match selected_payment_option {
        None => Ok(StepView::perform(Command::Login, Pending::Login { evse_id })),
        Some(name) => match payment_option_named(lowercase(name@)) {
            None => Err(HandlerError::InvalidPaymentOption(name)),
            Some(option) => Ok(
                StepView::perform(
                    Command::PaymentOption(option),
                    Pending::PaymentOption { evse_id },
                ),
            ),
        },
    }
}

/// What a session-status notification asks for.
pub open spec fn session_status_step(
    s: StationView,
    n: SessionStatusNotification,
) -> Result<StepView, HandlerError> {
    match n.evse_id {
        None => Err(HandlerError::MissingEvseId),
        Some(evse_id) => if !s.serves(evse_id@) {
            Ok(StepView::idle())
        } else {
            match n.session_status {
                None => Ok(StepView::idle()),
                Some(status) => if status@ == "Authorization"@ {
                    authorization_step(evse_id, n.selected_payment_option)
                } else if status@ == "SessionStop"@ {
                    Ok(StepView::perform(Command::RemotePower(false), Pending::Last))
                } else {
                    Ok(StepView::idle())
                },
            }
        },
    }
}

/// What a login reply asks for: nothing unless the login is done; then the
/// relay is asked where the access-control subsystem wants the token
/// checked, and the authorization is accepted locally otherwise.
pub open spec fn login_step(evse_id: String, state: AuthState) -> StepView {
    if state.auth == AuthMsg::Done {
        if state.ocpp_check {
            StepView::perform(
                Command::ForwardAuthorization(
                    AuthorizationRequest {
                        evse_id: Some(evse_id),
                        id_token: Some(state.tagid),
                        token_type: AuthorizationTokenType::ISO14443,
                    },
                ),
                Pending::Last,
            )
        } else {
            StepView::publish(
                seq![
                    Update::Authorization(
                        AuthorizationUpdate {
                            evse_id,
                            id_token: Some(state.tagid),
                            token_type: AuthorizationTokenType::ISO14443,
                            status: AuthorizationStatus::Accepted,
                        },
                    ),
                ],
            )
        }
    } else {
        StepView::idle()
    }
}

/// What a high-level-charging status notification asks for: the contactor
/// command that reflects the requested power state.
pub open spec fn hlc_charging_step(s: StationView, n: HlcChargingNotification) -> StepView {
    match (n.evse_id, n.status) {
        (Some(evse_id), Some(status)) => if s.serves(evse_id@) {
            StepView::perform(Command::RemotePower(status), Pending::PowerForHlc)
        } else {
            StepView::idle()
        },
        _ => StepView::idle(),
    }
}

/// What a transaction-status notification asks for: the open-contactor
/// command once the transaction has ended.
pub open spec fn transaction_status_step(
    s: StationView,
    n: TransactionStatusNotification,
) -> StepView {
    match (n.evse_id, n.status) {
        (Some(evse_id), Some(status)) => if s.serves(evse_id@) && status@ == "ended"@ {
            StepView::perform(Command::RemotePower(false), Pending::Last)
        } else {
            StepView::idle()
        },
        _ => StepView::idle(),
    }
}

/// What a matching-status notification asks for: the translated status is
/// forwarded to the charge-control subsystem.
pub open spec fn slac_status_step(s: StationView, n: SlacStatusUpdate) -> StepView {
    if s.serves(n.evse_id@) {
        StepView::perform(Command::SetSlacStatus(slac_status_for(n.status)), Pending::Last)
    } else {
        StepView::idle()
    }
}

/// Starts an authorization for `evse_id`.
pub fn begin_authorization(evse_id: String, selected_payment_option: &Option<String>) -> (result:
    Result<Step, HandlerError>)
    ensures
        result_view(result) == authorization_step(evse_id, *selected_payment_option),
{
    match selected_payment_option {
        None => Ok(Step::perform(Command::Login, Pending::Login { evse_id })),
        Some(name) => match parse_payment_option(name.as_str()) {
            None => Err(HandlerError::InvalidPaymentOption(name.clone())),
            Some(option) => Ok(
                Step::perform(Command::PaymentOption(option), Pending::PaymentOption { evse_id }),
            ),
        },
    }
}

/// Resolves an authorization from the reply to its login.
pub fn resolve_login(evse_id: String, state: AuthState) -> (step: Step)
    ensures
        step@ == login_step(evse_id, state),
{
    match state.auth {
        AuthMsg::Done => {
            if state.ocpp_check {
                Step::perform(
                    Command::ForwardAuthorization(
                        AuthorizationRequest {
                            evse_id: Some(evse_id),
                            id_token: Some(state.tagid),
                            token_type: AuthorizationTokenType::ISO14443,
                        },
                    ),
                    Pending::Last,
                )
            } else {
                let mut updates: Vec<Update> = Vec::new();
                updates.push(
                    Update::Authorization(
                        AuthorizationUpdate {
                            evse_id,
                            id_token: Some(state.tagid),
                            token_type: AuthorizationTokenType::ISO14443,
                            status: AuthorizationStatus::Accepted,
                        },
                    ),
                );
                Step::publish(updates)
            }
        },
        _ => Step::idle(),
    }
}

impl StationContext {
    /// Handles a session-status notification.
    pub fn on_session_status(&self, n: &SessionStatusNotification) -> (result: Result<
        Step,
        HandlerError,
    >)
        ensures
            result_view(result) == session_status_step(self@, *n),
    {
        match &n.evse_id {
            None => Err(HandlerError::MissingEvseId),
            Some(evse_id) => {
                if !self.serves(evse_id.as_str()) {
                    return Ok(Step::idle());
                }
                match &n.session_status {
                    None => Ok(Step::idle()),
                    Some(status) => {
                        if str_eq(status.as_str(), "Authorization") {
                            begin_authorization(evse_id.clone(), &n.selected_payment_option)
                        } else if str_eq(status.as_str(), "SessionStop") {
                            Ok(Step::perform(Command::RemotePower(false), Pending::Last))
                        } else {
                            Ok(Step::idle())
                        }
                    },
                }
            },
        }
    }

    /// Handles a high-level-charging status notification.
    pub fn on_hlc_charging(&self, n: &HlcChargingNotification) -> (step: Step)
        ensures
            step@ == hlc_charging_step(self@, *n),
    {
        match (&n.evse_id, n.status) {
            (Some(evse_id), Some(status)) => {
                if self.serves(evse_id.as_str()) {
                    Step::perform(Command::RemotePower(status), Pending::PowerForHlc)
                } else {
                    Step::idle()
                }
            },
            _ => Step::idle(),
        }
    }

    /// Handles a transaction-status notification.
    pub fn on_transaction_status(&self, n: &TransactionStatusNotification) -> (step: Step)
        ensures
            step@ == transaction_status_step(self@, *n),
    {
        match (&n.evse_id, &n.status) {
            (Some(evse_id), Some(status)) => {
                if self.serves(evse_id.as_str()) && str_eq(status.as_str(), "ended") {
                    Step::perform(Command::RemotePower(false), Pending::Last)
                } else {
                    Step::idle()
                }
            },
            _ => Step::idle(),
        }
    }

    /// Handles a matching-status notification.
    pub fn on_slac_status(&self, n: &SlacStatusUpdate) -> (step: Step)
        ensures
            step@ == slac_status_step(self@, *n),
    {
        if self.serves(n.evse_id.as_str()) {
            Step::perform(Command::SetSlacStatus(translate_slac_status(n.status)), Pending::Last)
        } else {
            Step::idle()
        }
    }
}

} // verus!
