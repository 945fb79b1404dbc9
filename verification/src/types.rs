//! Core data model: the state tag, the transition event record, the unified
//! action envelope and the error kinds of the runtime.

use vstd::prelude::*;

use crate::awaiting_info::AwaitingInfoAction;
use crate::emv_payment::EmvPaymentAction;
use crate::payment_success::PaymentSuccessAction;

verus! {

/// Tag identifying which concrete state variant is currently active.
#[derive(Debug, Clone, Copy, PartialEq, Eq, Structural)]
pub enum StateType {
    AwaitingInfo,
    EMVPayment,
    PaymentSuccess,
}

impl StateType {
    /// The tag's name, as it is shown in messages and events.
    pub fn name(&self) -> (s: &'static str)
        ensures
            s@ == self.spec_name(),
    {
        proof {
            reveal_strlit("AwaitingInfo");
            reveal_strlit("EMVPayment");
            reveal_strlit("PaymentSuccess");
        }
        match self {
            StateType::AwaitingInfo => "AwaitingInfo",
            StateType::EMVPayment => "EMVPayment",
            StateType::PaymentSuccess => "PaymentSuccess",
        }
    }

    pub open spec fn spec_name(self) -> Seq<char> {
        match self {
            StateType::AwaitingInfo => "AwaitingInfo"@,
            StateType::EMVPayment => "EMVPayment"@,
            StateType::PaymentSuccess => "PaymentSuccess"@,
        }
    }
}

/// Immutable record of one committed transition, emitted exactly once per
/// state change.
#[derive(Debug, Clone)]
pub struct StateChangeEvent {
    pub from_state: StateType,
    pub to_state: StateType,
    pub timestamp: String,
}

/// The unified envelope of every action a caller can submit. Each state has
/// its own action kind; the envelope lets the runtime stay generic while the
/// router checks compatibility at dispatch time.
#[derive(Debug, Clone)]
pub enum StateAction {
    /// Actions of the `AwaitingInfo` state.
    AwaitingInfo(AwaitingInfoAction),
    /// Actions of the `EMVPayment` state.
    EmvPayment(EmvPaymentAction),
    /// Actions of the `PaymentSuccess` state.
    PaymentSuccess(PaymentSuccessAction),
}

/// The conceptual classes of failure the runtime distinguishes.
#[derive(Debug, Clone, Copy, PartialEq, Eq, Structural)]
pub enum ErrorKind {
    /// A state rejected an action's field values; the state is unchanged.
    Validation,
    /// Required prior data is missing, or the action is invalid for the
    /// current sub-state; the state is unchanged.
    Precondition,
    /// The submitted action does not belong to the active state; the expected
    /// rejection for the wrong action in the wrong state.
    Incompatible,
    /// The active tag has no entry in the dispatch table.
    Unregistered,
    /// The stored value's concrete kind disagrees with the router's
    /// expectation; an internal-invariant violation.
    Mismatch,
}

/// Every failure an `execute` call can return, each tied to the exact
/// condition that produces it.
#[derive(Debug, Clone, Copy, PartialEq, Eq, Structural)]
pub enum PaymentError {
    /// `SetAmount` with a non-positive amount.
    NonPositiveAmount,
    /// `ConfirmInfo` before any amount was set.
    AmountNotSet,
    /// `ConfirmInfo` before a payment type was chosen.
    PaymentTypeNotSet,
    /// `ProcessPayment` while processing already runs.
    AlreadyProcessing,
    /// `CompletePayment` before processing started.
    ProcessingNotStarted,
    /// The action's concrete kind does not match the active state.
    IncompatibleAction,
    /// No routing entry for the active tag.
    UnregisteredState,
    /// The stored value is not of the kind the router expects.
    StateTypeMismatch,
}

impl PaymentError {
    pub open spec fn spec_kind(self) -> ErrorKind {
        match self {
            PaymentError::NonPositiveAmount => ErrorKind::Validation,
            PaymentError::AmountNotSet => ErrorKind::Precondition,
            PaymentError::PaymentTypeNotSet => ErrorKind::Precondition,
            PaymentError::AlreadyProcessing => ErrorKind::Precondition,
            PaymentError::ProcessingNotStarted => ErrorKind::Precondition,
            PaymentError::IncompatibleAction => ErrorKind::Incompatible,
            PaymentError::UnregisteredState => ErrorKind::Unregistered,
            PaymentError::StateTypeMismatch => ErrorKind::Mismatch,
        }
    }

    /// The class this failure belongs to.
    pub fn kind(&self) -> (k: ErrorKind)
        ensures
            k == self.spec_kind(),
    {
        match self {
            PaymentError::NonPositiveAmount => ErrorKind::Validation,
            PaymentError::AmountNotSet => ErrorKind::Precondition,
            PaymentError::PaymentTypeNotSet => ErrorKind::Precondition,
            PaymentError::AlreadyProcessing => ErrorKind::Precondition,
            PaymentError::ProcessingNotStarted => ErrorKind::Precondition,
            PaymentError::IncompatibleAction => ErrorKind::Incompatible,
            PaymentError::UnregisteredState => ErrorKind::Unregistered,
            PaymentError::StateTypeMismatch => ErrorKind::Mismatch,
        }
    }

    pub open spec fn spec_message(self) -> Seq<char> {
        match self {
            PaymentError::NonPositiveAmount => "Valor deve ser maior que zero"@,
            PaymentError::AmountNotSet => "Valor não definido"@,
            PaymentError::PaymentTypeNotSet => "Tipo de pagamento não definido"@,
            PaymentError::AlreadyProcessing => "Pagamento já está sendo processado"@,
            PaymentError::ProcessingNotStarted => "Pagamento ainda não foi iniciado"@,
            PaymentError::IncompatibleAction => "Ação incompatível"@,
            PaymentError::UnregisteredState => "Estado não registrado"@,
            PaymentError::StateTypeMismatch => "Estado inválido"@,
        }
    }

    /// The human-readable message for this failure.
    pub fn message(&self) -> (s: &'static str)
        ensures
            s@ == self.spec_message(),
    {
        match self {
            PaymentError::NonPositiveAmount => "Valor deve ser maior que zero",
            PaymentError::AmountNotSet => "Valor não definido",
            PaymentError::PaymentTypeNotSet => "Tipo de pagamento não definido",
            PaymentError::AlreadyProcessing => "Pagamento já está sendo processado",
            PaymentError::ProcessingNotStarted => "Pagamento ainda não foi iniciado",
            PaymentError::IncompatibleAction => "Ação incompatível",
            PaymentError::UnregisteredState => "Estado não registrado",
            PaymentError::StateTypeMismatch => "Estado inválido",
        }
    }
}

} // verus!
