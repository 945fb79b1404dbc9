//! The initial state: collecting the amount and the payment type before a
//! payment may start.

use vstd::prelude::*;

use crate::emv_payment::EMVPayment;
use crate::state_trait::{PaymentState, StateValue, TransitionOutcome};
use crate::text::{money_string, spec_money};
use crate::types::{PaymentError, StateType};

verus! {

/// The payment type selected by the user.
#[derive(Debug, Clone, Copy, PartialEq, Eq, Structural)]
pub enum PaymentType {
    Debit,
    Credit,
}

impl PaymentType {
    pub open spec fn spec_name(self) -> Seq<char> {
        match self {
            PaymentType::Debit => "Debit"@,
            PaymentType::Credit => "Credit"@,
        }
    }

    /// The type's name as shown in descriptions.
    pub fn name(&self) -> (s: &'static str)
        ensures
            s@ == self.spec_name(),
    {
        proof {
            reveal_strlit("Debit");
            reveal_strlit("Credit");
        }
        match self {
            PaymentType::Debit => "Debit",
            PaymentType::Credit => "Credit",
        }
    }
}

/// The information a payment needs before it can start. Amounts are held in
/// cents, always strictly positive once validated.
#[derive(Debug, Clone, Copy, PartialEq, Eq, Structural)]
pub struct PaymentInfo {
    pub amount_cents: i64,
    pub payment_type: PaymentType,
}

/// Actions valid in the `AwaitingInfo` state.
#[derive(Debug, Clone, Copy, PartialEq, Eq, Structural)]
pub enum AwaitingInfoAction {
    SetAmount { amount_cents: i64 },
    SetPaymentType { payment_type: PaymentType },
    ConfirmInfo,
}

/// Initial state: waiting for the payment information.
#[derive(Debug, Clone, Copy, PartialEq, Eq, Structural)]
pub struct AwaitingInfo {
    pub amount_cents: Option<i64>,
    pub payment_type: Option<PaymentType>,
}

impl AwaitingInfo {
    /// The empty starting value: nothing set yet.
    pub fn initial() -> (s: Self)
        ensures
            s == (AwaitingInfo { amount_cents: None, payment_type: None }),
    {
        AwaitingInfo { amount_cents: None, payment_type: None }
    }

    /// A stored amount has always passed validation, so it is positive.
    pub open spec fn inv(self) -> bool {
        self.amount_cents matches Some(a) ==> a > 0
    }

    pub open spec fn describe(self) -> Seq<char> {
        match (self.amount_cents, self.payment_type) {
            (Some(a), Some(t)) => "Aguardando confirmação: R$ "@ + spec_money(a as nat) + " ("@
                + t.spec_name() + ")"@,
            _ => "Aguardando informações do pagamento"@,
        }
    }
}

impl PaymentState<AwaitingInfoAction> for AwaitingInfo {
    open spec fn spec_state_type(self) -> StateType {
        StateType::AwaitingInfo
    }

    open spec fn wf(self) -> bool {
        self.inv()
    }

    open spec fn spec_description(self) -> Seq<char> {
        self.describe()
    }

    open spec fn spec_step(self, action: AwaitingInfoAction) -> (Self, TransitionOutcome) {
        match action {
            AwaitingInfoAction::SetAmount { amount_cents } => {
                if amount_cents <= 0 {
                    (self, Err(PaymentError::NonPositiveAmount))
                } else {
                    (AwaitingInfo { amount_cents: Some(amount_cents), ..self }, Ok(None))
                }
            },
            AwaitingInfoAction::SetPaymentType { payment_type } => {
                (AwaitingInfo { payment_type: Some(payment_type), ..self }, Ok(None))
            },
            AwaitingInfoAction::ConfirmInfo => {
                match (self.amount_cents, self.payment_type) {
                    (None, _) => (self, Err(PaymentError::AmountNotSet)),
                    (_, None) => (self, Err(PaymentError::PaymentTypeNotSet)),
                    (Some(a), Some(t)) => {
                        let next = EMVPayment {
                            payment_info: PaymentInfo { amount_cents: a, payment_type: t },
                            processing: false,
                            emv_result: None,
                        };
                        (self, Ok(Some((StateType::EMVPayment, StateValue::EmvPayment(next)))))
                    },
                }
            },
        }
    }

    fn execute_action_with_transition(&mut self, action: AwaitingInfoAction) -> (r:
        TransitionOutcome)
    {
        match action {
            AwaitingInfoAction::SetAmount { amount_cents } => {
                if amount_cents <= 0 {
                    return Err(PaymentError::NonPositiveAmount);
                }
                self.amount_cents = Some(amount_cents);
                Ok(None)
            },
            AwaitingInfoAction::SetPaymentType { payment_type } => {
                self.payment_type = Some(payment_type);
                Ok(None)
            },
            AwaitingInfoAction::ConfirmInfo => {
                let a = match self.amount_cents {
                    Some(a) => a,
                    None => {
                        return Err(PaymentError::AmountNotSet);
                    },
                };
                let t = match self.payment_type {
                    Some(t) => t,
                    None => {
                        return Err(PaymentError::PaymentTypeNotSet);
                    },
                };
                let next = EMVPayment {
                    payment_info: PaymentInfo { amount_cents: a, payment_type: t },
                    processing: false,
                    emv_result: None,
                };
                Ok(Some((StateType::EMVPayment, StateValue::EmvPayment(next))))
            },
        }
    }

    fn state_type(&self) -> (t: StateType) {
        StateType::AwaitingInfo
    }

    fn description(&self) -> (s: String) {
        match (self.amount_cents, self.payment_type) {
            (Some(a), Some(t)) => {
                let mut s = String::from_str("Aguardando confirmação: R$ ");
                let m = money_string(a as u64);
                s.append(m.as_str());
                s.append(" (");
                s.append(t.name());
                s.append(")");
                proof {
                    assert(s@ =~= self.spec_description());
                }
                s
            },
            _ => String::from_str("Aguardando informações do pagamento"),
        }
    }
}

} // verus!
