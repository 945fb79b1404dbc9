//! The processing state: an EMV payment in flight, which may complete with a
//! result, or be cancelled back to the start.

use vstd::prelude::*;

use crate::awaiting_info::{AwaitingInfo, PaymentInfo};
use crate::payment_success::PaymentSuccess;
use crate::state_trait::{PaymentState, StateValue, TransitionOutcome};
use crate::text::{money_string, spec_money};
use crate::types::{PaymentError, StateType};

verus! {

/// The outcome data of a processed EMV payment.
#[derive(Debug, Clone)]
pub struct EmvResult {
    pub transaction_id: String,
    pub authorization_code: String,
    pub timestamp: String,
}

/// Actions valid in the `EMVPayment` state.
#[derive(Debug, Clone)]
pub enum EmvPaymentAction {
    ProcessPayment,
    CompletePayment { result: EmvResult },
    CancelPayment,
}

/// A payment being processed.
#[derive(Debug, Clone)]
pub struct EMVPayment {
    pub payment_info: PaymentInfo,
    pub processing: bool,
    pub emv_result: Option<EmvResult>,
}

impl EMVPayment {
    /// The amount was validated before this state was constructed.
    pub open spec fn inv(self) -> bool {
        self.payment_info.amount_cents > 0
    }

    pub open spec fn describe(self) -> Seq<char> {
        if self.processing {
            "Processando pagamento de R$ "@ + spec_money(self.payment_info.amount_cents as nat)
                + "..."@
        } else {
            "Pronto para processar pagamento de R$ "@ + spec_money(
                self.payment_info.amount_cents as nat,
            )
        }
    }
}

impl PaymentState<EmvPaymentAction> for EMVPayment {
    open spec fn spec_state_type(self) -> StateType {
        StateType::EMVPayment
    }

    open spec fn wf(self) -> bool {
        self.inv()
    }

    open spec fn spec_description(self) -> Seq<char> {
        self.describe()
    }

    open spec fn spec_step(self, action: EmvPaymentAction) -> (Self, TransitionOutcome) {
        match action {
            EmvPaymentAction::ProcessPayment => {
                if self.processing {
                    (self, Err(PaymentError::AlreadyProcessing))
                } else {
                    (EMVPayment { processing: true, ..self }, Ok(None))
                }
            },
            EmvPaymentAction::CompletePayment { result } => {
                if !self.processing {
                    (self, Err(PaymentError::ProcessingNotStarted))
                } else {
                    let next = PaymentSuccess { payment_info: self.payment_info, result };
                    (
                        self,
                        Ok(Some((StateType::PaymentSuccess, StateValue::PaymentSuccess(next)))),
                    )
                }
            },
            EmvPaymentAction::CancelPayment => {
                let next = AwaitingInfo { amount_cents: None, payment_type: None };
                (self, Ok(Some((StateType::AwaitingInfo, StateValue::AwaitingInfo(next)))))
            },
        }
    }

    fn execute_action_with_transition(&mut self, action: EmvPaymentAction) -> (r:
        TransitionOutcome)
    {
        match action {
            EmvPaymentAction::ProcessPayment => {
                if self.processing {
                    return Err(PaymentError::AlreadyProcessing);
                }
                self.processing = true;
                Ok(None)
            },
            EmvPaymentAction::CompletePayment { result } => {
                if !self.processing {
                    return Err(PaymentError::ProcessingNotStarted);
                }
                let next = PaymentSuccess { payment_info: self.payment_info, result };
                Ok(Some((StateType::PaymentSuccess, StateValue::PaymentSuccess(next))))
            },
            EmvPaymentAction::CancelPayment => {
                let next = AwaitingInfo::initial();
                Ok(Some((StateType::AwaitingInfo, StateValue::AwaitingInfo(next))))
            },
        }
    }

    fn state_type(&self) -> (t: StateType) {
        StateType::EMVPayment
    }

    fn description(&self) -> (s: String) {
        let mut s = if self.processing {
            String::from_str("Processando pagamento de R$ ")
        } else {
            String::from_str("Pronto para processar pagamento de R$ ")
        };
        let m = money_string(self.payment_info.amount_cents as u64);
        s.append(m.as_str());
        if self.processing {
            s.append("...");
        }
        proof {
            assert(s@ =~= self.spec_description());
        }
        s
    }
}

} // verus!
