//! The final state of a successful payment. `Reset` always returns the
//! machine to a fresh start.

use vstd::prelude::*;

use crate::awaiting_info::{AwaitingInfo, PaymentInfo};
use crate::emv_payment::EmvResult;
use crate::state_trait::{PaymentState, StateValue, TransitionOutcome};
use crate::text::{money_string, spec_money};
use crate::types::StateType;

verus! {

/// Actions valid in the `PaymentSuccess` state.
#[derive(Debug, Clone, Copy, PartialEq, Eq, Structural)]
pub enum PaymentSuccessAction {
    Reset,
}

/// A payment concluded successfully.
#[derive(Debug, Clone)]
pub struct PaymentSuccess {
    pub payment_info: PaymentInfo,
    pub result: EmvResult,
}

impl PaymentSuccess {
    /// The amount was validated before this state was constructed.
    pub open spec fn inv(self) -> bool {
        self.payment_info.amount_cents > 0
    }

    pub open spec fn describe(self) -> Seq<char> {
        "Pagamento concluído com sucesso - ID: "@ + self.result.transaction_id@ + ", Código: "@
            + self.result.authorization_code@ + ", Valor: R$ "@ + spec_money(
            self.payment_info.amount_cents as nat,
        )
    }
}

impl PaymentState<PaymentSuccessAction> for PaymentSuccess {
    open spec fn spec_state_type(self) -> StateType {
        StateType::PaymentSuccess
    }

    open spec fn wf(self) -> bool {
        self.inv()
    }

    open spec fn spec_description(self) -> Seq<char> {
        self.describe()
    }

    open spec fn spec_step(self, action: PaymentSuccessAction) -> (Self, TransitionOutcome) {
        match action {
            PaymentSuccessAction::Reset => {
                let next = AwaitingInfo { amount_cents: None, payment_type: None };
                (self, Ok(Some((StateType::AwaitingInfo, StateValue::AwaitingInfo(next)))))
            },
        }
    }

    fn execute_action_with_transition(&mut self, action: PaymentSuccessAction) -> (r:
        TransitionOutcome)
    {
        match action {
            PaymentSuccessAction::Reset => {
                let next = AwaitingInfo::initial();
                Ok(Some((StateType::AwaitingInfo, StateValue::AwaitingInfo(next))))
            },
        }
    }

    fn state_type(&self) -> (t: StateType) {
        StateType::PaymentSuccess
    }

    fn description(&self) -> (s: String) {
        let mut s = String::from_str("Pagamento concluído com sucesso - ID: ");
        s.append(self.result.transaction_id.as_str());
        s.append(", Código: ");
        s.append(self.result.authorization_code.as_str());
        s.append(", Valor: R$ ");
        let m = money_string(self.payment_info.amount_cents as u64);
        s.append(m.as_str());
        proof {
            assert(s@ =~= self.spec_description());
        }
        s
    }
}

} // verus!
