//! The capability every concrete state provides, and the closed sum of all
//! state values the runtime can hold.
//!
//! A state owns its transitions: when an action moves the machine elsewhere,
//! the *current* state constructs its fully formed successor and hands it
//! back together with the successor's tag. The runtime only stores values and
//! swaps them; it never builds a state itself.

use vstd::prelude::*;

use crate::awaiting_info::AwaitingInfo;
use crate::emv_payment::EMVPayment;
use crate::payment_success::PaymentSuccess;
use crate::types::{PaymentError, StateType};

verus! {

/// The one state value the runtime owns at any instant: exactly one of the
/// concrete state kinds.
#[derive(Debug, Clone)]
pub enum StateValue {
    AwaitingInfo(AwaitingInfo),
    EmvPayment(EMVPayment),
    PaymentSuccess(PaymentSuccess),
}

/// What a transition capability hands back: either "stay" (the state mutated
/// itself in place), or the successor value paired with its tag.
pub type TransitionOutcome = Result<Option<(StateType, StateValue)>, PaymentError>;

/// The single capability shared by all concrete states: given an action of
/// the matching kind, either mutate in place or construct the next state.
pub trait PaymentState<Action>: Sized {
    /// The tag this state kind carries.
    spec fn spec_state_type(self) -> StateType;

    /// The state's internal validity condition.
    spec fn wf(self) -> bool;

    /// The state's human-readable description.
    spec fn spec_description(self) -> Seq<char>;

    /// Functional model of one step: the state value after the call, and what
    /// the call returns.
    spec fn spec_step(self, action: Action) -> (Self, TransitionOutcome);

    /// Executes one action. A successor, when one is returned, is fully
    /// constructed, valid, and tagged with its own kind.
    fn execute_action_with_transition(&mut self, action: Action) -> (r: TransitionOutcome)
        requires
            old(self).wf(),
        ensures
            (*final(self), r) == old(self).spec_step(action),
            final(self).wf(),
            (r matches Ok(Some((tag, next))) ==> next.wf() && next.spec_state_type() == tag),
    ;

    /// The tag of this state.
    fn state_type(&self) -> (t: StateType)
        ensures
            t == self.spec_state_type(),
    ;

    /// A description of this state.
    fn description(&self) -> (s: String)
        requires
            self.wf(),
        ensures
            s@ == self.spec_description(),
    ;
}

impl StateValue {
    /// The tag matching the concrete kind held in this value.
    pub open spec fn spec_state_type(self) -> StateType {
        match self {
            StateValue::AwaitingInfo(_) => StateType::AwaitingInfo,
            StateValue::EmvPayment(_) => StateType::EMVPayment,
            StateValue::PaymentSuccess(_) => StateType::PaymentSuccess,
        }
    }

    /// Validity of the held state.
    pub open spec fn wf(self) -> bool {
        match self {
            StateValue::AwaitingInfo(s) => s.inv(),
            StateValue::EmvPayment(s) => s.inv(),
            StateValue::PaymentSuccess(s) => s.inv(),
        }
    }

    pub open spec fn spec_description(self) -> Seq<char> {
        match self {
            StateValue::AwaitingInfo(s) => s.describe(),
            StateValue::EmvPayment(s) => s.describe(),
            StateValue::PaymentSuccess(s) => s.describe(),
        }
    }

    /// The tag of the held state.
    pub fn state_type(&self) -> (t: StateType)
        ensures
            t == self.spec_state_type(),
    {
        match self {
            StateValue::AwaitingInfo(_) => StateType::AwaitingInfo,
            StateValue::EmvPayment(_) => StateType::EMVPayment,
            StateValue::PaymentSuccess(_) => StateType::PaymentSuccess,
        }
    }

    /// The description of the held state.
    pub fn description(&self) -> (s: String)
        requires
            self.wf(),
        ensures
            s@ == self.spec_description(),
    {
        match self {
            StateValue::AwaitingInfo(s) => s.description(),
            StateValue::EmvPayment(s) => s.description(),
            StateValue::PaymentSuccess(s) => s.description(),
        }
    }
}

} // verus!
