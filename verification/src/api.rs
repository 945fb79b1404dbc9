//! The public façade: an ergonomic handle over the runtime, constructed with
//! the fully populated registry and the initial `AwaitingInfo` state.
//!
//! Because the façade always runs with the canonical routing table and a
//! well-formed runtime, the value's kind can never disagree with the router:
//! dispatch either reaches the active state's own transition capability or
//! rejects the action as incompatible. `canonical_step` captures exactly that
//! behaviour, and every `execute` call is pinned to it.

use vstd::prelude::*;

use crate::awaiting_info::AwaitingInfo;
use crate::registry::{fully_initialized, initialize_registry, DispatchFn, DispatchRegistry};
use crate::state_manager::{spec_stay_message, spec_transition_message, StateManager};
use crate::state_trait::{StateValue, TransitionOutcome};
use crate::types::{PaymentError, StateAction, StateChangeEvent, StateType};

verus! {

/// The routing function belonging to one tag's own state kind.
pub open spec fn canonical_router(t: StateType) -> DispatchFn {
    match t {
        StateType::AwaitingInfo => DispatchFn::AwaitingInfo,
        StateType::EMVPayment => DispatchFn::EmvPayment,
        StateType::PaymentSuccess => DispatchFn::PaymentSuccess,
    }
}

/// One step of the machine under the canonical registry: an action of the
/// active state's kind reaches that state's transition; any other action is
/// rejected as incompatible and changes nothing.
pub open spec fn canonical_step(s: StateValue, a: StateAction) -> (StateValue, TransitionOutcome) {
    canonical_router(s.spec_state_type()).spec_dispatch(s, a)
}

proof fn lemma_fully_initialized_lookup(r: DispatchRegistry, t: StateType)
    requires
        fully_initialized(r),
    ensures
        r.spec_lookup(t) == Some(canonical_router(t)),
{
    match t {
        StateType::AwaitingInfo => {},
        StateType::EMVPayment => {},
        StateType::PaymentSuccess => {},
    }
}

/// Cloneable-by-the-host handle over the runtime, offering one entry point
/// per concern: submitting actions, reading the tag, draining events and
/// querying per-state descriptions.
pub struct PaymentStateApi {
    manager: StateManager,
}

impl PaymentStateApi {
    /// The runtime behind this handle.
    pub closed spec fn spec_manager(self) -> StateManager {
        self.manager
    }

    pub open spec fn spec_state(self) -> StateValue {
        self.spec_manager().spec_state()
    }

    pub open spec fn spec_state_type(self) -> StateType {
        self.spec_manager().spec_state_type()
    }

    pub open spec fn spec_pending(self) -> Seq<StateChangeEvent> {
        self.spec_manager().spec_pending()
    }

    pub open spec fn spec_delivered(self) -> Seq<StateChangeEvent> {
        self.spec_manager().spec_delivered()
    }

    pub open spec fn spec_committed(self) -> Seq<StateChangeEvent> {
        self.spec_manager().spec_committed()
    }

    /// The façade's invariant: a well-formed runtime driven by the fully
    /// populated registry.
    pub open spec fn wf(self) -> bool {
        &&& self.spec_manager().wf()
        &&& fully_initialized(self.spec_manager().spec_registry())
    }

    /// Initializes the registry and constructs the runtime in the initial
    /// `AwaitingInfo` state with nothing set.
    pub fn new() -> (api: PaymentStateApi)
        ensures
            api.wf(),
            api.spec_state() == StateValue::AwaitingInfo(
                AwaitingInfo { amount_cents: None, payment_type: None },
            ),
            api.spec_state_type() == StateType::AwaitingInfo,
            api.spec_pending() == Seq::<StateChangeEvent>::empty(),
            api.spec_delivered() == Seq::<StateChangeEvent>::empty(),
    {
        let registry = initialize_registry();
        let initial_state = AwaitingInfo::initial();
        let manager = StateManager::new(
            StateValue::AwaitingInfo(initial_state),
            StateType::AwaitingInfo,
            registry,
        );
        PaymentStateApi { manager }
    }

    /// Submits one action to the active state.
    pub fn execute(&mut self, action: StateAction) -> (r: Result<String, PaymentError>)
        requires
            old(self).wf(),
        ensures
            final(self).wf(),
            final(self).spec_delivered() == old(self).spec_delivered(),
            ({
                let (s2, res) = canonical_step(old(self).spec_state(), action);
                match res {
                    Err(e) => {
                        &&& r == Err::<String, PaymentError>(e)
                        &&& final(self).spec_state() == s2
                        &&& final(self).spec_state_type() == old(self).spec_state_type()
                        &&& final(self).spec_pending() == old(self).spec_pending()
                    },
                    Ok(None) => {
                        &&& (r matches Ok(m) && m@ == spec_stay_message())
                        &&& final(self).spec_state() == s2
                        &&& final(self).spec_state_type() == old(self).spec_state_type()
                        &&& final(self).spec_pending() == old(self).spec_pending()
                    },
                    Ok(Some((new_type, new_state))) => {
                        &&& (r matches Ok(m) && m@ == spec_transition_message(new_type))
                        &&& final(self).spec_state() == new_state
                        &&& final(self).spec_state_type() == new_type
                        &&& final(self).spec_pending().len() == old(self).spec_pending().len() + 1
                        &&& final(self).spec_pending().take(old(self).spec_pending().len() as int)
                            == old(self).spec_pending()
                        &&& final(self).spec_pending().last().from_state == old(
                            self,
                        ).spec_state_type()
                        &&& final(self).spec_pending().last().to_state == new_type
                        &&& final(self).spec_pending().last().timestamp@.len() > 0
                    },
                }
            }),
    {
        proof {
            lemma_fully_initialized_lookup(
                old(self).spec_manager().spec_registry(),
                old(self).spec_state_type(),
            );
        }
        self.manager.execute(action)
    }

    /// The tag of the currently active state.
    pub fn current_state(&self) -> (t: StateType)
        ensures
            t == self.spec_state_type(),
    {
        self.manager.get_current_state_type()
    }

    /// Hands out the oldest event not yet received, if any.
    pub fn try_next_event(&mut self) -> (e: Option<StateChangeEvent>)
        ensures
            final(self).spec_state() == old(self).spec_state(),
            final(self).spec_state_type() == old(self).spec_state_type(),
            final(self).wf() == old(self).wf(),
            final(self).spec_committed() == old(self).spec_committed(),
            (old(self).spec_pending().len() == 0 ==> e is None && final(self).spec_pending() == old(
                self,
            ).spec_pending() && final(self).spec_delivered() == old(self).spec_delivered()),
            (old(self).spec_pending().len() > 0 ==> (e matches Some(ev) && ev == old(
                self,
            ).spec_pending()[0] && final(self).spec_pending() == old(self).spec_pending().skip(1)
                && final(self).spec_delivered() == old(self).spec_delivered().push(ev))),
    {
        self.manager.try_next_event()
    }

    /// The description of the `AwaitingInfo` state, if it is active.
    pub fn get_awaiting_info_description(&self) -> (r: Result<String, PaymentError>)
        requires
            self.wf(),
        ensures
            (self.spec_state() matches StateValue::AwaitingInfo(s) ==> (r matches Ok(d) && d@
                == s.describe())),
            (self.spec_state() !is AwaitingInfo ==> r == Err::<String, PaymentError>(
                PaymentError::StateTypeMismatch,
            )),
    {
        self.manager.get_description(StateType::AwaitingInfo)
    }

    /// The description of the `EMVPayment` state, if it is active.
    pub fn get_emv_payment_description(&self) -> (r: Result<String, PaymentError>)
        requires
            self.wf(),
        ensures
            (self.spec_state() matches StateValue::EmvPayment(s) ==> (r matches Ok(d) && d@
                == s.describe())),
            (self.spec_state() !is EmvPayment ==> r == Err::<String, PaymentError>(
                PaymentError::StateTypeMismatch,
            )),
    {
        self.manager.get_description(StateType::EMVPayment)
    }

    /// The description of the `PaymentSuccess` state, if it is active.
    pub fn get_payment_success_description(&self) -> (r: Result<String, PaymentError>)
        requires
            self.wf(),
        ensures
            (self.spec_state() matches StateValue::PaymentSuccess(s) ==> (r matches Ok(d) && d@
                == s.describe())),
            (self.spec_state() !is PaymentSuccess ==> r == Err::<String, PaymentError>(
                PaymentError::StateTypeMismatch,
            )),
    {
        self.manager.get_description(StateType::PaymentSuccess)
    }
}

impl Default for PaymentStateApi {
    /// The same handle `new` constructs.
    fn default() -> (api: Self)
        ensures
            api.wf(),
            api.spec_state() == StateValue::AwaitingInfo(
                AwaitingInfo { amount_cents: None, payment_type: None },
            ),
            api.spec_state_type() == StateType::AwaitingInfo,
            api.spec_pending() == Seq::<StateChangeEvent>::empty(),
            api.spec_delivered() == Seq::<StateChangeEvent>::empty(),
    {
        PaymentStateApi::new()
    }
}

} // verus!
