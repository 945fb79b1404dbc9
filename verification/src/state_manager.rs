//! The state container and runtime: the single authoritative owner of the
//! current state value and its tag, together with the queue of transition
//! events awaiting delivery.
//!
//! The runtime is completely generic over the concrete states: it stores a
//! value, looks its tag up in the dispatch table, lets the routing function
//! drive the state, swaps in any successor the state constructed, and records
//! one event per committed transition. It never builds a state itself and
//! never special-cases a state kind.
//!
//! Mutating entry points take the runtime exclusively (`&mut self`), which
//! serializes every write to the value/tag pair: no caller can observe a tag
//! that disagrees with the stored value. A host that shares the runtime
//! between tasks wraps it in its own mutual-exclusion primitive and keeps
//! these guarantees by construction.

use vstd::prelude::*;

use crate::registry::{get_dispatch_fn, DispatchRegistry};
use crate::state_trait::StateValue;
use crate::types::{PaymentError, StateAction, StateChangeEvent, StateType};

verus! {

/// The success message of an action that kept the machine in its state.
pub open spec fn spec_stay_message() -> Seq<char> {
    "Ação executada - permanece no mesmo estado"@
}

/// The success message of an action that moved the machine to `t`.
pub open spec fn spec_transition_message(t: StateType) -> Seq<char> {
    "Transicionado para "@ + t.spec_name()
}

/// Relies on chrono's `Utc::now` and `DateTime::to_rfc3339`: the moment of
/// the call rendered as an RFC 3339 date-and-time string, whose fixed layout
/// is never empty. Nothing more is assumed of the clock, save that it reads
/// at or after the Unix epoch (`Utc::now` aborts otherwise).
#[verifier::external_body]
fn now_rfc3339() -> (r: String)
    ensures
        r@.len() > 0,
{
    chrono::Utc::now().to_rfc3339()
}

/// The state container: the current value, its tag, the routing table the
/// runtime was constructed with, and the transition events it has emitted
/// but not yet handed to the subscriber.
pub struct StateManager {
    current_state: StateValue,
    current_state_type: StateType,
    registry: DispatchRegistry,
    pending_events: Vec<StateChangeEvent>,
    delivered_events: Ghost<Seq<StateChangeEvent>>,
}

impl StateManager {
    /// The state value the runtime currently owns.
    pub closed spec fn spec_state(self) -> StateValue {
        self.current_state
    }

    /// The tag paired with the stored value.
    pub closed spec fn spec_state_type(self) -> StateType {
        self.current_state_type
    }

    /// The routing table the runtime consults.
    pub closed spec fn spec_registry(self) -> DispatchRegistry {
        self.registry
    }

    /// Events emitted but not yet received.
    pub closed spec fn spec_pending(self) -> Seq<StateChangeEvent> {
        self.pending_events@
    }

    /// Events already handed to the subscriber, in delivery order.
    pub closed spec fn spec_delivered(self) -> Seq<StateChangeEvent> {
        self.delivered_events@
    }

    /// Every transition committed since construction, in commit order.
    pub open spec fn spec_committed(self) -> Seq<StateChangeEvent> {
        self.spec_delivered() + self.spec_pending()
    }

    /// The runtime's invariant: the stored value is valid and the tag always
    /// matches the value's own kind.
    pub open spec fn wf(self) -> bool {
        &&& self.spec_state().wf()
        &&& self.spec_state_type() == self.spec_state().spec_state_type()
    }

    /// Constructs the runtime with exactly one value/tag pair and the routing
    /// table it will consult. The initial value is trusted to carry its own
    /// tag; no event has been emitted yet.
    pub fn new(initial_state: StateValue, initial_type: StateType, registry: DispatchRegistry) -> (m:
        StateManager)
        requires
            initial_state.wf(),
            initial_type == initial_state.spec_state_type(),
        ensures
            m.wf(),
            m.spec_state() == initial_state,
            m.spec_state_type() == initial_type,
            m.spec_registry() == registry,
            m.spec_pending() == Seq::<StateChangeEvent>::empty(),
            m.spec_delivered() == Seq::<StateChangeEvent>::empty(),
    {
        StateManager {
            current_state: initial_state,
            current_state_type: initial_type,
            registry,
            pending_events: Vec::new(),
            delivered_events: Ghost(Seq::empty()),
        }
    }

    /// Submits one action. The routing function for the current tag checks
    /// kinds and invokes the state; a "stay" outcome mutates the value in
    /// place and emits nothing, a transition atomically replaces the
    /// value/tag pair and records exactly one event whose `from_state` is the
    /// tag active immediately before the swap.
    pub fn execute(&mut self, action: StateAction) -> (r: Result<String, PaymentError>)
        requires
            old(self).wf(),
        ensures
            final(self).wf(),
            final(self).spec_registry() == old(self).spec_registry(),
            final(self).spec_delivered() == old(self).spec_delivered(),
            (match old(self).spec_registry().spec_lookup(old(self).spec_state_type()) {
                None => {
                    &&& r == Err::<String, PaymentError>(PaymentError::UnregisteredState)
                    &&& final(self).spec_state() == old(self).spec_state()
                    &&& final(self).spec_state_type() == old(self).spec_state_type()
                    &&& final(self).spec_pending() == old(self).spec_pending()
                },
                Some(f) => {
                    let (s2, res) = f.spec_dispatch(old(self).spec_state(), action);
                    match res {
                        Err(e) => {
                            &&& r == Err::<String, PaymentError>(e)
                            &&& final(self).spec_state() == s2
                            &&& final(self).spec_state_type() == old(self).spec_state_type()
                            &&& final(self).spec_pending() == old(self).spec_pending()
                        },
                        Ok(None) => {
                            &&& (r matches Ok(m) && m@ == spec_stay_message())
                            &&& final(self).spec_state() == s2
                            &&& final(self).spec_state_type() == old(self).spec_state_type()
                            &&& final(self).spec_pending() == old(self).spec_pending()
                        },
                        Ok(Some((new_type, new_state))) => {
                            &&& (r matches Ok(m) && m@ == spec_transition_message(new_type))
                            &&& final(self).spec_state() == new_state
                            &&& final(self).spec_state_type() == new_type
                            &&& final(self).spec_pending().len() == old(self).spec_pending().len()
                                + 1
                            &&& final(self).spec_pending().take(
                                old(self).spec_pending().len() as int,
                            ) == old(self).spec_pending()
                            &&& final(self).spec_pending().last().from_state == old(
                                self,
                            ).spec_state_type()
                            &&& final(self).spec_pending().last().to_state == new_type
                            &&& final(self).spec_pending().last().timestamp@.len() > 0
                        },
                    }
                },
            }),
    {
        let current_type = self.current_state_type;
        let dispatch_fn = match get_dispatch_fn(&self.registry, current_type) {
            Some(f) => f,
            None => {
                return Err(PaymentError::UnregisteredState);
            },
        };
        let transition = dispatch_fn.dispatch(&mut self.current_state, action);
        match transition {
            Err(e) => Err(e),
            Ok(None) => Ok(String::from_str("Ação executada - permanece no mesmo estado")),
            Ok(Some((new_type, new_state))) => {
                self.current_state = new_state;
                self.current_state_type = new_type;
                self.notify_state_change(current_type, new_type);
                let mut msg = String::from_str("Transicionado para ");
                msg.append(new_type.name());
                proof {
                    assert(msg@ =~= spec_transition_message(new_type));
                    assert(final(self).spec_pending().take(old(self).spec_pending().len() as int)
                        =~= old(self).spec_pending());
                }
                Ok(msg)
            },
        }
    }

    /// Non-blocking read of the current tag.
    pub fn get_current_state_type(&self) -> (t: StateType)
        ensures
            t == self.spec_state_type(),
    {
        self.current_state_type
    }

    /// Read-only view of the stored value as the kind named by `expected`:
    /// its description if the live value is of that kind, and
    /// `StateTypeMismatch` otherwise.
    pub fn get_description(&self, expected: StateType) -> (r: Result<String, PaymentError>)
        requires
            self.wf(),
        ensures
            (self.spec_state().spec_state_type() == expected ==> (r matches Ok(d) && d@ == self
                .spec_state().spec_description())),
            (self.spec_state().spec_state_type() != expected ==> r == Err::<String, PaymentError>(
                PaymentError::StateTypeMismatch,
            )),
    {
        let actual = self.current_state.state_type();
        if actual == expected {
            Ok(self.current_state.description())
        } else {
            Err(PaymentError::StateTypeMismatch)
        }
    }

    /// Hands out the oldest undelivered event, if any. Events leave the
    /// queue exactly in the order their transitions committed.
    pub fn try_next_event(&mut self) -> (e: Option<StateChangeEvent>)
        ensures
            final(self).spec_state() == old(self).spec_state(),
            final(self).spec_state_type() == old(self).spec_state_type(),
            final(self).spec_registry() == old(self).spec_registry(),
            final(self).spec_committed() == old(self).spec_committed(),
            (old(self).spec_pending().len() == 0 ==> e is None && final(self).spec_pending() == old(
                self,
            ).spec_pending() && final(self).spec_delivered() == old(self).spec_delivered()),
            (old(self).spec_pending().len() > 0 ==> (e matches Some(ev) && ev == old(
                self,
            ).spec_pending()[0] && final(self).spec_pending() == old(self).spec_pending().skip(1)
                && final(self).spec_delivered() == old(self).spec_delivered().push(ev))),
    {
        if self.pending_events.len() == 0 {
            None
        } else {
            let ev = self.pending_events.remove(0);
            proof {
                assert(self.pending_events@ =~= old(self).spec_pending().skip(1));
            }
            self.delivered_events = Ghost(self.delivered_events@.push(ev));
            proof {
                assert(final(self).spec_committed() =~= old(self).spec_committed());
            }
            Some(ev)
        }
    }

    /// Records the event for one committed transition. The publication
    /// cannot fail: the queue is unbounded, and an absent subscriber never
    /// rolls a transition back.
    fn notify_state_change(&mut self, from_state: StateType, to_state: StateType)
        ensures
            final(self).spec_state() == old(self).spec_state(),
            final(self).spec_state_type() == old(self).spec_state_type(),
            final(self).spec_registry() == old(self).spec_registry(),
            final(self).spec_delivered() == old(self).spec_delivered(),
            final(self).spec_pending().len() == old(self).spec_pending().len() + 1,
            final(self).spec_pending().take(old(self).spec_pending().len() as int) == old(
                self,
            ).spec_pending(),
            final(self).spec_pending().last().from_state == from_state,
            final(self).spec_pending().last().to_state == to_state,
            final(self).spec_pending().last().timestamp@.len() > 0,
    {
        let event = StateChangeEvent { from_state, to_state, timestamp: now_rfc3339() };
        self.pending_events.push(event);
        proof {
            assert(final(self).spec_pending().take(old(self).spec_pending().len() as int) =~= old(
                self,
            ).spec_pending());
        }
    }
}

/// Law: single-writer consistency. However many `execute` calls have run,
/// a well-formed runtime's advertised tag is exactly the tag of the value it
/// stores; the pair is never observed mismatched.
pub proof fn lemma_state_tag_consistent(m: StateManager)
    requires
        m.wf(),
    ensures
        m.spec_state_type() == m.spec_state().spec_state_type(),
{
}

/// Law: event-order correspondence. The events a subscriber has observed,
/// followed by the events still queued, are exactly the committed
/// transitions in commit order: delivery is a prefix of the commit history
/// and never reorders it.
pub proof fn lemma_events_in_commit_order(m: StateManager)
    ensures
        m.spec_committed() == m.spec_delivered() + m.spec_pending(),
        m.spec_delivered() == m.spec_committed().take(m.spec_delivered().len() as int),
        m.spec_pending() == m.spec_committed().skip(m.spec_delivered().len() as int),
{
    assert(m.spec_delivered() =~= m.spec_committed().take(m.spec_delivered().len() as int));
    assert(m.spec_pending() =~= m.spec_committed().skip(m.spec_delivered().len() as int));
}

} // verus!
