//! The dispatch registry: a write-once table mapping each state tag to the
//! routing function that knows how to drive that state.
//!
//! A routing function confirms that the stored value really is of the kind
//! its tag promises, confirms that the submitted action belongs to that
//! state, and then invokes the state's own transition capability. The table
//! is an insert-if-absent association list: the first entry registered for a
//! tag wins and later registrations for the same tag are ignored, so
//! repeated initialization is harmless by construction.

use vstd::prelude::*;

use crate::state_trait::{PaymentState, StateValue, TransitionOutcome};
use crate::types::{PaymentError, StateAction, StateType};

verus! {

/// The routing function for one state kind.
#[derive(Debug, Clone, Copy, PartialEq, Eq, Structural)]
pub enum DispatchFn {
    AwaitingInfo,
    EmvPayment,
    PaymentSuccess,
}

impl DispatchFn {
    /// Functional model of one routing call: the state value afterwards and
    /// what the call returns.
    pub open spec fn spec_dispatch(self, state: StateValue, action: StateAction) -> (
        StateValue,
        TransitionOutcome,
    ) {
        match self {
            DispatchFn::AwaitingInfo => match state {
                StateValue::AwaitingInfo(s) => match action {
                    StateAction::AwaitingInfo(a) => {
                        let (s2, r) = s.spec_step(a);
                        (StateValue::AwaitingInfo(s2), r)
                    },
                    _ => (state, Err(PaymentError::IncompatibleAction)),
                },
                _ => (state, Err(PaymentError::StateTypeMismatch)),
            },
            DispatchFn::EmvPayment => match state {
                StateValue::EmvPayment(s) => match action {
                    StateAction::EmvPayment(a) => {
                        let (s2, r) = s.spec_step(a);
                        (StateValue::EmvPayment(s2), r)
                    },
                    _ => (state, Err(PaymentError::IncompatibleAction)),
                },
                _ => (state, Err(PaymentError::StateTypeMismatch)),
            },
            DispatchFn::PaymentSuccess => match state {
                StateValue::PaymentSuccess(s) => match action {
                    StateAction::PaymentSuccess(a) => {
                        let (s2, r) = s.spec_step(a);
                        (StateValue::PaymentSuccess(s2), r)
                    },
                    _ => (state, Err(PaymentError::IncompatibleAction)),
                },
                _ => (state, Err(PaymentError::StateTypeMismatch)),
            },
        }
    }

    /// Routes one action to the held state: checks the stored value's kind,
    /// checks the action's kind, and invokes the state's transition.
    pub fn dispatch(&self, state: &mut StateValue, action: StateAction) -> (r: TransitionOutcome)
        requires
            old(state).wf(),
        ensures
            (*final(state), r) == self.spec_dispatch(*old(state), action),
            final(state).wf(),
            (r matches Ok(Some((tag, next))) ==> next.wf() && next.spec_state_type() == tag),
    {
        match self {
            DispatchFn::AwaitingInfo => match state {
                StateValue::AwaitingInfo(s) => match action {
                    StateAction::AwaitingInfo(a) => s.execute_action_with_transition(a),
                    _ => Err(PaymentError::IncompatibleAction),
                },
                _ => Err(PaymentError::StateTypeMismatch),
            },
            DispatchFn::EmvPayment => match state {
                StateValue::EmvPayment(s) => match action {
                    StateAction::EmvPayment(a) => s.execute_action_with_transition(a),
                    _ => Err(PaymentError::IncompatibleAction),
                },
                _ => Err(PaymentError::StateTypeMismatch),
            },
            DispatchFn::PaymentSuccess => match state {
                StateValue::PaymentSuccess(s) => match action {
                    StateAction::PaymentSuccess(a) => s.execute_action_with_transition(a),
                    _ => Err(PaymentError::IncompatibleAction),
                },
                _ => Err(PaymentError::StateTypeMismatch),
            },
        }
    }
}

/// First-match lookup in an association list of registry entries.
pub open spec fn assoc_lookup(s: Seq<(StateType, DispatchFn)>, t: StateType) -> Option<DispatchFn>
    decreases s.len(),
{
    if s.len() == 0 {
        None
    } else if s[0].0 == t {
        Some(s[0].1)
    } else {
        assoc_lookup(s.subrange(1, s.len() as int), t)
    }
}

proof fn lemma_assoc_lookup_push(
    s: Seq<(StateType, DispatchFn)>,
    t: StateType,
    f: DispatchFn,
    t2: StateType,
)
    ensures
        assoc_lookup(s.push((t, f)), t2) == (if assoc_lookup(s, t2) is Some {
            assoc_lookup(s, t2)
        } else if t2 == t {
            Some(f)
        } else {
            None
        }),
    decreases s.len(),
{
    if s.len() == 0 {
        assert(s.push((t, f))[0] == (t, f));
        assert(s.push((t, f)).subrange(1, 1) =~= Seq::<(StateType, DispatchFn)>::empty());
    } else {
        assert(s.push((t, f))[0] == s[0]);
        if s[0].0 != t2 {
            assert(s.push((t, f)).subrange(1, s.len() as int + 1) =~= s.subrange(
                1,
                s.len() as int,
            ).push((t, f)));
            lemma_assoc_lookup_push(s.subrange(1, s.len() as int), t, f, t2);
        }
    }
}

/// The process-wide table of routing functions, keyed by state tag.
pub struct DispatchRegistry {
    entries: Vec<(StateType, DispatchFn)>,
}

impl DispatchRegistry {
    /// The routing function this table holds for a tag, if any.
    pub closed spec fn spec_lookup(self, t: StateType) -> Option<DispatchFn> {
        assoc_lookup(self.entries@, t)
    }

    /// An empty table with no tag registered.
    pub fn new() -> (r: DispatchRegistry)
        ensures
            forall|t: StateType| r.spec_lookup(t) is None,
    {
        DispatchRegistry { entries: Vec::new() }
    }
}

/// Associates a tag with a routing function, unless the tag already has one:
/// the first registration wins and later ones are silently ignored.
pub fn register_state(
    registry: &mut DispatchRegistry,
    state_type: StateType,
    dispatch_fn: DispatchFn,
)
    ensures
        (old(registry).spec_lookup(state_type) is Some ==> *final(registry) == *old(registry)),
        (old(registry).spec_lookup(state_type) is None ==> final(registry).spec_lookup(state_type)
            == Some(dispatch_fn)),
        forall|t2: StateType|
            t2 != state_type ==> final(registry).spec_lookup(t2) == old(registry).spec_lookup(t2),
{
    let existing = get_dispatch_fn(registry, state_type);
    if existing.is_none() {
        let ghost before = registry.entries@;
        registry.entries.push((state_type, dispatch_fn));
        proof {
            assert forall|t2: StateType|
                assoc_lookup(before.push((state_type, dispatch_fn)), t2) == (if assoc_lookup(
                    before,
                    t2,
                ) is Some {
                    assoc_lookup(before, t2)
                } else if t2 == state_type {
                    Some(dispatch_fn)
                } else {
                    None
                }) by {
                lemma_assoc_lookup_push(before, state_type, dispatch_fn, t2);
            }
        }
    }
}

/// Pure read of the routing function registered for a tag.
pub fn get_dispatch_fn(registry: &DispatchRegistry, state_type: StateType) -> (r: Option<
    DispatchFn,
>)
    ensures
        r == registry.spec_lookup(state_type),
{
    let n = registry.entries.len();
    proof {
        assert(registry.entries@.subrange(0, n as int) =~= registry.entries@);
    }
    let mut i: usize = 0;
    while i < n
        invariant
            i <= n,
            n == registry.entries.len(),
            assoc_lookup(registry.entries@, state_type) == assoc_lookup(
                registry.entries@.subrange(i as int, n as int),
                state_type,
            ),
        decreases n - i,
    {
        let (t, f) = registry.entries[i];
        if t == state_type {
            proof {
                assert(registry.entries@.subrange(i as int, n as int)[0] == registry.entries@[
                    i as int]);
            }
            return Some(f);
        }
        proof {
            assert(registry.entries@.subrange(i as int, n as int)[0] == registry.entries@[
                i as int]);
            assert(registry.entries@.subrange(i as int, n as int).subrange(1, (n - i) as int)
                =~= registry.entries@.subrange(i as int + 1, n as int));
        }
        i = i + 1;
    }
    proof {
        assert(registry.entries@.subrange(n as int, n as int) =~= Seq::<(
            StateType,
            DispatchFn,
        )>::empty());
    }
    None
}

/// A table that routes every tag to the routing function of its own state
/// kind. Since the set of tags is closed, this determines every lookup.
pub open spec fn fully_initialized(r: DispatchRegistry) -> bool {
    &&& r.spec_lookup(StateType::AwaitingInfo) == Some(DispatchFn::AwaitingInfo)
    &&& r.spec_lookup(StateType::EMVPayment) == Some(DispatchFn::EmvPayment)
    &&& r.spec_lookup(StateType::PaymentSuccess) == Some(DispatchFn::PaymentSuccess)
}

/// Builds the registry with the routing functions of all three states.
pub fn initialize_registry() -> (r: DispatchRegistry)
    ensures
        fully_initialized(r),
{
    let mut registry = DispatchRegistry::new();
    register_state(&mut registry, StateType::AwaitingInfo, DispatchFn::AwaitingInfo);
    register_state(&mut registry, StateType::EMVPayment, DispatchFn::EmvPayment);
    register_state(&mut registry, StateType::PaymentSuccess, DispatchFn::PaymentSuccess);
    registry
}

/// Law: registry bootstrap is idempotent. Any two tables built by the
/// initialization path answer every lookup identically, so running the
/// bootstrap more than once can never change what the runtime observes.
pub proof fn lemma_bootstrap_idempotent(r1: DispatchRegistry, r2: DispatchRegistry)
    requires
        fully_initialized(r1),
        fully_initialized(r2),
    ensures
        forall|t: StateType| r1.spec_lookup(t) == r2.spec_lookup(t),
{
    assert forall|t: StateType| r1.spec_lookup(t) == r2.spec_lookup(t) by {
        match t {
            StateType::AwaitingInfo => {},
            StateType::EMVPayment => {},
            StateType::PaymentSuccess => {},
        }
    }
}

} // verus!
