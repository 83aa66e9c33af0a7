use vstd::prelude::*;

use crate::state::State;

verus! {

/// Why a registration or a transition did not take place.
#[derive(Debug, Clone, Copy, PartialEq, Eq, Structural)]
pub enum GovernorError {
    /// A state with that identifier is already registered.
    DuplicateId,
    /// The registry already holds as many states as its capacity allows.
    CapacityExceeded,
    /// No state with that identifier is registered.
    UnknownId,
    /// The installed guard vetoed the transition.
    TransitionRejected,
}

/// What contracts see of a registry: its states, in the order they were
/// registered, and the current and previous states.
pub struct GovernorView {
    pub states: Seq<State>,
    pub current: State,
    pub previous: State,
}

/// Whether some state in `states` carries identifier `id`.
pub open spec fn has_id(states: Seq<State>, id: u8) -> bool {
    exists|i: int| 0 <= i < states.len() && (#[trigger] states[i]).id() == id
}

/// No two states in `states` share an identifier.
pub open spec fn ids_unique(states: Seq<State>) -> bool {
    forall|i: int, j: int|
        0 <= i < states.len() && 0 <= j < states.len() && i != j ==> (#[trigger] states[i]).id()
            != (#[trigger] states[j]).id()
}

/// The state in `states` that carries identifier `id` (meaningful when `has_id`).
pub open spec fn state_with_id(states: Seq<State>, id: u8) -> State {
    states[choose|i: int| 0 <= i < states.len() && (#[trigger] states[i]).id() == id]
}

/// The state found for `id` carries that identifier.
pub proof fn lemma_state_with_id(states: Seq<State>, id: u8)
    requires
        has_id(states, id),
    ensures
        state_with_id(states, id).id() == id,
        exists|i: int| 0 <= i < states.len() && states[i] == state_with_id(states, id),
{
    let i = choose|i: int| 0 <= i < states.len() && (#[trigger] states[i]).id() == id;
    assert(states[i] == state_with_id(states, id));
}

/// A bounded registry of at most `N` states that tracks the current and the
/// previous state and consults an optional guard `F` on each transition.
pub struct Governor<const N: usize, F = fn(State, State) -> bool> {
    states: Vec<State>,
    current_state: State,
    previous_state: State,
    transition_function: Option<F>,
}

impl<const N: usize, F> View for Governor<N, F> {
    type V = GovernorView;

    closed spec fn view(&self) -> GovernorView {
        GovernorView {
            states: self.states@,
            current: self.current_state,
            previous: self.previous_state,
        }
    }
}

impl<const N: usize, F: Fn(State, State) -> bool> Governor<N, F> {
    /// The installed guard, in specifications.
    pub closed spec fn guard(&self) -> Option<F> {
        self.transition_function
    }

    /// Whether `guard`, if any, may be called on every pair of states.
    pub open spec fn guard_callable(guard: Option<F>) -> bool {
        match guard {
            Some(g) => forall|a: State, b: State| call_requires(g, (a, b)),
            None => true,
        }
    }

    /// Well-formedness: identifiers unique, capacity respected, guard callable.
    pub open spec fn wf(&self) -> bool {
        &&& ids_unique(self@.states)
        &&& self@.states.len() <= N
        &&& Self::guard_callable(self.guard())
    }

    /// What registering `s` into `v` reports.
    pub open spec fn register_outcome(v: GovernorView, s: State) -> Result<(), GovernorError> {
        if has_id(v.states, s.id()) {
            Err(GovernorError::DuplicateId)
        } else if v.states.len() >= N {
            Err(GovernorError::CapacityExceeded)
        } else {
            Ok(())
        }
    }

    /// The registry after registering `s` into `v`: `s` is added exactly
    /// when the registration succeeds; current and previous never change.
    pub open spec fn registered(v: GovernorView, s: State) -> GovernorView {
        if Self::register_outcome(v, s) is Ok {
            GovernorView { states: v.states.push(s), current: v.current, previous: v.previous }
        } else {
            v
        }
    }

    /// How a transition request for `id` relates the registry `pre` before it
    /// to `post` after it, with `guard` installed, where `committed` tells
    /// whether it took place. An unknown identifier never commits. A known one
    /// commits without a guard, and otherwise exactly when the guard, asked
    /// with the current state and the candidate, answered true. A commit moves
    /// the current state to previous and the candidate to current; anything
    /// else leaves the registry as it was.
    pub open spec fn transition_post(
        pre: GovernorView,
        guard: Option<F>,
        id: u8,
        committed: bool,
        post: GovernorView,
    ) -> bool {
        if !has_id(pre.states, id) {
            !committed && post == pre
        } else {
            let candidate = state_with_id(pre.states, id);
            &&& match guard {
                Some(g) => call_ensures(g, (pre.current, candidate), committed),
                None => committed,
            }
            &&& if committed {
                post == GovernorView {
                    states: pre.states,
                    current: candidate,
                    previous: pre.current,
                }
            } else {
                post == pre
            }
        }
    }

    /// What a transition request for `id` on `pre` reports when it does not commit.
    pub open spec fn transition_error(pre: GovernorView, id: u8) -> GovernorError {
        if has_id(pre.states, id) {
            GovernorError::TransitionRejected
        } else {
            GovernorError::UnknownId
        }
    }

    /// Creates an empty registry whose current and previous states are the
    /// sentinel, with no guard.
    pub fn new() -> (r: Self)
        ensures
            r.wf(),
            r@.states.len() == 0,
            r@.current.is_unknown(),
            r@.previous.is_unknown(),
            r.guard() is None,
    {
        Governor {
            states: Vec::new(),
            current_state: State::unknown(),
            previous_state: State::unknown(),
            transition_function: None,
        }
    }

    /// Looks up the registered state with identifier `id`.
    fn find(&self, id: u8) -> (r: Option<State>)
        requires
            self.wf(),
        ensures
            r is Some <==> has_id(self@.states, id),
            r is Some ==> r->0 == state_with_id(self@.states, id),
    {
        let mut i: usize = 0;
        while i < self.states.len()
            invariant
                self.wf(),
                i <= self.states@.len(),
                forall|j: int| 0 <= j < i ==> (#[trigger] self.states@[j]).id() != id,
            decreases self.states@.len() - i,
        {
            let s = self.states[i];
            if s.id() == id {
                proof {
                    let states = self.states@;
                    lemma_state_with_id(states, id);
                    let k = choose|k: int|
                        0 <= k < states.len() && (#[trigger] states[k]).id() == id;
                    if k != i {
                        assert(states[k].id() != states[i as int].id());
                    }
                }
                return Some(s);
            }
            i = i + 1;
        }
        None
    }

    /// Registers `state` unless its identifier is taken or the registry is full.
    pub fn register(&mut self, state: State) -> (r: Result<(), GovernorError>)
        requires
            old(self).wf(),
        ensures
            final(self).wf(),
            final(self).guard() == old(self).guard(),
            r == Self::register_outcome(old(self)@, state),
            final(self)@ == Self::registered(old(self)@, state),
    {
        if self.find(state.id()).is_some() {
            return Err(GovernorError::DuplicateId);
        }
        if self.states.len() >= N {
            return Err(GovernorError::CapacityExceeded);
        }
        self.states.push(state);
        proof {
            let pre = old(self)@.states;
            let post = self@.states;
            assert forall|i: int, j: int|
                0 <= i < post.len() && 0 <= j < post.len() && i != j implies (
                #[trigger] post[i]).id() != (#[trigger] post[j]).id() by {
                if i < pre.len() && j < pre.len() {
                    assert(pre[i] == post[i] && pre[j] == post[j]);
                } else if i < pre.len() {
                    assert(pre[i] == post[i]);
                } else {
                    assert(pre[j] == post[j]);
                }
            }
            assert(post =~= pre.push(state));
        }
        Ok(())
    }

    /// Adds `state`; returns false, changing nothing, when its identifier is
    /// already registered or the registry is full.
    pub fn add_state(&mut self, state: State) -> (r: bool)
        requires
            old(self).wf(),
        ensures
            final(self).wf(),
            final(self).guard() == old(self).guard(),
            r == (Self::register_outcome(old(self)@, state) is Ok),
            final(self)@ == Self::registered(old(self)@, state),
    {
        self.register(state).is_ok()
    }

    /// Requests a transition to the registered state with identifier
    /// `state_id`, consulting the guard if one is installed.
    pub fn try_change_state_to(&mut self, state_id: u8) -> (r: Result<(), GovernorError>)
        requires
            old(self).wf(),
        ensures
            final(self).wf(),
            final(self).guard() == old(self).guard(),
            Self::transition_post(old(self)@, old(self).guard(), state_id, r is Ok, final(self)@),
            r matches Err(e) ==> e == Self::transition_error(old(self)@, state_id),
    {
        let candidate = match self.find(state_id) {
            Some(s) => s,
            None => {
                return Err(GovernorError::UnknownId);
            },
        };
        let allowed = match &self.transition_function {
            Some(f) => f(self.current_state, candidate),
            None => true,
        };
        if allowed {
            self.previous_state = self.current_state;
            self.current_state = candidate;
            Ok(())
        } else {
            Err(GovernorError::TransitionRejected)
        }
    }

    /// Changes the current state to the registered state with identifier
    /// `state_id`; returns whether the transition took place.
    pub fn change_state_to(&mut self, state_id: u8) -> (r: bool)
        requires
            old(self).wf(),
        ensures
            final(self).wf(),
            final(self).guard() == old(self).guard(),
            Self::transition_post(old(self)@, old(self).guard(), state_id, r, final(self)@),
    {
        self.try_change_state_to(state_id).is_ok()
    }

    /// Returns the current state (the sentinel before any transition).
    pub fn get_current_state(&mut self) -> (r: State)
        ensures
            r == old(self)@.current,
            *final(self) == *old(self),
    {
        self.current_state
    }

    /// Returns the state that was current before the last transition (the
    /// sentinel before the first one).
    pub fn get_previous_state(&self) -> (r: State)
        ensures
            r == self@.previous,
    {
        self.previous_state
    }

    /// Installs or replaces the guard consulted by later transitions.
    pub fn set_state_transition_func(&mut self, function: F)
        requires
            old(self).wf(),
            forall|a: State, b: State| call_requires(function, (a, b)),
        ensures
            final(self).wf(),
            final(self)@ == old(self)@,
            final(self).guard() == Some(function),
    {
        self.transition_function = Some(function);
    }
}

impl<const N: usize, F: Fn(State, State) -> bool> Default for Governor<N, F> {
    fn default() -> (r: Self)
        ensures
            r.wf(),
            r@.states.len() == 0,
            r@.current.is_unknown(),
            r@.previous.is_unknown(),
            r.guard() is None,
    {
        Self::new()
    }
}

} // verus!
