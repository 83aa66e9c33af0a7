use vstd::prelude::*;

use crate::governor::{has_id, ids_unique, lemma_state_with_id, state_with_id, Governor, GovernorView};
use crate::state::State;

verus! {

impl<const N: usize, F: Fn(State, State) -> bool> Governor<N, F> {
    /// Registering a state and then, with no guard installed, transitioning to
    /// its identifier makes a state with that identifier current, provided the
    /// registry had room for it or already knew the identifier.
    pub proof fn lemma_register_then_transition(
        v: GovernorView,
        s: State,
        committed: bool,
        post: GovernorView,
    )
        requires
            ids_unique(v.states),
            v.states.len() <= N,
            has_id(v.states, s.id()) || v.states.len() < N,
            Self::transition_post(Self::registered(v, s), None, s.id(), committed, post),
        ensures
            committed,
            post.current.id() == s.id(),
    {
        let v1 = Self::registered(v, s);
        if !has_id(v.states, s.id()) {
            assert(v1.states[v.states.len() as int] == s);
        }
        assert(has_id(v1.states, s.id()));
        lemma_state_with_id(v1.states, s.id());
    }

    /// A second registration of an identifier fails and changes nothing, and
    /// the registry never holds two states with the same identifier.
    pub proof fn lemma_register_twice(v: GovernorView, s1: State, s2: State)
        requires
            ids_unique(v.states),
            v.states.len() <= N,
            s1.id() == s2.id(),
        ensures
            Self::register_outcome(Self::registered(v, s1), s2) is Err,
            Self::registered(Self::registered(v, s1), s2) == Self::registered(v, s1),
            Self::registered(Self::registered(v, s1), s2).current == v.current,
            Self::registered(Self::registered(v, s1), s2).previous == v.previous,
            ids_unique(Self::registered(Self::registered(v, s1), s2).states),
    {
        let v1 = Self::registered(v, s1);
        if Self::register_outcome(v, s1) is Ok {
            assert(v1.states[v.states.len() as int] == s1);
            assert(has_id(v1.states, s2.id()));
            assert forall|i: int, j: int|
                0 <= i < v1.states.len() && 0 <= j < v1.states.len() && i != j implies (
                #[trigger] v1.states[i]).id() != (#[trigger] v1.states[j]).id() by {
                if i < v.states.len() && j < v.states.len() {
                    assert(v.states[i] == v1.states[i] && v.states[j] == v1.states[j]);
                } else if i < v.states.len() {
                    assert(v.states[i] == v1.states[i]);
                } else {
                    assert(v.states[j] == v1.states[j]);
                }
            }
        }
    }

    /// Until a transition commits, the current state stays the sentinel:
    /// neither a registration nor a transition that did not commit moves it.
    pub proof fn lemma_sentinel_until_transition(
        v: GovernorView,
        s: State,
        guard: Option<F>,
        id: u8,
        post: GovernorView,
    )
        requires
            v.current.is_unknown(),
            Self::transition_post(v, guard, id, false, post),
        ensures
            Self::registered(v, s).current.is_unknown(),
            post.current.is_unknown(),
    {
    }

    /// With a guard that never approves, no transition commits, whatever the
    /// target, and the registry stays as it was.
    pub proof fn lemma_vetoing_guard(
        pre: GovernorView,
        g: F,
        id: u8,
        committed: bool,
        post: GovernorView,
    )
        requires
            forall|a: State, b: State, r: bool| call_ensures(g, (a, b), r) ==> !r,
            Self::transition_post(pre, Some(g), id, committed, post),
        ensures
            !committed,
            post == pre,
    {
    }

    /// With a guard that approves exactly when the candidate's identifier
    /// differs from the current one, a self-transition is refused and leaves
    /// the registry unchanged, while a transition to another registered
    /// identifier commits and makes the former current state previous.
    pub proof fn lemma_distinct_guard(
        pre: GovernorView,
        g: F,
        id: u8,
        committed: bool,
        post: GovernorView,
    )
        requires
            forall|a: State, b: State, r: bool|
                call_ensures(g, (a, b), r) ==> r == (b.id() != a.id()),
            has_id(pre.states, id),
            Self::transition_post(pre, Some(g), id, committed, post),
        ensures
            id == pre.current.id() ==> !committed && post == pre,
            id != pre.current.id() ==> committed && post.current.id() == id
                && post.previous.id() == pre.current.id(),
    {
        lemma_state_with_id(pre.states, id);
    }
}

} // verus!
