//! The state cell every controller hands values through.
//!
//! A `SharedState` stores one state value and decides when a waiter may
//! proceed: once the value equals what the waiter asked for, or reports
//! itself dead.  The dead sentinel satisfies every wait, so controlled
//! shutdown never strands a blocked caller.  The concurrent wrapper that
//! owns the mutex and condition variable parks the waiting thread and
//! re-checks this cell's condition on every wakeup; the cell itself is
//! the single place that condition is defined.

use vstd::prelude::*;

verus! {

/// A state type with a designated "dead" sentinel that releases waiters.
pub trait IsDead: Sized {
    /// Which values count as dead.
    spec fn dead_spec(&self) -> bool;

    fn is_dead(&self) -> (r: bool)
        ensures
            r == self.dead_spec(),
    ;
}

/// Equality on state values, specified so that waiting on a state means
/// exactly what the specification says it means.
pub trait StateEq: Sized {
    /// What it means for two state values to be the same state.
    spec fn eq_spec(&self, other: &Self) -> bool;

    /// Every value is the same state as itself, so a wait for the value
    /// just stored is always satisfied.
    proof fn eq_spec_reflexive(&self)
        ensures
            self.eq_spec(self),
    ;

    fn state_eq(&self, other: &Self) -> (r: bool)
        ensures
            r == self.eq_spec(other),
    ;
}

/// A cell holding one state value of type `S`.
pub struct SharedState<S> {
    state: S,
}

impl<S: IsDead + StateEq + Copy> SharedState<S> {
    /// The value currently stored in the cell.
    pub closed spec fn current(&self) -> S {
        self.state
    }

    pub fn new(state: S) -> (r: Self)
        ensures
            r.current() == state,
    {
        SharedState { state }
    }

    /// Store `state`; every waiter re-checks its condition against it.
    pub fn set_state(&mut self, state: S)
        ensures
            final(self).current() == state,
    {
        self.state = state;
    }

    pub fn get_state(&self) -> (r: S)
        ensures
            r == self.current(),
    {
        self.state
    }

    /// Whether a wait for `state` completes: true once the stored value
    /// equals `state` or the cell is dead.  A waiting thread proceeds
    /// exactly when this returns true.
    pub fn await_state(&self, state: S) -> (r: bool)
        ensures
            r == (self.current().eq_spec(&state) || self.current().dead_spec()),
    {
        self.state.state_eq(&state) || self.state.is_dead()
    }

    /// Whether a wait on `condition` completes: true once the stored value
    /// satisfies `condition` or the cell is dead.
    pub fn await_until<F: Fn(S) -> bool>(&self, condition: F) -> (r: bool)
        requires
            forall|s: S| call_requires(condition, (s,)),
        ensures
            r ==> call_ensures(condition, (self.current(),), true)
                || self.current().dead_spec(),
            !r ==> call_ensures(condition, (self.current(),), false)
                && !self.current().dead_spec(),
    {
        condition(self.state) || self.state.is_dead()
    }
}

/// No lost wakeup, stated over the cell: after `set_state(s)` the cell's
/// value is `s`, and a wait for `s` on such a cell is satisfied, so a
/// waiter released by the store proceeds rather than blocking again.
pub proof fn lemma_wait_after_set<S: IsDead + StateEq + Copy>(cell: &SharedState<S>, s: S)
    requires
        cell.current() == s,
    ensures
        cell.current().eq_spec(&s) || cell.current().dead_spec(),
{
    s.eq_spec_reflexive();
}

} // verus!
