//! The capability shared by every root finder, and the convergence loop
//! built once on top of it.
use vstd::prelude::*;
use crate::scalar::{Scalar, exact_arith, less};

verus! {

/// Outcome of a run of a root finder.
#[derive(Copy, Clone, Debug, PartialEq, Eq, Structural)]
pub enum RootFindingResult<S> {
    /// The state whose step brought the error below the tolerance.
    Found(S),
    /// The iteration budget ran out first.
    MaxIterReached,
}

/// One step of an iterative root finder: its state and its update rule.
pub trait RootFindingStep<T: Scalar>: Sized {
    /// State of the root-finding algorithm.
    type State: Copy;

    /// The solver's functions can be called on every value.
    spec fn well_formed(&self) -> bool;

    /// The state that one step leads to from `state`, and its error.
    spec fn step(&self, state: Self::State) -> (Self::State, T);

    /// The residual `|f(x)|` at the newest iterate of `state`.
    spec fn residual(&self, state: Self::State) -> T;

    /// The error of a step is the residual of the state it leads to.
    proof fn lemma_step_error(&self, state: Self::State)
        requires
            self.well_formed(),
            exact_arith::<T>(),
        ensures
            self.step(state).1 == self.residual(self.step(state).0),
    ;

    /// Perform 1 iteration of the algorithm.
    fn iterate_once(&mut self, state: Self::State) -> (r: (Self::State, T))
        requires
            old(self).well_formed(),
            exact_arith::<T>(),
        ensures
            *final(self) == *old(self),
            r == old(self).step(state),
    ;
}

/// The result of `solve` from `state` with `n` iterations left: step, stop
/// with `Found` as soon as the error is below the tolerance, and give up when
/// no iteration is left.
pub open spec fn solve_spec<T: Scalar, A: RootFindingStep<T>>(
    a: A,
    state: A::State,
    tolerance: T,
    n: nat,
) -> RootFindingResult<A::State>
    decreases n,
{
    if n == 0 {
        RootFindingResult::MaxIterReached
    } else {
        let (next, error) = a.step(state);
        if less(error, tolerance) {
            RootFindingResult::Found(next)
        } else {
            solve_spec(a, next, tolerance, (n - 1) as nat)
        }
    }
}

/// With no iteration allowed, `solve` gives up at once, whatever the state
/// and the tolerance.
pub proof fn lemma_zero_budget<T: Scalar, A: RootFindingStep<T>>(
    a: A,
    state: A::State,
    tolerance: T,
)
    ensures
        solve_spec(a, state, tolerance, 0) == RootFindingResult::<A::State>::MaxIterReached,
{
}

/// Convergence is tested only after a step: when the first step's error is
/// already below the tolerance, `solve` returns the state of that one step.
pub proof fn lemma_first_step_converges<T: Scalar, A: RootFindingStep<T>>(
    a: A,
    state: A::State,
    tolerance: T,
    n: nat,
)
    requires
        n > 0,
        less(a.step(state).1, tolerance),
    ensures
        solve_spec(a, state, tolerance, n) == RootFindingResult::Found(a.step(state).0),
{
}

/// A state that `solve` reports as found has a residual below the tolerance.
pub proof fn lemma_found_within_tolerance<T: Scalar, A: RootFindingStep<T>>(
    a: A,
    state: A::State,
    tolerance: T,
    n: nat,
)
    requires
        a.well_formed(),
        exact_arith::<T>(),
    ensures
        solve_spec(a, state, tolerance, n) matches RootFindingResult::Found(s) ==> less(
            a.residual(s),
            tolerance,
        ),
    decreases n,
{
    if n > 0 {
        a.lemma_step_error(state);
        lemma_found_within_tolerance(a, a.step(state).0, tolerance, (n - 1) as nat);
    }
}

/// `solve` is a function of its inputs: the same solver, initial state,
/// tolerance and budget give the same result.
pub proof fn lemma_solve_deterministic<T: Scalar, A: RootFindingStep<T>>(
    a1: A,
    a2: A,
    state1: A::State,
    state2: A::State,
    tolerance: T,
    n: nat,
)
    requires
        a1 == a2,
        state1 == state2,
    ensures
        solve_spec(a1, state1, tolerance, n) == solve_spec(a2, state2, tolerance, n),
{
}

/// Base trait for a root-finding algorithm.
pub trait RootFindingAlgorithm<T: Scalar>: RootFindingStep<T> {
    /// Find the root (within a tolerance, given a maximum number of iterations.)
    /// The solver is left as it was, so a second call with the same inputs
    /// returns the same result.
    fn solve(&mut self, initial_state: Self::State, tolerance: T, max_iter: u64) -> (r:
        RootFindingResult<Self::State>)
        requires
            old(self).well_formed(),
            exact_arith::<T>(),
        ensures
            *final(self) == *old(self),
            r == solve_spec(*old(self), initial_state, tolerance, max_iter as nat),
    {
        let mut state = initial_state;
        let mut iter: u64 = max_iter;
        while iter > 0
            invariant
                self.well_formed(),
                exact_arith::<T>(),
                *self == *old(self),
                solve_spec(*self, initial_state, tolerance, max_iter as nat) == solve_spec(
                    *self,
                    state,
                    tolerance,
                    iter as nat,
                ),
            decreases iter,
        {
            let (next, error) = self.iterate_once(state);
            if error < tolerance {
                return RootFindingResult::Found(next);
            }
            state = next;
            iter = iter - 1;
        }
        RootFindingResult::MaxIterReached
    }
}

} // verus!
