//! Secant method: Newton's update with the derivative replaced by the slope
//! through the last two iterates.
use vstd::prelude::*;
use crate::algorithm::{RootFindingAlgorithm, RootFindingStep};
use crate::function::{apply, eval, pure_fn};
use crate::scalar::{Scalar, abs, abs_spec, exact_arith, minus, one, plus, quot, times};

verus! {

/// State of secant method.
#[derive(Copy, Clone, Debug)]
pub struct SecantMethodState<T> {
    /// The newest iterate.
    pub prev1: T,
    /// The iterate before it.
    pub prev2: T,
}

impl<T: Scalar> SecantMethodState<T> {
    /// Create a new SecantMethodState from one guess; the second point is
    /// `guess + 1`.
    pub fn new(guess: T) -> (r: Self)
        requires
            exact_arith::<T>(),
        ensures
            r.prev1 == guess,
            r.prev2 == plus(guess, one::<T>()),
    {
        Self { prev1: guess, prev2: guess + T::from(1u8) }
    }
}

/// Secant method solver.
#[derive(Clone, Debug)]
pub struct SecantMethodSolver<F> {
    /// The function whose root is sought.
    pub f: F,
}

/// The secant update from `x1` and `x2`, given `f(x1)` and `f(x2)`:
/// `x1 - f(x1) * (x1 - x2) / (f(x1) - f(x2))`.
pub open spec fn secant_update<T: Scalar>(x1: T, x2: T, f1: T, f2: T) -> T {
    minus(x1, quot(times(f1, minus(x1, x2)), minus(f1, f2)))
}

impl<T: Scalar, F: Fn(T) -> T> RootFindingStep<T> for SecantMethodSolver<F> {
    type State = SecantMethodState<T>;

    open spec fn well_formed(&self) -> bool {
        pure_fn(self.f)
    }

    open spec fn step(&self, state: SecantMethodState<T>) -> (SecantMethodState<T>, T) {
        let x1 = state.prev1;
        let x2 = state.prev2;
        let x_new = secant_update(x1, x2, apply(self.f, x1), apply(self.f, x2));
        (SecantMethodState { prev1: x_new, prev2: x1 }, abs_spec(apply(self.f, x_new)))
    }

    open spec fn residual(&self, state: SecantMethodState<T>) -> T {
        abs_spec(apply(self.f, state.prev1))
    }

    proof fn lemma_step_error(&self, state: SecantMethodState<T>) {
    }

    fn iterate_once(&mut self, state: SecantMethodState<T>) -> (r: (SecantMethodState<T>, T)) {
        let prev1 = state.prev1;
        let prev2 = state.prev2;
        let f1 = eval(&self.f, prev1);
        let f2 = eval(&self.f, prev2);
        let x_new = prev1 - f1 * (prev1 - prev2) / (f1 - f2);
        let error = abs(eval(&self.f, x_new));
        (SecantMethodState { prev1: x_new, prev2: prev1 }, error)
    }
}

impl<T: Scalar, F: Fn(T) -> T> RootFindingAlgorithm<T> for SecantMethodSolver<F> {

}

} // verus!
