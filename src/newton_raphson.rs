//! Newton-Raphson method: `x - f(x) / f'(x)`.
use vstd::prelude::*;
use crate::algorithm::{RootFindingAlgorithm, RootFindingStep};
use crate::function::{apply, eval, pure_fn};
use crate::scalar::{Scalar, abs, abs_spec, exact_arith, minus, quot};

verus! {

/// State of Newton-Raphson solver.
#[derive(Copy, Clone, Debug)]
pub struct NewtonRaphsonState<T> {
    pub prev_val: T,
}

impl<T: Copy> NewtonRaphsonState<T> {
    /// Create a new NewtonRaphsonState.
    pub fn new(prev_val: T) -> (r: Self)
        ensures
            r.prev_val == prev_val,
    {
        Self { prev_val }
    }
}

/// Newton-Raphson Solver.
#[derive(Clone, Debug)]
pub struct NewtonRaphsonSolver<F, D> {
    /// The function whose root is sought.
    pub f: F,
    /// Its derivative.
    pub f_prime: D,
}

/// The Newton-Raphson update of `x`, given `f(x)` and `f'(x)`.
pub open spec fn newton_update<T: Scalar>(x: T, fx: T, dfx: T) -> T {
    minus(x, quot(fx, dfx))
}

impl<T: Scalar, F: Fn(T) -> T, D: Fn(T) -> T> RootFindingStep<T> for NewtonRaphsonSolver<F, D> {
    type State = NewtonRaphsonState<T>;

    open spec fn well_formed(&self) -> bool {
        pure_fn(self.f) && pure_fn(self.f_prime)
    }

    open spec fn step(&self, state: NewtonRaphsonState<T>) -> (NewtonRaphsonState<T>, T) {
        let x = state.prev_val;
        let x_new = newton_update(x, apply(self.f, x), apply(self.f_prime, x));
        (NewtonRaphsonState { prev_val: x_new }, abs_spec(apply(self.f, x_new)))
    }

    open spec fn residual(&self, state: NewtonRaphsonState<T>) -> T {
        abs_spec(apply(self.f, state.prev_val))
    }

    proof fn lemma_step_error(&self, state: NewtonRaphsonState<T>) {
    }

    fn iterate_once(&mut self, state: NewtonRaphsonState<T>) -> (r: (NewtonRaphsonState<T>, T)) {
        let prev_val = state.prev_val;
        let x_new = prev_val - eval(&self.f, prev_val) / eval(&self.f_prime, prev_val);
        let error = abs(eval(&self.f, x_new));
        (NewtonRaphsonState { prev_val: x_new }, error)
    }
}

impl<T: Scalar, F: Fn(T) -> T, D: Fn(T) -> T> RootFindingAlgorithm<T> for NewtonRaphsonSolver<
    F,
    D,
> {

}

} // verus!
