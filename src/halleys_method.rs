//! Halley's method: `x - 2 f f' / (2 f'^2 - f f'')`.
use vstd::prelude::*;
use crate::algorithm::{RootFindingAlgorithm, RootFindingStep};
use crate::function::{apply, eval, pure_fn};
use crate::scalar::{Scalar, abs, abs_spec, exact_arith, minus, plus, quot, times};

verus! {

/// State of Halley's method.
#[derive(Copy, Clone, Debug)]
pub struct HalleysMethodState<T> {
    pub prev_val: T,
}

impl<T: Copy> HalleysMethodState<T> {
    /// Create a new HalleysMethodState.
    pub fn new(prev_val: T) -> (r: Self)
        ensures
            r.prev_val == prev_val,
    {
        Self { prev_val }
    }
}

/// Halley's method solver.
#[derive(Clone, Debug)]
pub struct HalleysMethodSolver<F, D, E> {
    /// The function whose root is sought.
    pub f: F,
    /// Its first derivative.
    pub f_prime: D,
    /// Its second derivative.
    pub f_prime_prime: E,
}

/// Halley's update of `x`, given `f(x)`, `f'(x)` and `f''(x)`. Doubling is
/// written as a sum, so the scalar type needs no integer 2.
pub open spec fn halley_update<T: Scalar>(x: T, fx: T, dfx: T, ddfx: T) -> T {
    let n = times(fx, dfx);
    let numerator = plus(n, n);
    let sq = times(dfx, dfx);
    let denominator = minus(plus(sq, sq), times(fx, ddfx));
    minus(x, quot(numerator, denominator))
}

impl<T: Scalar, F: Fn(T) -> T, D: Fn(T) -> T, E: Fn(T) -> T> RootFindingStep<T> for HalleysMethodSolver<F, D, E> {
    type State = HalleysMethodState<T>;

    open spec fn well_formed(&self) -> bool {
        pure_fn(self.f) && pure_fn(self.f_prime) && pure_fn(self.f_prime_prime)
    }

    open spec fn step(&self, state: HalleysMethodState<T>) -> (HalleysMethodState<T>, T) {
        let x = state.prev_val;
        let x_new = halley_update(
            x,
            apply(self.f, x),
            apply(self.f_prime, x),
            apply(self.f_prime_prime, x),
        );
        (HalleysMethodState { prev_val: x_new }, abs_spec(apply(self.f, x_new)))
    }

    open spec fn residual(&self, state: HalleysMethodState<T>) -> T {
        abs_spec(apply(self.f, state.prev_val))
    }

    proof fn lemma_step_error(&self, state: HalleysMethodState<T>) {
    }

    fn iterate_once(&mut self, state: HalleysMethodState<T>) -> (r: (HalleysMethodState<T>, T)) {
        let prev_val = state.prev_val;
        let fx = eval(&self.f, prev_val);
        let dfx = eval(&self.f_prime, prev_val);

        let numerator = {
            let tmp = fx * dfx;
            tmp + tmp
        };
        let denominator = {
            let tmp = dfx * dfx;
            let tmp = tmp + tmp;
            tmp - fx * eval(&self.f_prime_prime, prev_val)
        };

        let x_new = prev_val - numerator / denominator;
        let error = abs(eval(&self.f, x_new));
        (HalleysMethodState { prev_val: x_new }, error)
    }
}

impl<T: Scalar, F: Fn(T) -> T, D: Fn(T) -> T, E: Fn(T) -> T> RootFindingAlgorithm<T> for HalleysMethodSolver<F, D, E> {

}

} // verus!
