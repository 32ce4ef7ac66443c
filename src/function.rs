//! Caller-supplied scalar functions, modelled as mathematical functions.
use vstd::prelude::*;

verus! {

/// `f` accepts every argument and gives one result for each.
pub open spec fn pure_fn<T, F: Fn(T) -> T>(f: F) -> bool {
    &&& forall|x: T| #[trigger] call_requires(f, (x,))
    &&& forall|x: T, y1: T, y2: T|
        #[trigger] call_ensures(f, (x,), y1) && #[trigger] call_ensures(f, (x,), y2) ==> y1 == y2
}

/// The value of `f` at `x`.
pub open spec fn apply<T, F: Fn(T) -> T>(f: F, x: T) -> T {
    choose|y: T| call_ensures(f, (x,), y)
}

/// Calls `f` on `x`.
pub fn eval<T, F: Fn(T) -> T>(f: &F, x: T) -> (r: T)
    requires
        pure_fn(*f),
    ensures
        r == apply(*f, x),
{
    let r = f(x);
    assert(call_ensures(*f, (x,), r));
    r
}

} // verus!
