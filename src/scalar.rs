//! The scalar type that the solvers compute over, and its model.
use vstd::prelude::*;
use vstd::std_specs::cmp::PartialOrdSpec;
use vstd::std_specs::convert::FromSpec;
use vstd::std_specs::ops::{AddSpec, DivSpec, MulSpec, SubSpec};
use core::cmp::Ordering;
use core::ops::{Add, Div, Mul, Sub};

verus! {

/// What the solvers need of a scalar: field-like arithmetic, a less-than
/// comparison and the identities, taken from small integers.
pub trait Scalar: Copy + PartialOrd + Add<Output = Self> + Sub<Output = Self> + Mul<
    Output = Self,
> + Div<Output = Self> + From<u8> {

}

impl<T> Scalar for T where
    T: Copy + PartialOrd + Add<Output = T> + Sub<Output = T> + Mul<Output = T> + Div<
        Output = T,
    > + From<u8>,
 {

}

/// The scalar type behaves as its spec functions say, and each operation is
/// defined on every pair of values.
pub open spec fn exact_arith<T: Scalar>() -> bool {
    &&& T::obeys_add_spec()
    &&& T::obeys_sub_spec()
    &&& T::obeys_mul_spec()
    &&& T::obeys_div_spec()
    &&& T::obeys_partial_cmp_spec()
    &&& T::obeys_from_spec()
    &&& forall|a: T, b: T|
        #![trigger a.add_req(b)]
        #![trigger a.sub_req(b)]
        #![trigger a.mul_req(b)]
        #![trigger a.div_req(b)]
        a.add_req(b) && a.sub_req(b) && a.mul_req(b) && a.div_req(b)
}

pub open spec fn zero<T: Scalar>() -> T {
    T::from_spec(0u8)
}

pub open spec fn one<T: Scalar>() -> T {
    T::from_spec(1u8)
}

/// `a < b`.
pub open spec fn less<T: Scalar>(a: T, b: T) -> bool {
    a.partial_cmp_spec(&b) == Some(Ordering::Less)
}

/// `|a|`: `a` negated when it is below zero.
pub open spec fn abs_spec<T: Scalar>(a: T) -> T {
    if less(a, zero::<T>()) {
        zero::<T>().sub_spec(a)
    } else {
        a
    }
}

/// `a + b`, `a - b`, `a * b`, `a / b` in the scalar type.
pub open spec fn plus<T: Scalar>(a: T, b: T) -> T {
    a.add_spec(b)
}

pub open spec fn minus<T: Scalar>(a: T, b: T) -> T {
    a.sub_spec(b)
}

pub open spec fn times<T: Scalar>(a: T, b: T) -> T {
    a.mul_spec(b)
}

pub open spec fn quot<T: Scalar>(a: T, b: T) -> T {
    a.div_spec(b)
}

/// The absolute value of `a`.
pub fn abs<T: Scalar>(a: T) -> (r: T)
    requires
        exact_arith::<T>(),
    ensures
        r == abs_spec(a),
{
    let z = T::from(0u8);
    if a < z {
        z - a
    } else {
        a
    }
}

} // verus!
