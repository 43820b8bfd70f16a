//! Linear interpolation between two values.

use core::ops::{Add, Mul, Sub};
use vstd::prelude::*;
use vstd::std_specs::ops::{AddSpec, MulSpec, SubSpec};

verus! {

/// The value `x + (y - x) * t`.
pub open spec fn interpolated<T, S>(x: T, y: T, t: S) -> T where
    T: Add<Output = T> + Sub<Output = T> + Mul<S, Output = T>,
 {
    x.add_spec(y.sub_spec(x).mul_spec(t))
}

/// The difference, the product and the sum of the interpolation are defined.
pub open spec fn interpolated_req<T, S>(x: T, y: T, t: S) -> bool where
    T: Add<Output = T> + Sub<Output = T> + Mul<S, Output = T>,
 {
    &&& y.sub_req(x)
    &&& y.sub_spec(x).mul_req(t)
    &&& x.add_req(y.sub_spec(x).mul_spec(t))
}

/// Blends `x` and `y` by the factor `t`: `x + (y - x) * t`. The factor is not
/// clamped; one outside the unit interval extrapolates.
pub fn lerp<T, S>(x: T, y: T, t: S) -> (result: T) where
    T: Add<Output = T> + Sub<Output = T> + Mul<S, Output = T> + Copy,

    requires
        T::obeys_add_spec(),
        T::obeys_sub_spec(),
        <T as MulSpec<S>>::obeys_mul_spec(),
        interpolated_req(x, y, t),
    ensures
        result == interpolated(x, y, t),
{
    x + (y - x) * t
}

} // verus!
