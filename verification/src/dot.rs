//! The dot product.

use crate::element::is_default;
use crate::vector::Vector;
use core::ops::{Add, Mul};
use vstd::prelude::*;
use vstd::std_specs::convert::IntoSpec;
use vstd::std_specs::ops::{AddSpec, MulSpec};

verus! {

/// The sum of the products `a[i] * b[i]`, each factor converted to `F` first,
/// accumulated from left to right starting from `zero`.
pub open spec fn dot_product<T: Into<F>, F: Add<Output = F> + Mul<Output = F>>(
    zero: F,
    a: Seq<T>,
    b: Seq<T>,
) -> F
    recommends
        a.len() == b.len(),
    decreases a.len(),
{
    if a.len() == 0 {
        zero
    } else {
        dot_product(zero, a.drop_last(), b.drop_last()).add_spec(
            a.last().into_spec().mul_spec(b.last().into_spec()),
        )
    }
}

/// Every product and every partial sum of the dot product is defined.
pub open spec fn dot_product_req<T: Into<F>, F: Add<Output = F> + Mul<Output = F>>(
    zero: F,
    a: Seq<T>,
    b: Seq<T>,
) -> bool
    recommends
        a.len() == b.len(),
    decreases a.len(),
{
    a.len() == 0 || {
        &&& dot_product_req(zero, a.drop_last(), b.drop_last())
        &&& a.last().into_spec().mul_req(b.last().into_spec())
        &&& dot_product(zero, a.drop_last(), b.drop_last()).add_req(
            a.last().into_spec().mul_spec(b.last().into_spec()),
        )
    }
}

/// Where the whole dot product is defined, so is that of the first `k` components.
proof fn lemma_prefix_req<T: Into<F>, F: Add<Output = F> + Mul<Output = F>>(
    zero: F,
    a: Seq<T>,
    b: Seq<T>,
    k: int,
)
    requires
        a.len() == b.len(),
        0 <= k <= a.len(),
        dot_product_req(zero, a, b),
    ensures
        dot_product_req(zero, a.take(k), b.take(k)),
    decreases a.len() - k,
{
    if k == a.len() {
        assert(a.take(k) =~= a);
        assert(b.take(k) =~= b);
    } else {
        lemma_prefix_req(zero, a, b, k + 1);
        assert(a.take(k + 1).drop_last() =~= a.take(k));
        assert(b.take(k + 1).drop_last() =~= b.take(k));
    }
}

impl<T: Copy, const N: usize> Vector<T, N> {
    /// The dot product of two vectors in the scalar type `F`: every component
    /// is converted to `F`, and the products are summed up from the first to
    /// the last, starting from `F::default()`.
    pub fn dot<F>(&self, vector: &Vector<T, N>) -> (result: F) where
        T: Into<F>,
        F: Add<Output = F> + Mul<Output = F> + Default,

        requires
            F::obeys_add_spec(),
            F::obeys_mul_spec(),
            <T as IntoSpec<F>>::obeys_into_spec(),
            forall|zero: F| is_default(zero) ==> dot_product_req(zero, self@, vector@),
        ensures
            exists|zero: F| #[trigger]
                is_default(zero) && result == dot_product(zero, self@, vector@),
    {
        let mut sum = F::default();
        let ghost start = sum;
        assert(is_default(start));
        for i in 0..N
            invariant
                F::obeys_add_spec(),
                F::obeys_mul_spec(),
                <T as IntoSpec<F>>::obeys_into_spec(),
                self@.len() == N,
                vector@.len() == N,
                dot_product_req(start, self@, vector@),
                sum == dot_product(start, self@.take(i as int), vector@.take(i as int)),
        {
            proof {
                lemma_prefix_req(start, self@, vector@, i + 1);
                assert(self@.take(i + 1).drop_last() =~= self@.take(i as int));
                assert(vector@.take(i + 1).drop_last() =~= vector@.take(i as int));
            }
            let x: F = self.data[i].into();
            let y: F = vector.data[i].into();
            sum = sum + x * y;
        }
        assert(self@.take(N as int) =~= self@);
        assert(vector@.take(N as int) =~= vector@);
        sum
    }
}

} // verus!
