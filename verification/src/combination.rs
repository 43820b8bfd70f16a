//! Weighted sums of vectors.

use crate::element::is_default;
use crate::vector::Vector;
use core::ops::{Add, Mul};
use vstd::pervasive::runtime_assert;
use vstd::prelude::*;
use vstd::std_specs::ops::{AddSpec, MulSpec};

verus! {

/// One step of a weighted sum: the sequence of `acc[j] + scalar * v[j]`.
pub open spec fn accumulated<T: Add<Output = T> + Mul<Output = T>>(
    acc: Seq<T>,
    scalar: T,
    v: Seq<T>,
) -> Seq<T> {
    Seq::new(acc.len(), |j: int| acc[j].add_spec(scalar.mul_spec(v[j])))
}

/// Every product and every sum of one step is defined.
pub open spec fn accumulated_req<T: Add<Output = T> + Mul<Output = T>>(
    acc: Seq<T>,
    scalar: T,
    v: Seq<T>,
) -> bool {
    forall|j: int|
        0 <= j < acc.len() ==> scalar.mul_req(#[trigger] v[j]) && acc[j].add_req(
            scalar.mul_spec(v[j]),
        )
}

/// The weighted sum `scalars[0] * vectors[0] + scalars[1] * vectors[1] + ...`,
/// accumulated from left to right in a vector whose components all start as
/// `zero`.
pub open spec fn weighted_sum<T: Add<Output = T> + Mul<Output = T>, const N: usize>(
    zero: T,
    vectors: Seq<Vector<T, N>>,
    scalars: Seq<T>,
) -> Seq<T>
    recommends
        vectors.len() == scalars.len(),
    decreases vectors.len(),
{
    if vectors.len() == 0 {
        Seq::new(N as nat, |j: int| zero)
    } else {
        accumulated(
            weighted_sum(zero, vectors.drop_last(), scalars.drop_last()),
            scalars.last(),
            vectors.last()@,
        )
    }
}

/// Every step of the weighted sum is defined.
pub open spec fn weighted_sum_req<T: Add<Output = T> + Mul<Output = T>, const N: usize>(
    zero: T,
    vectors: Seq<Vector<T, N>>,
    scalars: Seq<T>,
) -> bool
    recommends
        vectors.len() == scalars.len(),
    decreases vectors.len(),
{
    vectors.len() == 0 || {
        &&& weighted_sum_req(zero, vectors.drop_last(), scalars.drop_last())
        &&& accumulated_req(
            weighted_sum(zero, vectors.drop_last(), scalars.drop_last()),
            scalars.last(),
            vectors.last()@,
        )
    }
}

/// Where the whole sum is defined, so is the sum of the first `k` terms.
proof fn lemma_prefix_req<T: Add<Output = T> + Mul<Output = T>, const N: usize>(
    zero: T,
    vectors: Seq<Vector<T, N>>,
    scalars: Seq<T>,
    k: int,
)
    requires
        vectors.len() == scalars.len(),
        0 <= k <= vectors.len(),
        weighted_sum_req(zero, vectors, scalars),
    ensures
        weighted_sum_req(zero, vectors.take(k), scalars.take(k)),
    decreases vectors.len() - k,
{
    if k == vectors.len() {
        assert(vectors.take(k) =~= vectors);
        assert(scalars.take(k) =~= scalars);
    } else {
        lemma_prefix_req(zero, vectors, scalars, k + 1);
        assert(vectors.take(k + 1).drop_last() =~= vectors.take(k));
        assert(scalars.take(k + 1).drop_last() =~= scalars.take(k));
    }
}

/// The linear combination `scalars[0] * vectors[0] + ... ` of one or more
/// vectors, accumulated in a vector that starts with `T::default()` in every
/// component.
pub fn linear_combination<T, const N: usize>(
    vectors: &[Vector<T, N>],
    scalars: &[T],
) -> (result: Vector<T, N>) where T: Add<Output = T> + Mul<Output = T> + Default + Copy
    requires
        vectors@.len() > 0,
        vectors@.len() == scalars@.len(),
        T::obeys_add_spec(),
        T::obeys_mul_spec(),
        forall|zero: T| is_default(zero) ==> weighted_sum_req(zero, vectors@, scalars@),
    ensures
        exists|zero: T| #[trigger]
            is_default(zero) && result@ == weighted_sum(zero, vectors@, scalars@),
{
    runtime_assert(vectors.len() > 0);
    runtime_assert(vectors.len() == scalars.len());
    let zero = T::default();
    assert(is_default(zero));
    let mut result = [zero; N];
    assert(result@ =~= weighted_sum(zero, vectors@.take(0), scalars@.take(0)));
    for k in 0..vectors.len()
        invariant
            vectors@.len() == scalars@.len(),
            T::obeys_add_spec(),
            T::obeys_mul_spec(),
            weighted_sum_req(zero, vectors@, scalars@),
            result@ == weighted_sum(zero, vectors@.take(k as int), scalars@.take(k as int)),
    {
        let scalar = scalars[k];
        let vector = &vectors[k];
        let ghost before = result@;
        proof {
            lemma_prefix_req(zero, vectors@, scalars@, k + 1);
            assert(vectors@.take(k + 1).drop_last() =~= vectors@.take(k as int));
            assert(scalars@.take(k + 1).drop_last() =~= scalars@.take(k as int));
        }
        for j in 0..N
            invariant
                T::obeys_add_spec(),
                T::obeys_mul_spec(),
                accumulated_req(before, scalar, vector@),
                before.len() == N,
                forall|i: int| j <= i < N ==> result@[i] == before[i],
                forall|i: int|
                    0 <= i < j ==> result@[i] == before[i].add_spec(scalar.mul_spec(vector@[i])),
        {
            let x = result[j];
            let y = vector.data[j];
            result[j] = x + scalar * y;
        }
    }
    assert(vectors@.take(vectors@.len() as int) =~= vectors@);
    assert(scalars@.take(scalars@.len() as int) =~= scalars@);
    Vector::from(result)
}

} // verus!
