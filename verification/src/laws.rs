//! Algebraic laws of the vector operations over integer element types.
//!
//! Each law is stated over the specifications that the operations' own
//! contracts use, and holds wherever the operations involved are defined, that
//! is, wherever no component leaves the element type's range.

use crate::arithmetic::{cross_product, cross_req, lemma_multiple_view, lemma_sum_view, sums};
use crate::combination::{weighted_sum, weighted_sum_req};
use crate::dot::{dot_product, dot_product_req};
use crate::element::{converts_exactly, is_default, Integral};
use crate::interpolation::{interpolated, interpolated_req};
use crate::vector::Vector;
use vstd::prelude::*;
use vstd::std_specs::convert::IntoSpec;
use vstd::std_specs::ops::{AddSpec, MulSpec, SubSpec};

verus! {

/// Every component of `v` stands for zero.
pub open spec fn is_zero_vector<T: Integral, const N: usize>(v: Vector<T, N>) -> bool {
    forall|i: int| 0 <= i < N ==> (#[trigger] v@[i]).value() == 0
}

/// Addition is commutative: `a + b == b + a`.
pub proof fn add_commutative<T: Integral, const N: usize>(a: Vector<T, N>, b: Vector<T, N>)
    requires
        a.add_req(b),
    ensures
        b.add_req(a),
        a.add_spec(b) == b.add_spec(a),
{
    lemma_sum_view(a, b);
    lemma_sum_view(b, a);
    a.lemma_dimension();
    b.lemma_dimension();
    assert forall|i: int| 0 <= i < N implies (#[trigger] b@[i]).add_req(a@[i]) && sums(a@, b@)[i]
        == sums(b@, a@)[i] by {
        assert(a@[i].add_req(b@[i]));
        T::lemma_operators(a@[i], b@[i]);
        T::lemma_operators(b@[i], a@[i]);
        T::lemma_value(a@[i].add_spec(b@[i]), b@[i].add_spec(a@[i]));
    }
    assert(sums(a@, b@) =~= sums(b@, a@));
    Vector::lemma_equal_views(a.add_spec(b), b.add_spec(a));
}

/// Addition is associative: `(a + b) + c == a + (b + c)`, where both sides
/// are defined.
pub proof fn add_associative<T: Integral, const N: usize>(
    a: Vector<T, N>,
    b: Vector<T, N>,
    c: Vector<T, N>,
)
    requires
        a.add_req(b),
        a.add_spec(b).add_req(c),
        b.add_req(c),
        a.add_req(b.add_spec(c)),
    ensures
        a.add_spec(b).add_spec(c) == a.add_spec(b.add_spec(c)),
{
    let ab = a.add_spec(b);
    let bc = b.add_spec(c);
    lemma_sum_view(a, b);
    lemma_sum_view(b, c);
    lemma_sum_view(ab, c);
    lemma_sum_view(a, bc);
    a.lemma_dimension();
    b.lemma_dimension();
    assert forall|i: int| 0 <= i < N implies sums(ab@, c@)[i] == sums(a@, bc@)[i] by {
        T::lemma_operators(a@[i], b@[i]);
        T::lemma_operators(ab@[i], c@[i]);
        T::lemma_operators(b@[i], c@[i]);
        T::lemma_operators(a@[i], bc@[i]);
        T::lemma_value(ab@[i].add_spec(c@[i]), a@[i].add_spec(bc@[i]));
    }
    assert(sums(ab@, c@) =~= sums(a@, bc@));
    Vector::lemma_equal_views(ab.add_spec(c), a.add_spec(bc));
}

/// A vector and its multiple by minus one add up to the zero vector:
/// `a + a * (-1) == 0`, where the multiple is defined.
pub proof fn add_negation_is_zero<T: Integral, const N: usize>(a: Vector<T, N>, minus_one: T)
    requires
        minus_one.value() == -1,
        a.mul_req(minus_one),
    ensures
        a.add_req(a.mul_spec(minus_one)),
        is_zero_vector(a.add_spec(a.mul_spec(minus_one))),
{
    let negated = a.mul_spec(minus_one);
    lemma_multiple_view(a, minus_one);
    lemma_sum_view(a, negated);
    a.lemma_dimension();
    assert forall|i: int| 0 <= i < N implies (#[trigger] a@[i]).add_req(negated@[i]) && sums(
        a@,
        negated@,
    )[i].value() == 0 by {
        assert(a@[i].mul_req(minus_one));
        T::lemma_operators(a@[i], minus_one);
        T::lemma_operators(a@[i], negated@[i]);
        T::lemma_value(a@[i], minus_one);
        assert(a@[i].value() * minus_one.value() == -a@[i].value()) by (nonlinear_arith)
            requires
                minus_one.value() == -1,
        ;
    }
    assert forall|i: int| 0 <= i < N implies (#[trigger] a.add_spec(negated)@[i]).value() == 0 by {
        assert(a.add_spec(negated)@[i] == sums(a@, negated@)[i]);
    }
}

/// The linear combination of one vector with the scalar one is that vector.
pub proof fn combination_of_one_vector<T: Integral, const N: usize>(
    zero: T,
    v: Vector<T, N>,
    one: T,
)
    requires
        is_default(zero),
        one.value() == 1,
    ensures
        weighted_sum_req(zero, seq![v], seq![one]),
        weighted_sum(zero, seq![v], seq![one]) == v@,
{
    reveal_with_fuel(weighted_sum, 2);
    reveal_with_fuel(weighted_sum_req, 2);
    v.lemma_dimension();
    let vectors = seq![v];
    let scalars = seq![one];
    assert(vectors.drop_last().len() == 0);
    T::lemma_value(zero, one);
    assert forall|j: int| 0 <= j < N implies one.mul_req(#[trigger] v@[j]) && zero.add_req(
        one.mul_spec(v@[j]),
    ) && zero.add_spec(one.mul_spec(v@[j])) == v@[j] by {
        T::lemma_value(v@[j], v@[j]);
        T::lemma_operators(one, v@[j]);
        T::lemma_operators(zero, one.mul_spec(v@[j]));
        T::lemma_value(zero.add_spec(one.mul_spec(v@[j])), v@[j]);
    }
    assert(weighted_sum(zero, vectors, scalars) =~= v@);
}

/// The linear combination of two vectors with both scalars one is their sum.
pub proof fn combination_of_two_vectors<T: Integral, const N: usize>(
    zero: T,
    v1: Vector<T, N>,
    v2: Vector<T, N>,
    one: T,
)
    requires
        is_default(zero),
        one.value() == 1,
        v1.add_req(v2),
    ensures
        weighted_sum_req(zero, seq![v1, v2], seq![one, one]),
        weighted_sum(zero, seq![v1, v2], seq![one, one]) == v1.add_spec(v2)@,
{
    v1.lemma_dimension();
    v2.lemma_dimension();
    lemma_sum_view(v1, v2);
    combination_of_one_vector(zero, v1, one);
    let vectors = seq![v1, v2];
    let scalars = seq![one, one];
    assert(vectors.drop_last() =~= seq![v1]);
    assert(scalars.drop_last() =~= seq![one]);
    assert(vectors.last() == v2);
    assert(scalars.last() == one);
    assert forall|j: int| 0 <= j < N implies one.mul_req(#[trigger] v2@[j]) && v1@[j].add_req(
        one.mul_spec(v2@[j]),
    ) && v1@[j].add_spec(one.mul_spec(v2@[j])) == v1@[j].add_spec(v2@[j]) by {
        assert(v1@[j].add_req(v2@[j]));
        T::lemma_value(v2@[j], v2@[j]);
        T::lemma_operators(one, v2@[j]);
        T::lemma_value(one.mul_spec(v2@[j]), v2@[j]);
    }
    assert(weighted_sum(zero, vectors, scalars) =~= sums(v1@, v2@));
}

/// Interpolating with the factor zero gives the first value.
pub proof fn lerp_at_zero<T: Integral>(x: T, y: T, zero: T)
    requires
        zero.value() == 0,
        y.sub_req(x),
    ensures
        interpolated_req(x, y, zero),
        interpolated(x, y, zero) == x,
{
    let difference = y.sub_spec(x);
    T::lemma_operators(difference, zero);
    T::lemma_value(x, x);
    T::lemma_operators(x, difference.mul_spec(zero));
    T::lemma_value(interpolated(x, y, zero), x);
}

/// Interpolating with the factor one gives the second value.
pub proof fn lerp_at_one<T: Integral>(x: T, y: T, one: T)
    requires
        one.value() == 1,
        y.sub_req(x),
    ensures
        interpolated_req(x, y, one),
        interpolated(x, y, one) == y,
{
    let difference = y.sub_spec(x);
    T::lemma_operators(y, x);
    T::lemma_value(difference, y);
    T::lemma_value(y, x);
    assert(difference.value() * one.value() == difference.value()) by (nonlinear_arith)
        requires
            one.value() == 1,
    ;
    T::lemma_operators(difference, one);
    T::lemma_operators(x, difference.mul_spec(one));
    T::lemma_value(interpolated(x, y, one), y);
}

proof fn lemma_dot_symmetric<T: Into<F>, F: Integral>(zero: F, a: Seq<T>, b: Seq<T>)
    requires
        a.len() == b.len(),
        dot_product_req(zero, a, b),
    ensures
        dot_product_req(zero, b, a),
        dot_product(zero, a, b) == dot_product(zero, b, a),
    decreases a.len(),
{
    if a.len() > 0 {
        lemma_dot_symmetric(zero, a.drop_last(), b.drop_last());
        let x: F = a.last().into_spec();
        let y: F = b.last().into_spec();
        F::lemma_operators(x, y);
        F::lemma_operators(y, x);
        assert(x.value() * y.value() == y.value() * x.value()) by (nonlinear_arith);
        F::lemma_value(x.mul_spec(y), y.mul_spec(x));
    }
}

/// The dot product is symmetric: `dot(a, b) == dot(b, a)`.
pub proof fn dot_symmetric<T: Into<F>, F: Integral, const N: usize>(
    zero: F,
    a: Vector<T, N>,
    b: Vector<T, N>,
)
    requires
        dot_product_req(zero, a@, b@),
    ensures
        dot_product_req(zero, b@, a@),
        dot_product(zero, a@, b@) == dot_product(zero, b@, a@),
{
    a.lemma_dimension();
    b.lemma_dimension();
    lemma_dot_symmetric(zero, a@, b@);
}

/// The value of a dot product of three components that starts from zero.
proof fn lemma_dot_of_three<T: Integral + Into<F>, F: Integral>(zero: F, c: Seq<T>, a: Seq<T>)
    requires
        zero.value() == 0,
        converts_exactly::<T, F>(),
        c.len() == 3,
        a.len() == 3,
        dot_product_req(zero, c, a),
    ensures
        dot_product(zero, c, a).value() == c[0].value() * a[0].value() + c[1].value()
            * a[1].value() + c[2].value() * a[2].value(),
{
    reveal_with_fuel(dot_product, 4);
    reveal_with_fuel(dot_product_req, 4);
    let c2 = c.drop_last();
    let a2 = a.drop_last();
    let c1 = c2.drop_last();
    let a1 = a2.drop_last();
    assert(c1.drop_last().len() == 0);
    let first: F = IntoSpec::<F>::into_spec(c[0]).mul_spec(IntoSpec::<F>::into_spec(a[0]));
    let second: F = IntoSpec::<F>::into_spec(c[1]).mul_spec(IntoSpec::<F>::into_spec(a[1]));
    let third: F = IntoSpec::<F>::into_spec(c[2]).mul_spec(IntoSpec::<F>::into_spec(a[2]));
    let d1 = dot_product(zero, c1, a1);
    let d2 = dot_product(zero, c2, a2);
    assert(c1.last() == c[0] && a1.last() == a[0]);
    assert(c2.last() == c[1] && a2.last() == a[1]);
    assert(c.last() == c[2] && a.last() == a[2]);
    F::lemma_operators(IntoSpec::<F>::into_spec(c[0]), IntoSpec::<F>::into_spec(a[0]));
    F::lemma_operators(IntoSpec::<F>::into_spec(c[1]), IntoSpec::<F>::into_spec(a[1]));
    F::lemma_operators(IntoSpec::<F>::into_spec(c[2]), IntoSpec::<F>::into_spec(a[2]));
    F::lemma_operators(zero, first);
    assert(d1 == zero.add_spec(first));
    F::lemma_operators(d1, second);
    assert(d2 == d1.add_spec(second));
    F::lemma_operators(d2, third);
}

/// The values of the three components of a cross product.
proof fn lemma_cross_values<T: Integral>(a: Seq<T>, b: Seq<T>)
    requires
        a.len() == 3,
        b.len() == 3,
        cross_req(a, b),
    ensures
        cross_product(a, b)[0].value() == a[1].value() * b[2].value() - a[2].value()
            * b[1].value(),
        cross_product(a, b)[1].value() == a[2].value() * b[0].value() - a[0].value()
            * b[2].value(),
        cross_product(a, b)[2].value() == a[0].value() * b[1].value() - a[1].value()
            * b[0].value(),
{
    T::lemma_operators(a[1], b[2]);
    T::lemma_operators(a[2], b[1]);
    T::lemma_operators(a[1].mul_spec(b[2]), a[2].mul_spec(b[1]));
    T::lemma_operators(a[2], b[0]);
    T::lemma_operators(a[0], b[2]);
    T::lemma_operators(a[2].mul_spec(b[0]), a[0].mul_spec(b[2]));
    T::lemma_operators(a[0], b[1]);
    T::lemma_operators(a[1], b[0]);
    T::lemma_operators(a[0].mul_spec(b[1]), a[1].mul_spec(b[0]));
}

/// The cross product is orthogonal to both of its operands:
/// `dot(cross(a, b), a) == 0` and `dot(cross(a, b), b) == 0`.
pub proof fn cross_orthogonal<T: Integral + Into<F>, F: Integral>(
    zero: F,
    a: Vector<T, 3>,
    b: Vector<T, 3>,
)
    requires
        is_default(zero),
        converts_exactly::<T, F>(),
        cross_req(a@, b@),
        dot_product_req(zero, cross_product(a@, b@), a@),
        dot_product_req(zero, cross_product(a@, b@), b@),
    ensures
        dot_product(zero, cross_product(a@, b@), a@).value() == 0,
        dot_product(zero, cross_product(a@, b@), b@).value() == 0,
{
    a.lemma_dimension();
    b.lemma_dimension();
    F::lemma_value(zero, zero);
    let c = cross_product(a@, b@);
    lemma_cross_values(a@, b@);
    lemma_dot_of_three(zero, c, a@);
    lemma_dot_of_three(zero, c, b@);
    let (a0, a1, a2) = (a@[0].value(), a@[1].value(), a@[2].value());
    let (b0, b1, b2) = (b@[0].value(), b@[1].value(), b@[2].value());
    assert((a1 * b2 - a2 * b1) * a0 + (a2 * b0 - a0 * b2) * a1 + (a0 * b1 - a1 * b0) * a2 == 0)
        by (nonlinear_arith);
    assert((a1 * b2 - a2 * b1) * b0 + (a2 * b0 - a0 * b2) * b1 + (a0 * b1 - a1 * b0) * b2 == 0)
        by (nonlinear_arith);
}

} // verus!
