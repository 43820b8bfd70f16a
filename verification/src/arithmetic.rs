//! Componentwise addition and subtraction, multiplication by a scalar, and the
//! cross product of three-dimensional vectors.
//!
//! The element type brings its own operators. Their specifications
//! (`add_req`, `add_spec`, and so on) say when an operation is defined and
//! what it yields; for the primitive integers that is ordinary arithmetic
//! without overflow. The contracts here lift those specifications to vectors.

use crate::vector::Vector;
use core::ops::{Add, Mul, Sub};
use vstd::prelude::*;
use vstd::std_specs::ops::{AddSpec, MulSpec, SubSpec};

verus! {

/// The sequence of sums `a[i] + b[i]`.
pub open spec fn sums<T: Add<Output = T>>(a: Seq<T>, b: Seq<T>) -> Seq<T> {
    Seq::new(a.len(), |i: int| a[i].add_spec(b[i]))
}

/// The sequence of differences `a[i] - b[i]`.
pub open spec fn differences<T: Sub<Output = T>>(a: Seq<T>, b: Seq<T>) -> Seq<T> {
    Seq::new(a.len(), |i: int| a[i].sub_spec(b[i]))
}

/// The sequence of products `a[i] * scalar`.
pub open spec fn multiples<T: Mul<Output = T>>(a: Seq<T>, scalar: T) -> Seq<T> {
    Seq::new(a.len(), |i: int| a[i].mul_spec(scalar))
}

impl<T: Add<Output = T> + Copy, const N: usize> vstd::std_specs::ops::AddSpecImpl for Vector<T, N> {
    open spec fn obeys_add_spec() -> bool {
        T::obeys_add_spec()
    }

    /// Every pair of corresponding components can be added.
    open spec fn add_req(self, rhs: Self) -> bool {
        forall|i: int| 0 <= i < N ==> (#[trigger] self@[i]).add_req(rhs@[i])
    }

    open spec fn add_spec(self, rhs: Self) -> Self {
        Vector::from_seq(sums(self@, rhs@))
    }
}

impl<T: Add<Output = T> + Copy, const N: usize> Add for Vector<T, N> {
    type Output = Self;

    /// The vector whose component `i` is `self[i] + v[i]`.
    fn add(self, v: Self) -> (result: Self)
        ensures
            forall|i: int|
                0 <= i < N ==> call_ensures(
                    <T as Add>::add,
                    (self@[i], v@[i]),
                    #[trigger] result@[i],
                ),
            T::obeys_add_spec() ==> result@ == sums(self@, v@),
    {
        let mut result = self;
        for i in 0..N
            invariant
                forall|j: int| 0 <= j < N ==> (#[trigger] self@[j]).add_req(v@[j]),
                forall|j: int| i <= j < N ==> result@[j] == self@[j],
                forall|j: int|
                    0 <= j < i ==> call_ensures(
                        <T as Add>::add,
                        (self@[j], v@[j]),
                        #[trigger] result@[j],
                    ),
                T::obeys_add_spec() ==> forall|j: int|
                    0 <= j < i ==> result@[j] == self@[j].add_spec(v@[j]),
        {
            let x = result.data[i];
            let y = v.data[i];
            assert(self@[i as int].add_req(v@[i as int]));
            result.data[i] = x + y;
        }
        proof {
            if T::obeys_add_spec() {
                assert(result@ =~= sums(self@, v@));
                Self::lemma_from_seq(sums(self@, v@));
                Self::lemma_equal_views(result, Self::from_seq(sums(self@, v@)));
            }
        }
        result
    }
}

impl<T: Sub<Output = T> + Copy, const N: usize> vstd::std_specs::ops::SubSpecImpl for Vector<T, N> {
    open spec fn obeys_sub_spec() -> bool {
        T::obeys_sub_spec()
    }

    /// Every pair of corresponding components can be subtracted.
    open spec fn sub_req(self, rhs: Self) -> bool {
        forall|i: int| 0 <= i < N ==> (#[trigger] self@[i]).sub_req(rhs@[i])
    }

    open spec fn sub_spec(self, rhs: Self) -> Self {
        Vector::from_seq(differences(self@, rhs@))
    }
}

impl<T: Sub<Output = T> + Copy, const N: usize> Sub for Vector<T, N> {
    type Output = Self;

    /// The vector whose component `i` is `self[i] - v[i]`.
    fn sub(self, v: Self) -> (result: Self)
        ensures
            forall|i: int|
                0 <= i < N ==> call_ensures(
                    <T as Sub>::sub,
                    (self@[i], v@[i]),
                    #[trigger] result@[i],
                ),
            T::obeys_sub_spec() ==> result@ == differences(self@, v@),
    {
        let mut result = self;
        for i in 0..N
            invariant
                forall|j: int| 0 <= j < N ==> (#[trigger] self@[j]).sub_req(v@[j]),
                forall|j: int| i <= j < N ==> result@[j] == self@[j],
                forall|j: int|
                    0 <= j < i ==> call_ensures(
                        <T as Sub>::sub,
                        (self@[j], v@[j]),
                        #[trigger] result@[j],
                    ),
                T::obeys_sub_spec() ==> forall|j: int|
                    0 <= j < i ==> result@[j] == self@[j].sub_spec(v@[j]),
        {
            let x = result.data[i];
            let y = v.data[i];
            assert(self@[i as int].sub_req(v@[i as int]));
            result.data[i] = x - y;
        }
        proof {
            if T::obeys_sub_spec() {
                assert(result@ =~= differences(self@, v@));
                Self::lemma_from_seq(differences(self@, v@));
                Self::lemma_equal_views(result, Self::from_seq(differences(self@, v@)));
            }
        }
        result
    }
}

impl<T: Mul<Output = T> + Copy, const N: usize> vstd::std_specs::ops::MulSpecImpl<T> for Vector<T, N> {
    open spec fn obeys_mul_spec() -> bool {
        T::obeys_mul_spec()
    }

    /// Every component can be multiplied by the scalar.
    open spec fn mul_req(self, scalar: T) -> bool {
        forall|i: int| 0 <= i < N ==> (#[trigger] self@[i]).mul_req(scalar)
    }

    open spec fn mul_spec(self, scalar: T) -> Self {
        Vector::from_seq(multiples(self@, scalar))
    }
}

impl<T: Mul<Output = T> + Copy, const N: usize> Mul<T> for Vector<T, N> {
    type Output = Self;

    /// The vector whose component `i` is `self[i] * scalar`.
    fn mul(self, scalar: T) -> (result: Self)
        ensures
            forall|i: int|
                0 <= i < N ==> call_ensures(
                    <T as Mul>::mul,
                    (self@[i], scalar),
                    #[trigger] result@[i],
                ),
            T::obeys_mul_spec() ==> result@ == multiples(self@, scalar),
    {
        let mut result = self;
        for i in 0..N
            invariant
                forall|j: int| 0 <= j < N ==> (#[trigger] self@[j]).mul_req(scalar),
                forall|j: int| i <= j < N ==> result@[j] == self@[j],
                forall|j: int|
                    0 <= j < i ==> call_ensures(
                        <T as Mul>::mul,
                        (self@[j], scalar),
                        #[trigger] result@[j],
                    ),
                T::obeys_mul_spec() ==> forall|j: int|
                    0 <= j < i ==> result@[j] == self@[j].mul_spec(scalar),
        {
            let x = result.data[i];
            assert(self@[i as int].mul_req(scalar));
            result.data[i] = x * scalar;
        }
        proof {
            if T::obeys_mul_spec() {
                assert(result@ =~= multiples(self@, scalar));
                Self::lemma_from_seq(multiples(self@, scalar));
                Self::lemma_equal_views(result, Self::from_seq(multiples(self@, scalar)));
            }
        }
        result
    }
}

/// The components of a sum of vectors are the sums of their components.
pub proof fn lemma_sum_view<T: Add<Output = T> + Copy, const N: usize>(
    a: Vector<T, N>,
    b: Vector<T, N>,
)
    ensures
        a.add_spec(b)@ == sums(a@, b@),
{
    a.lemma_dimension();
    Vector::<T, N>::lemma_from_seq(sums(a@, b@));
}

/// The components of a difference of vectors are the differences of their
/// components.
pub proof fn lemma_difference_view<T: Sub<Output = T> + Copy, const N: usize>(
    a: Vector<T, N>,
    b: Vector<T, N>,
)
    ensures
        a.sub_spec(b)@ == differences(a@, b@),
{
    a.lemma_dimension();
    Vector::<T, N>::lemma_from_seq(differences(a@, b@));
}

/// The components of a multiple of a vector are the multiples of its
/// components.
pub proof fn lemma_multiple_view<T: Mul<Output = T> + Copy, const N: usize>(
    a: Vector<T, N>,
    scalar: T,
)
    ensures
        a.mul_spec(scalar)@ == multiples(a@, scalar),
{
    a.lemma_dimension();
    Vector::<T, N>::lemma_from_seq(multiples(a@, scalar));
}

/// The three components of the cross product of `a` and `b`:
/// `[a1*b2 - a2*b1, a2*b0 - a0*b2, a0*b1 - a1*b0]`.
pub open spec fn cross_product<T: Mul<Output = T> + Sub<Output = T>>(a: Seq<T>, b: Seq<T>) -> Seq<
    T,
> {
    seq![
        a[1].mul_spec(b[2]).sub_spec(a[2].mul_spec(b[1])),
        a[2].mul_spec(b[0]).sub_spec(a[0].mul_spec(b[2])),
        a[0].mul_spec(b[1]).sub_spec(a[1].mul_spec(b[0])),
    ]
}

/// The six products and three differences of the cross product are all defined.
pub open spec fn cross_req<T: Mul<Output = T> + Sub<Output = T>>(a: Seq<T>, b: Seq<T>) -> bool {
    &&& a[1].mul_req(b[2])
    &&& a[2].mul_req(b[1])
    &&& a[1].mul_spec(b[2]).sub_req(a[2].mul_spec(b[1]))
    &&& a[2].mul_req(b[0])
    &&& a[0].mul_req(b[2])
    &&& a[2].mul_spec(b[0]).sub_req(a[0].mul_spec(b[2]))
    &&& a[0].mul_req(b[1])
    &&& a[1].mul_req(b[0])
    &&& a[0].mul_spec(b[1]).sub_req(a[1].mul_spec(b[0]))
}

impl<T> Vector<T, 3> where T: Mul<Output = T> + Sub<Output = T> + Copy {
    /// The cross product of two three-dimensional vectors.
    pub fn cross(&self, v: &Vector<T, 3>) -> (result: Vector<T, 3>)
        requires
            T::obeys_mul_spec(),
            T::obeys_sub_spec(),
            cross_req(self@, v@),
        ensures
            result@ == cross_product(self@, v@),
    {
        let result = Vector {
            data: [
                self.data[1] * v.data[2] - self.data[2] * v.data[1],
                self.data[2] * v.data[0] - self.data[0] * v.data[2],
                self.data[0] * v.data[1] - self.data[1] * v.data[0],
            ],
        };
        assert(result@ =~= cross_product(self@, v@));
        result
    }
}

} // verus!
