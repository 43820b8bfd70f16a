//! Equality of vectors: component by component.

use crate::vector::Vector;
use vstd::prelude::*;
use vstd::std_specs::cmp::PartialEqSpec;

verus! {

impl<T: PartialEq, const N: usize> vstd::std_specs::cmp::PartialEqSpecImpl for Vector<T, N> {
    open spec fn obeys_eq_spec() -> bool {
        T::obeys_eq_spec()
    }

    /// Two vectors are equal when all their corresponding components are.
    open spec fn eq_spec(&self, other: &Self) -> bool {
        forall|i: int| 0 <= i < N ==> (#[trigger] self@[i]).eq_spec(&other@[i])
    }
}

impl<T: PartialEq, const N: usize> PartialEq for Vector<T, N> {
    /// Whether all pairs of corresponding components compare equal: `true`
    /// when `==` said so of every pair, `false` when it denied it of one.
    fn eq(&self, vector: &Self) -> (equal: bool)
        ensures
            equal ==> forall|i: int|
                0 <= i < N ==> call_ensures(T::eq, (&#[trigger] self@[i], &vector@[i]), true),
            !equal ==> exists|i: int|
                0 <= i < N && call_ensures(T::eq, (&#[trigger] self@[i], &vector@[i]), false),
    {
        let mut equal = true;
        for i in 0..N
            invariant
                equal ==> forall|j: int|
                    0 <= j < i ==> call_ensures(T::eq, (&#[trigger] self@[j], &vector@[j]), true),
                !equal ==> exists|j: int|
                    0 <= j < i && call_ensures(T::eq, (&#[trigger] self@[j], &vector@[j]), false),
                T::obeys_eq_spec() ==> (equal <==> forall|j: int|
                    0 <= j < i ==> (#[trigger] self@[j]).eq_spec(&vector@[j])),
        {
            let same = self.data[i] == vector.data[i];
            proof {
                assert(call_ensures(T::eq, (&self@[i as int], &vector@[i as int]), same));
                if T::obeys_eq_spec() {
                    assert(same == self@[i as int].eq_spec(&vector@[i as int]));
                    if equal && same {
                        assert forall|j: int| 0 <= j < i + 1 implies (#[trigger] self@[j]).eq_spec(
                            &vector@[j],
                        ) by {
                            if j == i {
                            }
                        }
                    }
                }
            }
            equal = equal && same;
        }
        equal
    }
}

} // verus!
