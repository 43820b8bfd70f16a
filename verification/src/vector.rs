//! The vector type, its construction and indexed access.

use core::ops::Index;
use vstd::prelude::*;

verus! {

/// An ordered sequence of exactly `N` components of type `T`.
///
/// The view of a vector is the sequence of its components, which always has
/// length `N`. Two vectors with equal views are equal.
#[derive(Debug, Clone, Copy)]
#[verifier::ext_equal]
pub struct Vector<T, const N: usize> {
    pub data: [T; N],
}

impl<T, const N: usize> View for Vector<T, N> {
    type V = Seq<T>;

    open spec fn view(&self) -> Seq<T> {
        self.data@
    }
}

/// `a` with its first `k` positions overwritten by the first `k` elements of `s`.
spec fn overwritten<T, const N: usize>(a: [T; N], s: Seq<T>, k: nat) -> [T; N]
    decreases k,
{
    if k == 0 {
        a
    } else {
        vstd::array::spec_array_update(overwritten(a, s, (k - 1) as nat), k - 1, s[k - 1])
    }
}

proof fn lemma_overwritten<T, const N: usize>(a: [T; N], s: Seq<T>, k: nat)
    requires
        k <= N,
    ensures
        forall|i: int| 0 <= i < k ==> overwritten(a, s, k)@[i] == s[i],
    decreases k,
{
    broadcast use vstd::array::group_array_axioms;

    if k > 0 {
        lemma_overwritten(a, s, (k - 1) as nat);
    }
}

impl<T, const N: usize> Vector<T, N> {
    /// The vector whose components are the elements of `s`, in order.
    /// Meaningful when `s` has exactly `N` elements.
    pub closed spec fn from_seq(s: Seq<T>) -> Self {
        Vector { data: overwritten(arbitrary(), s, N as nat) }
    }

    /// A sequence of `N` elements is the view of the vector built from it.
    pub proof fn lemma_from_seq(s: Seq<T>)
        requires
            s.len() == N,
        ensures
            Self::from_seq(s)@ == s,
    {
        broadcast use vstd::array::group_array_axioms;

        lemma_overwritten::<T, N>(arbitrary(), s, N as nat);
        assert(Self::from_seq(s)@ =~= s);
    }

    /// Vectors are determined by their components.
    pub proof fn lemma_equal_views(a: Self, b: Self)
        requires
            a@ == b@,
        ensures
            a == b,
    {
        broadcast use vstd::array::group_array_axioms;

        assert forall|i: int| 0 <= i < N implies a.data[i] == b.data[i] by {
            assert(a@[i] == b@[i]);
        }
        assert(a.data =~= b.data);
    }

    /// The length of the view is the dimension.
    pub proof fn lemma_dimension(self)
        ensures
            self@.len() == N,
    {
        broadcast use vstd::array::group_array_axioms;

    }
}

impl<T, const N: usize> Vector<T, N> where T: Copy + Default {
    /// Builds a vector from its `N` components.
    pub fn new(data: [T; N]) -> (v: Self)
        ensures
            v.data == data,
            v@ == data@,
    {
        Self { data }
    }
}

impl<T, const N: usize> vstd::std_specs::convert::FromSpecImpl<[T; N]> for Vector<T, N> {
    open spec fn obeys_from_spec() -> bool {
        true
    }

    open spec fn from_spec(data: [T; N]) -> Self {
        Vector { data }
    }
}

impl<T, const N: usize> From<[T; N]> for Vector<T, N> {
    /// Builds a vector from its `N` components.
    fn from(data: [T; N]) -> (v: Self)
        ensures
            v.data == data,
            v@ == data@,
    {
        Self { data }
    }
}

impl<T, const N: usize> vstd::std_specs::core::IndexSpecImpl<usize> for Vector<T, N> {
    /// Reading is defined for positions below the dimension only.
    open spec fn index_req(&self, index: &usize) -> bool {
        *index < N
    }
}

impl<T, const N: usize> Index<usize> for Vector<T, N> {
    type Output = T;

    /// The component at position `i`.
    fn index(&self, i: usize) -> (element: &T)
        ensures
            *element == self@[i as int],
    {
        &self.data[i]
    }
}

impl<T, const N: usize> Vector<T, N> {
    /// A mutable reference to the component at position `i`. Writing through
    /// it replaces that component and leaves the others as they were.
    ///
    /// This is an inherent method, since `IndexMut` leaves no room for the
    /// bound on `i`: where `v[i]` reads, `*v.index_mut(i) = x` writes.
    pub fn index_mut(&mut self, i: usize) -> (element: &mut T)
        requires
            i < N,
        ensures
            *element == old(self)@[i as int],
            final(self)@ == old(self)@.update(i as int, *final(element)),
    {
        &mut self.data[i]
    }
}

} // verus!
