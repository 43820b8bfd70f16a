//! What the library knows about element types.
//!
//! The operations are generic: they work for any element type with the
//! required operators. The algebraic laws, however, hold only where those
//! operators are exact integer arithmetic. [`Integral`] captures that, and is
//! implemented for the primitive integer types.

use core::ops::{Add, Mul, Sub};
use vstd::prelude::*;
use vstd::std_specs::convert::IntoSpec;
use vstd::std_specs::ops::{AddSpec, MulSpec, SubSpec};

verus! {

/// `z` is a value that `T::default()` may return.
pub open spec fn is_default<T: Default>(z: T) -> bool {
    call_ensures(T::default, (), z)
}

/// An element type whose values stand for integers of a bounded range and
/// whose `+`, `-` and `*` are integer arithmetic, defined exactly when the
/// mathematical result is in range.
pub trait Integral: Copy + Default + Add<Output = Self> + Sub<Output = Self> + Mul<Output = Self> {
    /// The integer that `self` stands for.
    spec fn value(self) -> int;

    /// Whether `i` lies within the range of the type.
    spec fn representable(i: int) -> bool;

    /// Values are within range, which includes zero; distinct values stand
    /// for distinct integers; and the default value stands for zero.
    proof fn lemma_value(x: Self, y: Self)
        ensures
            Self::representable(0),
            Self::representable(x.value()),
            x.value() == y.value() ==> x == y,
            is_default(x) ==> x.value() == 0,
    ;

    /// The operators obey their specifications, which are integer addition,
    /// subtraction and multiplication on the values.
    proof fn lemma_operators(x: Self, y: Self)
        ensures
            Self::obeys_add_spec(),
            Self::obeys_sub_spec(),
            Self::obeys_mul_spec(),
            x.add_req(y) <==> Self::representable(x.value() + y.value()),
            x.add_req(y) ==> x.add_spec(y).value() == x.value() + y.value(),
            x.sub_req(y) <==> Self::representable(x.value() - y.value()),
            x.sub_req(y) ==> x.sub_spec(y).value() == x.value() - y.value(),
            x.mul_req(y) <==> Self::representable(x.value() * y.value()),
            x.mul_req(y) ==> x.mul_spec(y).value() == x.value() * y.value(),
    ;
}

/// Converting a `T` into an `F` keeps the integer that the value stands for.
pub open spec fn converts_exactly<T: Integral + Into<F>, F: Integral>() -> bool {
    forall|x: T| (#[trigger] IntoSpec::<F>::into_spec(x)).value() == x.value()
}

impl Integral for i8 {
    open spec fn value(self) -> int {
        self as int
    }

    open spec fn representable(i: int) -> bool {
        i8::MIN <= i <= i8::MAX
    }

    proof fn lemma_value(x: Self, y: Self) {
    }

    proof fn lemma_operators(x: Self, y: Self) {
    }
}

impl Integral for i16 {
    open spec fn value(self) -> int {
        self as int
    }

    open spec fn representable(i: int) -> bool {
        i16::MIN <= i <= i16::MAX
    }

    proof fn lemma_value(x: Self, y: Self) {
    }

    proof fn lemma_operators(x: Self, y: Self) {
    }
}

impl Integral for i32 {
    open spec fn value(self) -> int {
        self as int
    }

    open spec fn representable(i: int) -> bool {
        i32::MIN <= i <= i32::MAX
    }

    proof fn lemma_value(x: Self, y: Self) {
    }

    proof fn lemma_operators(x: Self, y: Self) {
    }
}

impl Integral for i64 {
    open spec fn value(self) -> int {
        self as int
    }

    open spec fn representable(i: int) -> bool {
        i64::MIN <= i <= i64::MAX
    }

    proof fn lemma_value(x: Self, y: Self) {
    }

    proof fn lemma_operators(x: Self, y: Self) {
    }
}

impl Integral for i128 {
    open spec fn value(self) -> int {
        self as int
    }

    open spec fn representable(i: int) -> bool {
        i128::MIN <= i <= i128::MAX
    }

    proof fn lemma_value(x: Self, y: Self) {
    }

    proof fn lemma_operators(x: Self, y: Self) {
    }
}

impl Integral for isize {
    open spec fn value(self) -> int {
        self as int
    }

    open spec fn representable(i: int) -> bool {
        isize::MIN <= i <= isize::MAX
    }

    proof fn lemma_value(x: Self, y: Self) {
    }

    proof fn lemma_operators(x: Self, y: Self) {
    }
}

impl Integral for u8 {
    open spec fn value(self) -> int {
        self as int
    }

    open spec fn representable(i: int) -> bool {
        u8::MIN <= i <= u8::MAX
    }

    proof fn lemma_value(x: Self, y: Self) {
    }

    proof fn lemma_operators(x: Self, y: Self) {
    }
}

impl Integral for u16 {
    open spec fn value(self) -> int {
        self as int
    }

    open spec fn representable(i: int) -> bool {
        u16::MIN <= i <= u16::MAX
    }

    proof fn lemma_value(x: Self, y: Self) {
    }

    proof fn lemma_operators(x: Self, y: Self) {
    }
}

impl Integral for u32 {
    open spec fn value(self) -> int {
        self as int
    }

    open spec fn representable(i: int) -> bool {
        u32::MIN <= i <= u32::MAX
    }

    proof fn lemma_value(x: Self, y: Self) {
    }

    proof fn lemma_operators(x: Self, y: Self) {
    }
}

impl Integral for u64 {
    open spec fn value(self) -> int {
        self as int
    }

    open spec fn representable(i: int) -> bool {
        u64::MIN <= i <= u64::MAX
    }

    proof fn lemma_value(x: Self, y: Self) {
    }

    proof fn lemma_operators(x: Self, y: Self) {
    }
}

impl Integral for u128 {
    open spec fn value(self) -> int {
        self as int
    }

    open spec fn representable(i: int) -> bool {
        u128::MIN <= i <= u128::MAX
    }

    proof fn lemma_value(x: Self, y: Self) {
    }

    proof fn lemma_operators(x: Self, y: Self) {
    }
}

impl Integral for usize {
    open spec fn value(self) -> int {
        self as int
    }

    open spec fn representable(i: int) -> bool {
        usize::MIN <= i <= usize::MAX
    }

    proof fn lemma_value(x: Self, y: Self) {
    }

    proof fn lemma_operators(x: Self, y: Self) {
    }
}

} // verus!
