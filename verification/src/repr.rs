//! The specification model behind every conversion: each fixed-width integer
//! type is described by its two's-complement bit pattern, its numeric value,
//! its modulus (one more than the largest bit pattern, i.e. 2 to the width),
//! and its signedness.

use vstd::prelude::*;

verus! {

/// The numeric value that a bit pattern `bits` denotes in a type with the
/// given signedness and modulus: the pattern itself for unsigned types and
/// for small patterns of signed types, and `bits - modulus` for patterns
/// with the sign bit set.
pub open spec fn val_of(signed: bool, bits: nat, modulus: nat) -> int {
    if signed && 2 * bits >= modulus {
        bits - modulus
    } else {
        bits as int
    }
}

/// The specification model of a fixed-width integer type.
///
/// `bits` is the value's two's-complement bit pattern read as a natural
/// number, `val` its numeric value, `modulus` the count of distinct bit
/// patterns (2 to the type's width), and `signed` the type's signedness.
/// `lemma_repr` ties the pieces together, and `lemma_injective` states that
/// a value of the type is determined by its bit pattern.
pub trait IntRepr: Copy + Sized {
    /// The two's-complement bit pattern of `self`, as a natural number.
    spec fn bits(self) -> nat;

    /// The numeric value of `self`.
    spec fn val(self) -> int;

    /// One more than the largest bit pattern of the type: 2 to the width.
    spec fn modulus() -> nat;

    /// Whether the type is two's-complement signed.
    spec fn signed() -> bool;

    /// The bit pattern is in range and denotes the numeric value.
    proof fn lemma_repr(self)
        ensures
            self.bits() < Self::modulus(),
            self.val() == val_of(Self::signed(), self.bits(), Self::modulus()),
            Self::modulus() >= 4,
    ;

    /// Two values of the type with the same bit pattern are equal.
    proof fn lemma_injective(a: Self, b: Self)
        ensures
            a.bits() == b.bits() ==> a == b,
    ;
}

/// Two values of one type with the same numeric value are equal.
pub proof fn lemma_val_injective<T: IntRepr>(a: T, b: T)
    ensures
        a.val() == b.val() ==> a == b,
{
    T::lemma_repr(a);
    T::lemma_repr(b);
    T::lemma_injective(a, b);
}

impl IntRepr for u8 {
    open spec fn bits(self) -> nat {
        self as nat
    }

    open spec fn val(self) -> int {
        self as int
    }

    open spec fn modulus() -> nat {
        0x100
    }

    open spec fn signed() -> bool {
        false
    }

    proof fn lemma_repr(self) {
    }

    proof fn lemma_injective(a: u8, b: u8) {
    }
}

impl IntRepr for u16 {
    open spec fn bits(self) -> nat {
        self as nat
    }

    open spec fn val(self) -> int {
        self as int
    }

    open spec fn modulus() -> nat {
        0x1_0000
    }

    open spec fn signed() -> bool {
        false
    }

    proof fn lemma_repr(self) {
    }

    proof fn lemma_injective(a: u16, b: u16) {
    }
}

impl IntRepr for u32 {
    open spec fn bits(self) -> nat {
        self as nat
    }

    open spec fn val(self) -> int {
        self as int
    }

    open spec fn modulus() -> nat {
        0x1_0000_0000
    }

    open spec fn signed() -> bool {
        false
    }

    proof fn lemma_repr(self) {
    }

    proof fn lemma_injective(a: u32, b: u32) {
    }
}

impl IntRepr for u64 {
    open spec fn bits(self) -> nat {
        self as nat
    }

    open spec fn val(self) -> int {
        self as int
    }

    open spec fn modulus() -> nat {
        0x1_0000_0000_0000_0000
    }

    open spec fn signed() -> bool {
        false
    }

    proof fn lemma_repr(self) {
    }

    proof fn lemma_injective(a: u64, b: u64) {
    }
}

impl IntRepr for u128 {
    open spec fn bits(self) -> nat {
        self as nat
    }

    open spec fn val(self) -> int {
        self as int
    }

    open spec fn modulus() -> nat {
        u128::MAX as nat + 1
    }

    open spec fn signed() -> bool {
        false
    }

    proof fn lemma_repr(self) {
    }

    proof fn lemma_injective(a: u128, b: u128) {
    }
}

impl IntRepr for i8 {
    open spec fn bits(self) -> nat {
        if self >= 0 {
            self as nat
        } else {
            (self + 0x100) as nat
        }
    }

    open spec fn val(self) -> int {
        self as int
    }

    open spec fn modulus() -> nat {
        0x100
    }

    open spec fn signed() -> bool {
        true
    }

    proof fn lemma_repr(self) {
    }

    proof fn lemma_injective(a: i8, b: i8) {
    }
}

impl IntRepr for i16 {
    open spec fn bits(self) -> nat {
        if self >= 0 {
            self as nat
        } else {
            (self + 0x1_0000) as nat
        }
    }

    open spec fn val(self) -> int {
        self as int
    }

    open spec fn modulus() -> nat {
        0x1_0000
    }

    open spec fn signed() -> bool {
        true
    }

    proof fn lemma_repr(self) {
    }

    proof fn lemma_injective(a: i16, b: i16) {
    }
}

impl IntRepr for i32 {
    open spec fn bits(self) -> nat {
        if self >= 0 {
            self as nat
        } else {
            (self + 0x1_0000_0000) as nat
        }
    }

    open spec fn val(self) -> int {
        self as int
    }

    open spec fn modulus() -> nat {
        0x1_0000_0000
    }

    open spec fn signed() -> bool {
        true
    }

    proof fn lemma_repr(self) {
    }

    proof fn lemma_injective(a: i32, b: i32) {
    }
}

impl IntRepr for i64 {
    open spec fn bits(self) -> nat {
        if self >= 0 {
            self as nat
        } else {
            (self + 0x1_0000_0000_0000_0000) as nat
        }
    }

    open spec fn val(self) -> int {
        self as int
    }

    open spec fn modulus() -> nat {
        0x1_0000_0000_0000_0000
    }

    open spec fn signed() -> bool {
        true
    }

    proof fn lemma_repr(self) {
    }

    proof fn lemma_injective(a: i64, b: i64) {
    }
}

impl IntRepr for i128 {
    open spec fn bits(self) -> nat {
        if self >= 0 {
            self as nat
        } else {
            (self + u128::MAX as int + 1) as nat
        }
    }

    open spec fn val(self) -> int {
        self as int
    }

    open spec fn modulus() -> nat {
        u128::MAX as nat + 1
    }

    open spec fn signed() -> bool {
        true
    }

    proof fn lemma_repr(self) {
    }

    proof fn lemma_injective(a: i128, b: i128) {
    }
}

impl IntRepr for usize {
    open spec fn bits(self) -> nat {
        self as nat
    }

    open spec fn val(self) -> int {
        self as int
    }

    open spec fn modulus() -> nat {
        usize::MAX as nat + 1
    }

    open spec fn signed() -> bool {
        false
    }

    proof fn lemma_repr(self) {
    }

    proof fn lemma_injective(a: usize, b: usize) {
    }
}

impl IntRepr for isize {
    open spec fn bits(self) -> nat {
        if self >= 0 {
            self as nat
        } else {
            (self + usize::MAX as int + 1) as nat
        }
    }

    open spec fn val(self) -> int {
        self as int
    }

    open spec fn modulus() -> nat {
        usize::MAX as nat + 1
    }

    open spec fn signed() -> bool {
        true
    }

    proof fn lemma_repr(self) {
        lemma_pointer_width();
    }

    proof fn lemma_injective(a: isize, b: isize) {
        lemma_pointer_width();
    }
}

/// The pointer-width types mirror a fixed-width pair: `isize` covers
/// exactly half of the patterns below and half at or above the sign bit.
pub(crate) proof fn lemma_pointer_width()
    ensures
        usize::MAX as nat + 1 == 2 * (isize::MAX as nat + 1),
        isize::MIN as int == -(isize::MAX as int) - 1,
        usize::MAX >= 0xffff,
{
    broadcast use vstd::layout::layout_of_primitives;

    vstd::layout::unsigned_int_max_values();
    vstd::layout::signed_int_min_max_values();
}

} // verus!
