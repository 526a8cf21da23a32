//! Types with signed and unsigned variants.
//!
//! This module pairs every fixed-width integer type with the signed and
//! the unsigned type of the same width, and offers the bit-preserving
//! reinterpretations between them, together with the unsigned absolute
//! value.

use vstd::math::abs;
use vstd::prelude::*;

use crate::repr::IntRepr;

verus! {

/// Types with signed and unsigned variants.
///
/// `Signed` and `Unsigned` are the signed and the unsigned type of the
/// same width as `Self`; `lemma_pair` states and proves that the widths
/// agree and the signedness of each counterpart is what its name says.
/// The reinterpretations keep the bit pattern unchanged, and
/// `abs_unsigned` returns the magnitude of the value, which the unsigned
/// counterpart always represents.
pub trait Signed: IntRepr {
    /// Signed variant of this type.
    type Signed: IntRepr;

    /// Unsigned variant of this type.
    type Unsigned: IntRepr;

    /// Both variants have this type's width; the signed variant is
    /// signed and the unsigned variant is not.
    proof fn lemma_pair()
        ensures
            <Self::Signed as IntRepr>::modulus() == Self::modulus(),
            <Self::Unsigned as IntRepr>::modulus() == Self::modulus(),
            <Self::Signed as IntRepr>::signed(),
            !<Self::Unsigned as IntRepr>::signed(),
    ;

    /// Reinterprets this value as unsigned, keeping the bit pattern.
    fn as_unsigned(self) -> (r: Self::Unsigned)
        ensures
            r.bits() == self.bits(),
    ;

    /// Reinterprets this value as signed, keeping the bit pattern.
    fn as_signed(self) -> (r: Self::Signed)
        ensures
            r.bits() == self.bits(),
    ;

    /// Returns the absolute value of `self` as unsigned.
    fn abs_unsigned(self) -> (r: Self::Unsigned)
        ensures
            r.bits() == abs(self.val()),
    ;
}

/// All types that are signed.
pub trait IsSigned: Signed<Signed = Self> {}

impl<T: Signed<Signed = T>> IsSigned for T {}

/// All types that are unsigned.
pub trait IsUnsigned: Signed<Unsigned = Self> {}

impl<T: Signed<Unsigned = T>> IsUnsigned for T {}

/// Free-function form of [`Signed::as_unsigned`].
pub fn as_unsigned<T: Signed>(v: T) -> (r: T::Unsigned)
    ensures
        r.bits() == v.bits(),
{
    v.as_unsigned()
}

/// Free-function form of [`Signed::as_signed`].
pub fn as_signed<T: Signed>(v: T) -> (r: T::Signed)
    ensures
        r.bits() == v.bits(),
{
    v.as_signed()
}

/// Free-function form of [`Signed::abs_unsigned`].
pub fn abs_unsigned<T: Signed>(v: T) -> (r: T::Unsigned)
    ensures
        r.bits() == abs(v.val()),
{
    v.abs_unsigned()
}

/// Reinterpreting a value and then reinterpreting the result back into the
/// original type returns the original value: both steps keep the bit
/// pattern, as `as_unsigned` and `as_signed` promise, and a value is
/// determined by its bit pattern.
pub proof fn lemma_reinterpret_round_trip<T: IntRepr, U: IntRepr>(v: T, u: U, r: T)
    requires
        u.bits() == v.bits(),
        r.bits() == u.bits(),
    ensures
        r == v,
{
    T::lemma_injective(r, v);
}

/// The unsigned absolute value of a non-negative value is that value
/// reinterpreted as unsigned: on such a value `abs_unsigned` and
/// `as_unsigned` promise the same bit pattern, so their results are equal.
pub proof fn lemma_abs_unsigned_nonneg<T: IntRepr, U: IntRepr>(v: T, a: U, u: U)
    requires
        v.val() >= 0,
        a.bits() == abs(v.val()),
        u.bits() == v.bits(),
    ensures
        a == u,
{
    T::lemma_repr(v);
    U::lemma_injective(a, u);
}

impl Signed for i8 {
    type Signed = i8;

    type Unsigned = u8;

    proof fn lemma_pair() {
    }

    fn as_unsigned(self) -> (r: u8) {
        if self >= 0 {
            self as u8
        } else {
            let m: i8 = -(self + 1);
            u8::MAX - (m as u8)
        }
    }

    fn as_signed(self) -> (r: i8) {
        self
    }

    fn abs_unsigned(self) -> (r: u8) {
        if self < 0 {
            let m: i8 = -(self + 1);
            (m as u8) + 1
        } else {
            self as u8
        }
    }
}

impl Signed for u8 {
    type Signed = i8;

    type Unsigned = u8;

    proof fn lemma_pair() {
    }

    fn as_unsigned(self) -> (r: u8) {
        self
    }

    fn as_signed(self) -> (r: i8) {
        if self <= 0x7f {
            self as i8
        } else {
            let m: u8 = u8::MAX - self;
            -(m as i8) - 1
        }
    }

    fn abs_unsigned(self) -> (r: u8) {
        self
    }
}

impl Signed for i16 {
    type Signed = i16;

    type Unsigned = u16;

    proof fn lemma_pair() {
    }

    fn as_unsigned(self) -> (r: u16) {
        if self >= 0 {
            self as u16
        } else {
            let m: i16 = -(self + 1);
            u16::MAX - (m as u16)
        }
    }

    fn as_signed(self) -> (r: i16) {
        self
    }

    fn abs_unsigned(self) -> (r: u16) {
        if self < 0 {
            let m: i16 = -(self + 1);
            (m as u16) + 1
        } else {
            self as u16
        }
    }
}

impl Signed for u16 {
    type Signed = i16;

    type Unsigned = u16;

    proof fn lemma_pair() {
    }

    fn as_unsigned(self) -> (r: u16) {
        self
    }

    fn as_signed(self) -> (r: i16) {
        if self <= 0x7fff {
            self as i16
        } else {
            let m: u16 = u16::MAX - self;
            -(m as i16) - 1
        }
    }

    fn abs_unsigned(self) -> (r: u16) {
        self
    }
}

impl Signed for i32 {
    type Signed = i32;

    type Unsigned = u32;

    proof fn lemma_pair() {
    }

    fn as_unsigned(self) -> (r: u32) {
        if self >= 0 {
            self as u32
        } else {
            let m: i32 = -(self + 1);
            u32::MAX - (m as u32)
        }
    }

    fn as_signed(self) -> (r: i32) {
        self
    }

    fn abs_unsigned(self) -> (r: u32) {
        if self < 0 {
            let m: i32 = -(self + 1);
            (m as u32) + 1
        } else {
            self as u32
        }
    }
}

impl Signed for u32 {
    type Signed = i32;

    type Unsigned = u32;

    proof fn lemma_pair() {
    }

    fn as_unsigned(self) -> (r: u32) {
        self
    }

    fn as_signed(self) -> (r: i32) {
        if self <= 0x7fff_ffff {
            self as i32
        } else {
            let m: u32 = u32::MAX - self;
            -(m as i32) - 1
        }
    }

    fn abs_unsigned(self) -> (r: u32) {
        self
    }
}

impl Signed for i64 {
    type Signed = i64;

    type Unsigned = u64;

    proof fn lemma_pair() {
    }

    fn as_unsigned(self) -> (r: u64) {
        if self >= 0 {
            self as u64
        } else {
            let m: i64 = -(self + 1);
            u64::MAX - (m as u64)
        }
    }

    fn as_signed(self) -> (r: i64) {
        self
    }

    fn abs_unsigned(self) -> (r: u64) {
        if self < 0 {
            let m: i64 = -(self + 1);
            (m as u64) + 1
        } else {
            self as u64
        }
    }
}

impl Signed for u64 {
    type Signed = i64;

    type Unsigned = u64;

    proof fn lemma_pair() {
    }

    fn as_unsigned(self) -> (r: u64) {
        self
    }

    fn as_signed(self) -> (r: i64) {
        if self <= 0x7fff_ffff_ffff_ffff {
            self as i64
        } else {
            let m: u64 = u64::MAX - self;
            -(m as i64) - 1
        }
    }

    fn abs_unsigned(self) -> (r: u64) {
        self
    }
}

impl Signed for i128 {
    type Signed = i128;

    type Unsigned = u128;

    proof fn lemma_pair() {
    }

    fn as_unsigned(self) -> (r: u128) {
        if self >= 0 {
            self as u128
        } else {
            let m: i128 = -(self + 1);
            u128::MAX - (m as u128)
        }
    }

    fn as_signed(self) -> (r: i128) {
        self
    }

    fn abs_unsigned(self) -> (r: u128) {
        if self < 0 {
            let m: i128 = -(self + 1);
            (m as u128) + 1
        } else {
            self as u128
        }
    }
}

impl Signed for u128 {
    type Signed = i128;

    type Unsigned = u128;

    proof fn lemma_pair() {
    }

    fn as_unsigned(self) -> (r: u128) {
        self
    }

    fn as_signed(self) -> (r: i128) {
        if self <= 0x7fff_ffff_ffff_ffff_ffff_ffff_ffff_ffff {
            self as i128
        } else {
            let m: u128 = u128::MAX - self;
            -(m as i128) - 1
        }
    }

    fn abs_unsigned(self) -> (r: u128) {
        self
    }
}

impl Signed for isize {
    type Signed = isize;

    type Unsigned = usize;

    proof fn lemma_pair() {
    }

    fn as_unsigned(self) -> (r: usize) {
        proof {
            crate::repr::lemma_pointer_width();
        }
        if self >= 0 {
            self as usize
        } else {
            let m: isize = -(self + 1);
            usize::MAX - (m as usize)
        }
    }

    fn as_signed(self) -> (r: isize) {
        self
    }

    fn abs_unsigned(self) -> (r: usize) {
        proof {
            crate::repr::lemma_pointer_width();
        }
        if self < 0 {
            let m: isize = -(self + 1);
            (m as usize) + 1
        } else {
            self as usize
        }
    }
}

impl Signed for usize {
    type Signed = isize;

    type Unsigned = usize;

    proof fn lemma_pair() {
    }

    fn as_unsigned(self) -> (r: usize) {
        self
    }

    fn as_signed(self) -> (r: isize) {
        proof {
            crate::repr::lemma_pointer_width();
        }
        if self <= (isize::MAX as usize) {
            self as isize
        } else {
            let m: usize = usize::MAX - self;
            -(m as isize) - 1
        }
    }

    fn abs_unsigned(self) -> (r: usize) {
        self
    }
}

} // verus!
