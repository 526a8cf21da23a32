//! Zero extension: widening that pads the new high-order bits with zeros.

use vstd::prelude::*;

use crate::repr::IntRepr;
use crate::sign::Signed;

verus! {

/// The capability of zero-extending a value of `Self` to `T`.
///
/// The result holds the source's bit pattern unchanged: the low-order bits
/// equal the source and every new high-order bit is zero, whatever the
/// signedness of either type. The capability exists only when `T` is at
/// least as wide as `Self`, which `lemma_widens` states and proves.
pub trait ZeroExtend<T: IntRepr>: IntRepr {
    /// The destination is at least as wide as the source.
    proof fn lemma_widens()
        ensures
            T::modulus() >= Self::modulus(),
    ;

    /// Zero extends this value to `T`.
    fn zero_extend(self) -> (r: T)
        ensures
            r.bits() == self.bits(),
    ;
}

/// Zero extending a type to itself returns the value unchanged.
impl<T: IntRepr> ZeroExtend<T> for T {
    proof fn lemma_widens() {
    }

    fn zero_extend(self) -> (r: T) {
        self
    }
}

/// Helper trait for [`ZeroExtend`] to be used with turbofish syntax.
pub trait ZeroExtended: IntRepr {
    /// Zero extends this value to `T`.
    fn zero_extended<T: IntRepr>(self) -> (r: T) where Self: ZeroExtend<T>
        ensures
            r.bits() == self.bits(),
    ;
}

impl<S: IntRepr> ZeroExtended for S {
    fn zero_extended<T: IntRepr>(self) -> (r: T) where Self: ZeroExtend<T> {
        self.zero_extend()
    }
}

/// Free-function form of [`ZeroExtend::zero_extend`], for callers that
/// prefer to name both types: `zero_extend::<i8, i16>(v)`.
pub fn zero_extend<S, T>(v: S) -> (r: T) where S: ZeroExtend<T>, T: IntRepr
    ensures
        r.bits() == v.bits(),
{
    v.zero_extend()
}

/// Zero extension within one type is the identity: a result that keeps the
/// source's bit pattern, as `zero_extend` promises, is the source itself.
pub proof fn lemma_zero_extend_identity<T: IntRepr>(v: T, r: T)
    requires
        r.bits() == v.bits(),
    ensures
        r == v,
{
    T::lemma_injective(r, v);
}

/// Zero extension between unsigned types preserves the numeric value: a
/// result that keeps the source's bit pattern, as `zero_extend` promises,
/// has the source's value when neither type is signed.
pub proof fn lemma_zero_extend_unsigned_value<S: IntRepr, T: IntRepr>(v: S, r: T)
    requires
        !S::signed(),
        !T::signed(),
        r.bits() == v.bits(),
    ensures
        r.val() == v.val(),
{
    S::lemma_repr(v);
    T::lemma_repr(r);
}

impl ZeroExtend<u16> for u8 {
    proof fn lemma_widens() {
    }

    fn zero_extend(self) -> (r: u16) {
        self as u16
    }
}

impl ZeroExtend<u32> for u8 {
    proof fn lemma_widens() {
    }

    fn zero_extend(self) -> (r: u32) {
        self as u32
    }
}

impl ZeroExtend<u64> for u8 {
    proof fn lemma_widens() {
    }

    fn zero_extend(self) -> (r: u64) {
        self as u64
    }
}

impl ZeroExtend<u128> for u8 {
    proof fn lemma_widens() {
    }

    fn zero_extend(self) -> (r: u128) {
        self as u128
    }
}

impl ZeroExtend<u32> for u16 {
    proof fn lemma_widens() {
    }

    fn zero_extend(self) -> (r: u32) {
        self as u32
    }
}

impl ZeroExtend<u64> for u16 {
    proof fn lemma_widens() {
    }

    fn zero_extend(self) -> (r: u64) {
        self as u64
    }
}

impl ZeroExtend<u128> for u16 {
    proof fn lemma_widens() {
    }

    fn zero_extend(self) -> (r: u128) {
        self as u128
    }
}

impl ZeroExtend<u64> for u32 {
    proof fn lemma_widens() {
    }

    fn zero_extend(self) -> (r: u64) {
        self as u64
    }
}

impl ZeroExtend<u128> for u32 {
    proof fn lemma_widens() {
    }

    fn zero_extend(self) -> (r: u128) {
        self as u128
    }
}

impl ZeroExtend<u128> for u64 {
    proof fn lemma_widens() {
    }

    fn zero_extend(self) -> (r: u128) {
        self as u128
    }
}

impl ZeroExtend<i16> for i8 {
    proof fn lemma_widens() {
    }

    fn zero_extend(self) -> (r: i16) {
        let u: u8 = self.as_unsigned();
        let w: u16 = u as u16;
        w.as_signed()
    }
}

impl ZeroExtend<i32> for i8 {
    proof fn lemma_widens() {
    }

    fn zero_extend(self) -> (r: i32) {
        let u: u8 = self.as_unsigned();
        let w: u32 = u as u32;
        w.as_signed()
    }
}

impl ZeroExtend<i64> for i8 {
    proof fn lemma_widens() {
    }

    fn zero_extend(self) -> (r: i64) {
        let u: u8 = self.as_unsigned();
        let w: u64 = u as u64;
        w.as_signed()
    }
}

impl ZeroExtend<i128> for i8 {
    proof fn lemma_widens() {
    }

    fn zero_extend(self) -> (r: i128) {
        let u: u8 = self.as_unsigned();
        let w: u128 = u as u128;
        w.as_signed()
    }
}

impl ZeroExtend<i32> for i16 {
    proof fn lemma_widens() {
    }

    fn zero_extend(self) -> (r: i32) {
        let u: u16 = self.as_unsigned();
        let w: u32 = u as u32;
        w.as_signed()
    }
}

impl ZeroExtend<i64> for i16 {
    proof fn lemma_widens() {
    }

    fn zero_extend(self) -> (r: i64) {
        let u: u16 = self.as_unsigned();
        let w: u64 = u as u64;
        w.as_signed()
    }
}

impl ZeroExtend<i128> for i16 {
    proof fn lemma_widens() {
    }

    fn zero_extend(self) -> (r: i128) {
        let u: u16 = self.as_unsigned();
        let w: u128 = u as u128;
        w.as_signed()
    }
}

impl ZeroExtend<i64> for i32 {
    proof fn lemma_widens() {
    }

    fn zero_extend(self) -> (r: i64) {
        let u: u32 = self.as_unsigned();
        let w: u64 = u as u64;
        w.as_signed()
    }
}

impl ZeroExtend<i128> for i32 {
    proof fn lemma_widens() {
    }

    fn zero_extend(self) -> (r: i128) {
        let u: u32 = self.as_unsigned();
        let w: u128 = u as u128;
        w.as_signed()
    }
}

impl ZeroExtend<i128> for i64 {
    proof fn lemma_widens() {
    }

    fn zero_extend(self) -> (r: i128) {
        let u: u64 = self.as_unsigned();
        let w: u128 = u as u128;
        w.as_signed()
    }
}

} // verus!
