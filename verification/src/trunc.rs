//! Integer truncation: narrowing that keeps only the low-order bits.

use vstd::prelude::*;

use crate::repr::IntRepr;
use crate::sign::Signed;

verus! {

/// The capability of truncating a value of `Self` to `T`.
///
/// The result holds exactly the low-order bits of the source that fit in
/// `T`: its bit pattern is the source's reduced modulo `T`'s modulus.
/// Between distinct types the capability is offered only within one
/// signedness family from a strictly wider type; the same-type instance is
/// the identity. `lemma_narrows` states and proves the width relation and
/// that the two types agree in signedness.
pub trait Truncate<T: IntRepr>: IntRepr {
    /// The destination is at most as wide as the source and has the same
    /// signedness.
    proof fn lemma_narrows()
        ensures
            T::modulus() <= Self::modulus(),
            T::signed() == Self::signed(),
    ;

    /// Truncates this value to `T`.
    fn truncate(self) -> (r: T)
        ensures
            r.bits() == self.bits() % T::modulus(),
    ;
}

/// Truncating a type to itself returns the value unchanged.
impl<T: IntRepr> Truncate<T> for T {
    proof fn lemma_narrows() {
    }

    fn truncate(self) -> (r: T) {
        proof {
            self.lemma_repr();
            vstd::arithmetic::div_mod::lemma_small_mod(self.bits(), T::modulus());
        }
        self
    }
}

/// Helper trait for [`Truncate`] to be used with turbofish syntax.
pub trait Truncated: IntRepr {
    /// Truncates this value to `T`.
    fn truncated<T: IntRepr>(self) -> (r: T) where Self: Truncate<T>
        ensures
            r.bits() == self.bits() % T::modulus(),
    ;
}

impl<S: IntRepr> Truncated for S {
    fn truncated<T: IntRepr>(self) -> (r: T) where Self: Truncate<T> {
        self.truncate()
    }
}

/// Free-function form of [`Truncate::truncate`], for callers that prefer
/// to name both types: `truncate::<i128, i8>(v)`.
pub fn truncate<S, T>(v: S) -> (r: T) where S: Truncate<T>, T: IntRepr
    ensures
        r.bits() == v.bits() % T::modulus(),
{
    v.truncate()
}

/// Truncation within one type is the identity: a result whose bit pattern
/// is the source's reduced modulo the type's own modulus, as `truncate`
/// promises, is the source itself.
pub proof fn lemma_truncate_identity<T: IntRepr>(v: T, r: T)
    requires
        r.bits() == v.bits() % T::modulus(),
    ensures
        r == v,
{
    T::lemma_repr(v);
    vstd::arithmetic::div_mod::lemma_small_mod(v.bits(), T::modulus());
    T::lemma_injective(r, v);
}

impl Truncate<u8> for u16 {
    proof fn lemma_narrows() {
    }

    fn truncate(self) -> (r: u8) {
        (self % 0x100) as u8
    }
}

impl Truncate<u8> for u32 {
    proof fn lemma_narrows() {
    }

    fn truncate(self) -> (r: u8) {
        (self % 0x100) as u8
    }
}

impl Truncate<u16> for u32 {
    proof fn lemma_narrows() {
    }

    fn truncate(self) -> (r: u16) {
        (self % 0x1_0000) as u16
    }
}

impl Truncate<u8> for u64 {
    proof fn lemma_narrows() {
    }

    fn truncate(self) -> (r: u8) {
        (self % 0x100) as u8
    }
}

impl Truncate<u16> for u64 {
    proof fn lemma_narrows() {
    }

    fn truncate(self) -> (r: u16) {
        (self % 0x1_0000) as u16
    }
}

impl Truncate<u32> for u64 {
    proof fn lemma_narrows() {
    }

    fn truncate(self) -> (r: u32) {
        (self % 0x1_0000_0000) as u32
    }
}

impl Truncate<u8> for u128 {
    proof fn lemma_narrows() {
    }

    fn truncate(self) -> (r: u8) {
        (self % 0x100) as u8
    }
}

impl Truncate<u16> for u128 {
    proof fn lemma_narrows() {
    }

    fn truncate(self) -> (r: u16) {
        (self % 0x1_0000) as u16
    }
}

impl Truncate<u32> for u128 {
    proof fn lemma_narrows() {
    }

    fn truncate(self) -> (r: u32) {
        (self % 0x1_0000_0000) as u32
    }
}

impl Truncate<u64> for u128 {
    proof fn lemma_narrows() {
    }

    fn truncate(self) -> (r: u64) {
        (self % 0x1_0000_0000_0000_0000) as u64
    }
}

impl Truncate<i8> for i16 {
    proof fn lemma_narrows() {
    }

    fn truncate(self) -> (r: i8) {
        let u: u16 = self.as_unsigned();
        let t: u8 = (u % 0x100) as u8;
        t.as_signed()
    }
}

impl Truncate<i8> for i32 {
    proof fn lemma_narrows() {
    }

    fn truncate(self) -> (r: i8) {
        let u: u32 = self.as_unsigned();
        let t: u8 = (u % 0x100) as u8;
        t.as_signed()
    }
}

impl Truncate<i16> for i32 {
    proof fn lemma_narrows() {
    }

    fn truncate(self) -> (r: i16) {
        let u: u32 = self.as_unsigned();
        let t: u16 = (u % 0x1_0000) as u16;
        t.as_signed()
    }
}

impl Truncate<i8> for i64 {
    proof fn lemma_narrows() {
    }

    fn truncate(self) -> (r: i8) {
        let u: u64 = self.as_unsigned();
        let t: u8 = (u % 0x100) as u8;
        t.as_signed()
    }
}

impl Truncate<i16> for i64 {
    proof fn lemma_narrows() {
    }

    fn truncate(self) -> (r: i16) {
        let u: u64 = self.as_unsigned();
        let t: u16 = (u % 0x1_0000) as u16;
        t.as_signed()
    }
}

impl Truncate<i32> for i64 {
    proof fn lemma_narrows() {
    }

    fn truncate(self) -> (r: i32) {
        let u: u64 = self.as_unsigned();
        let t: u32 = (u % 0x1_0000_0000) as u32;
        t.as_signed()
    }
}

impl Truncate<i8> for i128 {
    proof fn lemma_narrows() {
    }

    fn truncate(self) -> (r: i8) {
        let u: u128 = self.as_unsigned();
        let t: u8 = (u % 0x100) as u8;
        t.as_signed()
    }
}

impl Truncate<i16> for i128 {
    proof fn lemma_narrows() {
    }

    fn truncate(self) -> (r: i16) {
        let u: u128 = self.as_unsigned();
        let t: u16 = (u % 0x1_0000) as u16;
        t.as_signed()
    }
}

impl Truncate<i32> for i128 {
    proof fn lemma_narrows() {
    }

    fn truncate(self) -> (r: i32) {
        let u: u128 = self.as_unsigned();
        let t: u32 = (u % 0x1_0000_0000) as u32;
        t.as_signed()
    }
}

impl Truncate<i64> for i128 {
    proof fn lemma_narrows() {
    }

    fn truncate(self) -> (r: i64) {
        let u: u128 = self.as_unsigned();
        let t: u64 = (u % 0x1_0000_0000_0000_0000) as u64;
        t.as_signed()
    }
}

} // verus!
