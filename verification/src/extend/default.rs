//! Generic extension: zero extension for unsigned sources, sign extension
//! for signed sources, chosen once per type pair when the program is
//! compiled.

use vstd::prelude::*;

use crate::repr::IntRepr;
use crate::extend::sign::SignExtend;
use crate::extend::zero::ZeroExtend;

verus! {

/// The capability of extending a value of `Self` to `T`, padding with
/// zeros when `Self` is unsigned and with the sign bit when it is signed.
///
/// The contract says exactly that: for an unsigned source the result keeps
/// the source's bit pattern, and for a signed source it keeps the source's
/// numeric value. The capability exists only when `T` is at least as wide
/// as `Self`, which `lemma_widens` states and proves.
pub trait Extend<T: IntRepr>: IntRepr {
    /// The destination is at least as wide as the source.
    proof fn lemma_widens()
        ensures
            T::modulus() >= Self::modulus(),
    ;

    /// Extends this value to `T`.
    fn extend(self) -> (r: T)
        ensures
            !Self::signed() ==> r.bits() == self.bits(),
            Self::signed() ==> r.val() == self.val(),
    ;
}

/// Extending a type to itself returns the value unchanged.
impl<T: IntRepr> Extend<T> for T {
    proof fn lemma_widens() {
    }

    fn extend(self) -> (r: T) {
        self
    }
}

/// Helper trait for [`Extend`] to be used with turbofish syntax.
pub trait Extended: IntRepr {
    /// Extends this value to `T`.
    fn extended<T: IntRepr>(self) -> (r: T) where Self: Extend<T>
        ensures
            !Self::signed() ==> r.bits() == self.bits(),
            Self::signed() ==> r.val() == self.val(),
    ;
}

impl<S: IntRepr> Extended for S {
    fn extended<T: IntRepr>(self) -> (r: T) where Self: Extend<T> {
        self.extend()
    }
}

/// Free-function form of [`Extend::extend`], for callers that prefer to
/// name both types: `extend::<u8, u32>(v)`.
pub fn extend<S, T>(v: S) -> (r: T) where S: Extend<T>, T: IntRepr
    ensures
        !S::signed() ==> r.bits() == v.bits(),
        S::signed() ==> r.val() == v.val(),
{
    v.extend()
}

/// Generic extension agrees with the specific one for the source's
/// signedness: a result of `extend` equals the result of `zero_extend`
/// when the source type is unsigned, and the result of `sign_extend` when
/// it is signed. Each result is characterized by its capability's
/// contract.
pub proof fn lemma_extend_agrees<S: IntRepr, T: IntRepr>(v: S, e: T, ze: T, se: T)
    requires
        !S::signed() ==> e.bits() == v.bits(),
        S::signed() ==> e.val() == v.val(),
        ze.bits() == v.bits(),
        se.val() == v.val(),
    ensures
        !S::signed() ==> e == ze,
        S::signed() ==> e == se,
{
    T::lemma_injective(e, ze);
    crate::repr::lemma_val_injective(e, se);
}

impl Extend<u16> for u8 {
    proof fn lemma_widens() {
    }

    fn extend(self) -> (r: u16) {
        self.zero_extend()
    }
}

impl Extend<u32> for u8 {
    proof fn lemma_widens() {
    }

    fn extend(self) -> (r: u32) {
        self.zero_extend()
    }
}

impl Extend<u64> for u8 {
    proof fn lemma_widens() {
    }

    fn extend(self) -> (r: u64) {
        self.zero_extend()
    }
}

impl Extend<u128> for u8 {
    proof fn lemma_widens() {
    }

    fn extend(self) -> (r: u128) {
        self.zero_extend()
    }
}

impl Extend<u32> for u16 {
    proof fn lemma_widens() {
    }

    fn extend(self) -> (r: u32) {
        self.zero_extend()
    }
}

impl Extend<u64> for u16 {
    proof fn lemma_widens() {
    }

    fn extend(self) -> (r: u64) {
        self.zero_extend()
    }
}

impl Extend<u128> for u16 {
    proof fn lemma_widens() {
    }

    fn extend(self) -> (r: u128) {
        self.zero_extend()
    }
}

impl Extend<u64> for u32 {
    proof fn lemma_widens() {
    }

    fn extend(self) -> (r: u64) {
        self.zero_extend()
    }
}

impl Extend<u128> for u32 {
    proof fn lemma_widens() {
    }

    fn extend(self) -> (r: u128) {
        self.zero_extend()
    }
}

impl Extend<u128> for u64 {
    proof fn lemma_widens() {
    }

    fn extend(self) -> (r: u128) {
        self.zero_extend()
    }
}

impl Extend<i16> for i8 {
    proof fn lemma_widens() {
    }

    fn extend(self) -> (r: i16) {
        self.sign_extend()
    }
}

impl Extend<i32> for i8 {
    proof fn lemma_widens() {
    }

    fn extend(self) -> (r: i32) {
        self.sign_extend()
    }
}

impl Extend<i64> for i8 {
    proof fn lemma_widens() {
    }

    fn extend(self) -> (r: i64) {
        self.sign_extend()
    }
}

impl Extend<i128> for i8 {
    proof fn lemma_widens() {
    }

    fn extend(self) -> (r: i128) {
        self.sign_extend()
    }
}

impl Extend<i32> for i16 {
    proof fn lemma_widens() {
    }

    fn extend(self) -> (r: i32) {
        self.sign_extend()
    }
}

impl Extend<i64> for i16 {
    proof fn lemma_widens() {
    }

    fn extend(self) -> (r: i64) {
        self.sign_extend()
    }
}

impl Extend<i128> for i16 {
    proof fn lemma_widens() {
    }

    fn extend(self) -> (r: i128) {
        self.sign_extend()
    }
}

impl Extend<i64> for i32 {
    proof fn lemma_widens() {
    }

    fn extend(self) -> (r: i64) {
        self.sign_extend()
    }
}

impl Extend<i128> for i32 {
    proof fn lemma_widens() {
    }

    fn extend(self) -> (r: i128) {
        self.sign_extend()
    }
}

impl Extend<i128> for i64 {
    proof fn lemma_widens() {
    }

    fn extend(self) -> (r: i128) {
        self.sign_extend()
    }
}

} // verus!
