//! Sign extension: widening that pads the new high-order bits with copies
//! of the sign bit.

use vstd::prelude::*;

use crate::repr::lemma_val_injective;
use crate::repr::IntRepr;

verus! {

/// The capability of sign-extending a value of `Self` to `T`.
///
/// The result has the source's numeric value: the low-order bits equal the
/// source and every new high-order bit is a copy of the source's sign bit.
/// The capability is offered between distinct types only within the signed
/// family, and only when `T` is at least as wide as `Self`; `lemma_widens`
/// states and proves the width relation and that the two types agree in
/// signedness.
pub trait SignExtend<T: IntRepr>: IntRepr {
    /// The destination is at least as wide as the source and has the same
    /// signedness.
    proof fn lemma_widens()
        ensures
            T::modulus() >= Self::modulus(),
            T::signed() == Self::signed(),
    ;

    /// Sign extends this value to `T`.
    fn sign_extend(self) -> (r: T)
        ensures
            r.val() == self.val(),
    ;
}

/// Sign extending a type to itself returns the value unchanged.
impl<T: IntRepr> SignExtend<T> for T {
    proof fn lemma_widens() {
    }

    fn sign_extend(self) -> (r: T) {
        self
    }
}

/// Helper trait for [`SignExtend`] to be used with turbofish syntax.
pub trait SignExtended: IntRepr {
    /// Sign extends this value to `T`.
    fn sign_extended<T: IntRepr>(self) -> (r: T) where Self: SignExtend<T>
        ensures
            r.val() == self.val(),
    ;
}

impl<S: IntRepr> SignExtended for S {
    fn sign_extended<T: IntRepr>(self) -> (r: T) where Self: SignExtend<T> {
        self.sign_extend()
    }
}

/// Free-function form of [`SignExtend::sign_extend`], for callers that
/// prefer to name both types: `sign_extend::<i8, i32>(v)`.
pub fn sign_extend<S, T>(v: S) -> (r: T) where S: SignExtend<T>, T: IntRepr
    ensures
        r.val() == v.val(),
{
    v.sign_extend()
}

/// Sign extension within one type is the identity: a result that keeps the
/// source's numeric value, as `sign_extend` promises, is the source itself.
pub proof fn lemma_sign_extend_identity<T: IntRepr>(v: T, r: T)
    requires
        r.val() == v.val(),
    ensures
        r == v,
{
    lemma_val_injective(r, v);
}

impl SignExtend<i16> for i8 {
    proof fn lemma_widens() {
    }

    fn sign_extend(self) -> (r: i16) {
        self as i16
    }
}

impl SignExtend<i32> for i8 {
    proof fn lemma_widens() {
    }

    fn sign_extend(self) -> (r: i32) {
        self as i32
    }
}

impl SignExtend<i64> for i8 {
    proof fn lemma_widens() {
    }

    fn sign_extend(self) -> (r: i64) {
        self as i64
    }
}

impl SignExtend<i128> for i8 {
    proof fn lemma_widens() {
    }

    fn sign_extend(self) -> (r: i128) {
        self as i128
    }
}

impl SignExtend<i32> for i16 {
    proof fn lemma_widens() {
    }

    fn sign_extend(self) -> (r: i32) {
        self as i32
    }
}

impl SignExtend<i64> for i16 {
    proof fn lemma_widens() {
    }

    fn sign_extend(self) -> (r: i64) {
        self as i64
    }
}

impl SignExtend<i128> for i16 {
    proof fn lemma_widens() {
    }

    fn sign_extend(self) -> (r: i128) {
        self as i128
    }
}

impl SignExtend<i64> for i32 {
    proof fn lemma_widens() {
    }

    fn sign_extend(self) -> (r: i64) {
        self as i64
    }
}

impl SignExtend<i128> for i32 {
    proof fn lemma_widens() {
    }

    fn sign_extend(self) -> (r: i128) {
        self as i128
    }
}

impl SignExtend<i128> for i64 {
    proof fn lemma_widens() {
    }

    fn sign_extend(self) -> (r: i128) {
        self as i128
    }
}

} // verus!
