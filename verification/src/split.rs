//! Integer splitting: taking an unsigned integer apart into two
//! half-width halves, and joining two halves back together.

use vstd::prelude::*;

use crate::extend::zero::ZeroExtend;
use crate::repr::IntRepr;
use crate::trunc::Truncate;

verus! {

/// The capability of splitting a value of `Self` into its low and high
/// halves.
///
/// `Lo` and `Hi` are unsigned types of half the width of `Self`, which
/// `lemma_halves` states and proves. The low half holds the low-order
/// half of the bit pattern, and the high half holds the high-order half,
/// right-aligned: in terms of the half modulus `m`, `lo` returns
/// `bits % m` and `hi` returns `bits / m`.
pub trait Split: IntRepr {
    /// Output type for the high half.
    type Hi: IntRepr;

    /// Output type for the low half.
    type Lo: IntRepr;

    /// The halves are unsigned, equally wide, and together exactly as
    /// wide as this type.
    proof fn lemma_halves()
        ensures
            <Self::Lo as IntRepr>::modulus() == <Self::Hi as IntRepr>::modulus(),
            Self::modulus() == <Self::Lo as IntRepr>::modulus() * <Self::Hi as IntRepr>::modulus(),
            !Self::signed(),
            !<Self::Lo as IntRepr>::signed(),
            !<Self::Hi as IntRepr>::signed(),
    ;

    /// Returns the high half of this integer.
    fn hi(self) -> (r: Self::Hi)
        ensures
            r.bits() == self.bits() / <Self::Lo as IntRepr>::modulus(),
    ;

    /// Returns the low half of this integer.
    fn lo(self) -> (r: Self::Lo)
        ensures
            r.bits() == self.bits() % <Self::Lo as IntRepr>::modulus(),
    ;

    /// Returns the low and high halves of this integer.
    fn lo_hi(self) -> (r: (Self::Lo, Self::Hi))
        ensures
            r.0.bits() == self.bits() % <Self::Lo as IntRepr>::modulus(),
            r.1.bits() == self.bits() / <Self::Lo as IntRepr>::modulus(),
    ;
}

/// The capability of joining two halves into a value of `Self`.
pub trait Join: Split {
    /// Joins the two halves of an integer: the result's bit pattern holds
    /// `lo` in its low-order half and `hi` in its high-order half.
    fn join(lo: <Self as Split>::Lo, hi: <Self as Split>::Lo) -> (r: Self)
        ensures
            r.bits() == hi.bits() * <Self::Lo as IntRepr>::modulus() + lo.bits(),
    ;
}

/// Free-function form of [`Split::lo`].
pub fn lo<T: Split>(v: T) -> (r: T::Lo)
    ensures
        r.bits() == v.bits() % <T::Lo as IntRepr>::modulus(),
{
    v.lo()
}

/// Free-function form of [`Split::hi`].
pub fn hi<T: Split>(v: T) -> (r: T::Hi)
    ensures
        r.bits() == v.bits() / <T::Lo as IntRepr>::modulus(),
{
    v.hi()
}

/// Free-function form of [`Split::lo_hi`].
pub fn lo_hi<T: Split>(v: T) -> (r: (T::Lo, T::Hi))
    ensures
        r.0.bits() == v.bits() % <T::Lo as IntRepr>::modulus(),
        r.1.bits() == v.bits() / <T::Lo as IntRepr>::modulus(),
{
    v.lo_hi()
}

/// Free-function form of [`Join::join`].
pub fn join<T: Join>(lo: T::Lo, hi: T::Lo) -> (r: T)
    ensures
        r.bits() == hi.bits() * <T::Lo as IntRepr>::modulus() + lo.bits(),
{
    T::join(lo, hi)
}

/// Joining the two halves of a split gives back the original value: for
/// halves holding the low and high parts of `v`'s bit pattern, as `lo_hi`
/// promises, a joined result holding them both, as `join` promises, has
/// `v`'s bit pattern, and so is `v`.
pub proof fn lemma_join_of_split<T: Join>(v: T, l: T::Lo, h: T::Hi, r: T)
    requires
        l.bits() == v.bits() % <T::Lo as IntRepr>::modulus(),
        h.bits() == v.bits() / <T::Lo as IntRepr>::modulus(),
        r.bits() == h.bits() * <T::Lo as IntRepr>::modulus() + l.bits(),
    ensures
        r == v,
{
    <T::Lo as IntRepr>::lemma_repr(l);
    vstd::arithmetic::div_mod::lemma_fundamental_div_mod(
        v.bits() as int,
        <T::Lo as IntRepr>::modulus() as int,
    );
    T::lemma_injective(r, v);
}

/// Splitting a joined value gives back the two halves: a joined result
/// holding `l` and `h`, as `join` promises, splits into a low half equal
/// to `l` and a high half with `h`'s bit pattern, as `lo_hi` promises.
pub proof fn lemma_split_of_join<T: Join>(l: T::Lo, h: T::Lo, j: T, l2: T::Lo, h2: T::Hi)
    requires
        j.bits() == h.bits() * <T::Lo as IntRepr>::modulus() + l.bits(),
        l2.bits() == j.bits() % <T::Lo as IntRepr>::modulus(),
        h2.bits() == j.bits() / <T::Lo as IntRepr>::modulus(),
    ensures
        l2 == l,
        h2.bits() == h.bits(),
{
    <T::Lo as IntRepr>::lemma_repr(l);
    vstd::arithmetic::div_mod::lemma_fundamental_div_mod_converse(
        j.bits() as int,
        <T::Lo as IntRepr>::modulus() as int,
        h.bits() as int,
        l.bits() as int,
    );
    <T::Lo as IntRepr>::lemma_injective(l2, l);
}

/// The high half of a value small enough to fit in the low half is zero.
pub proof fn lemma_hi_zero_on_small<T: Split>(v: T, h: T::Hi)
    requires
        v.bits() < <T::Lo as IntRepr>::modulus(),
        h.bits() == v.bits() / <T::Lo as IntRepr>::modulus(),
    ensures
        h.bits() == 0,
{
    vstd::arithmetic::div_mod::lemma_basic_div_specific_divisor(
        <T::Lo as IntRepr>::modulus() as int,
    );
}

impl Split for u16 {
    type Hi = u8;

    type Lo = u8;

    proof fn lemma_halves() {
    }

    fn lo(self) -> (r: u8) {
        <u16 as Truncate<u8>>::truncate(self)
    }

    fn hi(self) -> (r: u8) {
        let q: u16 = self / 0x100;
        proof {
            vstd::arithmetic::div_mod::lemma_small_mod(q as nat, 0x100);
        }
        <u16 as Truncate<u8>>::truncate(q)
    }

    fn lo_hi(self) -> (r: (u8, u8)) {
        let lo: u8 = self.lo();
        let hi: u8 = self.hi();
        (lo, hi)
    }
}

impl Join for u16 {
    fn join(lo: u8, hi: u8) -> (r: u16) {
        let l: u16 = <u8 as ZeroExtend<u16>>::zero_extend(lo);
        let h: u16 = <u8 as ZeroExtend<u16>>::zero_extend(hi);
        h * 0x100 + l
    }
}

impl Split for u32 {
    type Hi = u16;

    type Lo = u16;

    proof fn lemma_halves() {
    }

    fn lo(self) -> (r: u16) {
        <u32 as Truncate<u16>>::truncate(self)
    }

    fn hi(self) -> (r: u16) {
        let q: u32 = self / 0x1_0000;
        proof {
            vstd::arithmetic::div_mod::lemma_small_mod(q as nat, 0x1_0000);
        }
        <u32 as Truncate<u16>>::truncate(q)
    }

    fn lo_hi(self) -> (r: (u16, u16)) {
        let lo: u16 = self.lo();
        let hi: u16 = self.hi();
        (lo, hi)
    }
}

impl Join for u32 {
    fn join(lo: u16, hi: u16) -> (r: u32) {
        let l: u32 = <u16 as ZeroExtend<u32>>::zero_extend(lo);
        let h: u32 = <u16 as ZeroExtend<u32>>::zero_extend(hi);
        h * 0x1_0000 + l
    }
}

impl Split for u64 {
    type Hi = u32;

    type Lo = u32;

    proof fn lemma_halves() {
    }

    fn lo(self) -> (r: u32) {
        <u64 as Truncate<u32>>::truncate(self)
    }

    fn hi(self) -> (r: u32) {
        let q: u64 = self / 0x1_0000_0000;
        proof {
            vstd::arithmetic::div_mod::lemma_small_mod(q as nat, 0x1_0000_0000);
        }
        <u64 as Truncate<u32>>::truncate(q)
    }

    fn lo_hi(self) -> (r: (u32, u32)) {
        let lo: u32 = self.lo();
        let hi: u32 = self.hi();
        (lo, hi)
    }
}

impl Join for u64 {
    fn join(lo: u32, hi: u32) -> (r: u64) {
        let l: u64 = <u32 as ZeroExtend<u64>>::zero_extend(lo);
        let h: u64 = <u32 as ZeroExtend<u64>>::zero_extend(hi);
        h * 0x1_0000_0000 + l
    }
}

impl Split for u128 {
    type Hi = u64;

    type Lo = u64;

    proof fn lemma_halves() {
    }

    fn lo(self) -> (r: u64) {
        <u128 as Truncate<u64>>::truncate(self)
    }

    fn hi(self) -> (r: u64) {
        let q: u128 = self / 0x1_0000_0000_0000_0000;
        proof {
            vstd::arithmetic::div_mod::lemma_small_mod(q as nat, 0x1_0000_0000_0000_0000);
        }
        <u128 as Truncate<u64>>::truncate(q)
    }

    fn lo_hi(self) -> (r: (u64, u64)) {
        let lo: u64 = self.lo();
        let hi: u64 = self.hi();
        (lo, hi)
    }
}

impl Join for u128 {
    fn join(lo: u64, hi: u64) -> (r: u128) {
        let l: u128 = <u64 as ZeroExtend<u128>>::zero_extend(lo);
        let h: u128 = <u64 as ZeroExtend<u128>>::zero_extend(hi);
        h * 0x1_0000_0000_0000_0000 + l
    }
}

} // verus!
