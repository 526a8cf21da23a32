//! Explicit conversions between fixed-width integer types.
//!
//! Every conversion offered here is a pure value transform whose behaviour is
//! pinned down by a contract over the two's-complement bit pattern of its
//! operands:
//!
//! - [`ZeroExtend`] / [`SignExtend`] / [`Extend`]: widen an integer, padding
//!   the new high-order bits with zeros or with copies of the sign bit.
//! - [`Signed`] / [`IsSigned`] / [`IsUnsigned`]: interchange between the
//!   signed and unsigned type of the same width.
//! - [`Truncate`]: narrow an integer, discarding high-order bits.
//! - [`Split`] / [`Join`]: split an unsigned integer into two half-width
//!   halves and join them back together.
//!
//! Each capability exists only for the type pairs on which it is meaningful:
//! an extension to a narrower type, or a truncation to a wider one, is
//! rejected when the program is compiled, never at run time. The width
//! relation behind every capability is itself stated and proved as part of
//! the capability's contract.
//!
//! Helper traits ([`Extended`], [`SignExtended`], [`ZeroExtended`],
//! [`Truncated`]) let callers pick the destination type with turbofish
//! syntax (`value.extended::<u32>()`), and each operation also exists as a
//! free function that names both types (`zero_extend::<i8, i16>(v)`).

pub mod extend;
pub mod repr;
pub mod sign;
pub mod split;
pub mod trunc;

pub use extend::default::extend;
pub use extend::sign::sign_extend;
pub use extend::zero::zero_extend;
pub use extend::{Extend, Extended, SignExtend, SignExtended, ZeroExtend, ZeroExtended};
pub use repr::IntRepr;
pub use sign::{abs_unsigned, as_signed, as_unsigned, IsSigned, IsUnsigned, Signed};
pub use split::{hi, join, lo, lo_hi, Join, Split};
pub use trunc::{truncate, Truncate, Truncated};
