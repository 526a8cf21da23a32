//! Integer extensions: widening conversions that never discard bits.
//!
//! Three capability families live here: zero extension, sign extension,
//! and the generic extension that picks the right one for the source
//! type's signedness.

pub mod default;
pub mod sign;
pub mod zero;

pub use default::{Extend, Extended};
pub use sign::{SignExtend, SignExtended};
pub use zero::{ZeroExtend, ZeroExtended};
