//! Bounded unsigned integers that can be added.

pub mod decimal;
pub mod rules;
pub mod typed_number;
pub mod uint;

pub use rules::{OutOfRange, RangeLimitedUIntValidation, UpperLimitedUIntValidation};
pub use typed_number::{JuniorSchoolGrade, RangeLimitedUInt, TypedNumber, UpperLimitedUInt};
pub use uint::UInt;
