//! A value bound to a validation rule, so that every live instance satisfies it.
//!
//! A rule is a type that implements [`Property`]: it says in a spec function which values it
//! accepts, and its `validate` is proved to answer accordingly. [`TypedValue`] wraps a value
//! that its rule has accepted. It can only be made by asking the rule, and the value inside
//! can only be read, so whatever is read out of a wrapper satisfies the rule.
//!
//! Rules compose: [`Sequential`] asks a second rule only about what a first has accepted
//! and reports the first failure, [`Compose2`] asks both and reports every failure. A
//! [`Decode`] reads a value from an outside form before the rule is asked, and a failure
//! says in which of the two steps it arose; an [`Encode`] writes a wrapped value out again.
//!
//! The modules [`range`], [`text`] and [`number`] hold rules for integers and strings,
//! [`base64`] a codec for strings, and [`laws`] what is proved of all of them together.

pub mod base64;
pub mod codec;
pub mod compare;
pub mod compose;
pub mod error;
pub mod laws;
pub mod number;
pub mod property;
pub mod range;
pub mod strings;
pub mod text;
pub mod typed_value;

pub use base64::{Base64, Base64Error};
pub use codec::{Codec, Decode, Encode};
pub use compose::{Compose2, Sequential};
pub use error::{DecodingError, Phase};
pub use property::{Property, ViewOf};
pub use range::{Odd, OddProperty, RangeProperty};
pub use text::{
    AlphaNumericProperty, FixedLengthProperty, LengthProperty, MaximumLengthProperty, StringError,
};
pub use typed_value::{TypedValue, TypedValueExt};
