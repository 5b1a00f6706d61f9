//! Rules on strings. A string's length is its number of characters (Unicode scalar values),
//! not of bytes.

use vstd::prelude::*;
use vstd::std_specs::iter::IteratorSpec;
use crate::compose::Sequential;
use crate::property::Property;

verus! {

/// Why a rule of this module turned a string down.
#[derive(Debug, Clone, Copy, PartialEq, Eq, Structural)]
pub enum StringError {
    /// The character at `position` (counted from 0) is the first that is no ASCII letter or
    /// digit.
    NotAlphaNumeric { position: usize },
    /// The string has `found` characters where `expected` were asked for.
    WrongLength { expected: usize, found: usize },
    /// The string has `found` characters where at most `limit` are allowed.
    TooLong { limit: usize, found: usize },
}

/// Whether `c` is one of `A` to `Z`, `a` to `z` or `0` to `9`.
pub open spec fn is_alpha_numeric(c: char) -> bool {
    ||| 'A' <= c <= 'Z'
    ||| 'a' <= c <= 'z'
    ||| '0' <= c <= '9'
}

/// Whether every character of `text` is an ASCII letter or digit. The empty string passes.
pub open spec fn all_alpha_numeric(text: Seq<char>) -> bool {
    forall|i: int| 0 <= i < text.len() ==> is_alpha_numeric(#[trigger] text[i])
}

/// Whether `position` is the place of the first character of `text` that is no ASCII letter
/// or digit.
pub open spec fn first_offence(text: Seq<char>, position: int) -> bool {
    &&& 0 <= position < text.len()
    &&& !is_alpha_numeric(text[position])
    &&& all_alpha_numeric(text.take(position))
}

/// Tells whether a character is an ASCII letter or digit.
pub fn char_is_alpha_numeric(c: char) -> (answer: bool)
    ensures
        answer == is_alpha_numeric(c),
{
    ('A' <= c && c <= 'Z') || ('a' <= c && c <= 'z') || ('0' <= c && c <= '9')
}

/// A string of ASCII letters and digits only.
#[derive(Debug, PartialEq, Eq, PartialOrd, Ord, Hash)]
pub struct AlphaNumericProperty;

impl Property for AlphaNumericProperty {
    type Value = String;

    type Error = StringError;

    open spec fn holds(value: Seq<char>) -> bool {
        all_alpha_numeric(value)
    }

    open spec fn describes(error: StringError, value: Seq<char>) -> bool {
        error matches StringError::NotAlphaNumeric { position } && first_offence(
            value,
            position as int,
        )
    }

    fn validate(value: &String) -> (verdict: Result<(), StringError>)
        ensures
            match verdict {
                Ok(()) => all_alpha_numeric(value@),
                Err(error) => error matches StringError::NotAlphaNumeric { position }
                    && first_offence(value@, position as int),
            },
    {
        let text = value.as_str();
        let length = text.unicode_len();
        let mut rest = text.chars();
        let mut position: usize = 0;
        loop
            invariant
                length == value@.len(),
                position <= length,
                rest.remaining() == value@.skip(position as int),
                all_alpha_numeric(value@.take(position as int)),
            decreases length - position,
        {
            match rest.next() {
                None => {
                    assert(value@.take(position as int) == value@);
                    return Ok(());
                },
                Some(c) => {
                    assert(c == value@[position as int]);
                    if !char_is_alpha_numeric(c) {
                        return Err(StringError::NotAlphaNumeric { position });
                    }
                    assert(value@.skip(position as int).drop_first() == value@.skip(
                        position + 1,
                    ));
                    assert forall|i: int| 0 <= i < position + 1 implies is_alpha_numeric(
                        #[trigger] value@.take(position + 1)[i],
                    ) by {
                        if i < position {
                            assert(value@.take(position as int)[i] == value@[i]);
                        }
                    }
                    position = position + 1;
                },
            }
        }
    }
}

/// A string of exactly `N` characters.
#[derive(Debug, PartialEq, Eq, PartialOrd, Ord, Hash)]
pub struct LengthProperty<const N: usize>;

impl<const N: usize> Property for LengthProperty<N> {
    type Value = String;

    type Error = StringError;

    open spec fn holds(value: Seq<char>) -> bool {
        value.len() == N
    }

    open spec fn describes(error: StringError, value: Seq<char>) -> bool {
        error == (StringError::WrongLength { expected: N, found: value.len() as usize })
    }

    fn validate(value: &String) -> (verdict: Result<(), StringError>)
        ensures
            verdict == if value@.len() == N {
                Ok::<(), StringError>(())
            } else {
                Err(StringError::WrongLength { expected: N, found: value@.len() as usize })
            },
    {
        let found = value.as_str().unicode_len();
        if found == N {
            Ok(())
        } else {
            Err(StringError::WrongLength { expected: N, found })
        }
    }
}

/// A string of at most `N` characters.
#[derive(Debug, PartialEq, Eq, PartialOrd, Ord, Hash)]
pub struct MaximumLengthProperty<const N: usize>;

impl<const N: usize> Property for MaximumLengthProperty<N> {
    type Value = String;

    type Error = StringError;

    open spec fn holds(value: Seq<char>) -> bool {
        value.len() <= N
    }

    open spec fn describes(error: StringError, value: Seq<char>) -> bool {
        error == (StringError::TooLong { limit: N, found: value.len() as usize })
    }

    fn validate(value: &String) -> (verdict: Result<(), StringError>)
        ensures
            verdict == if value@.len() <= N {
                Ok::<(), StringError>(())
            } else {
                Err(StringError::TooLong { limit: N, found: value@.len() as usize })
            },
    {
        let found = value.as_str().unicode_len();
        if found <= N {
            Ok(())
        } else {
            Err(StringError::TooLong { limit: N, found })
        }
    }
}

/// A string that satisfies `T` and has exactly `N` characters; the length is looked at only
/// once `T` has accepted.
pub type FixedLengthProperty<T, const N: usize> = Sequential<T, LengthProperty<N>>;

} // verus!
