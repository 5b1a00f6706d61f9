//! What the library takes from the standard library's `String` on its word.
//!
//! Nothing here is proved: each item states what the standard library's documentation says
//! of one of its functions.

use vstd::prelude::*;

verus! {

/// The error of `String::from_utf8`. Nothing is read from it.
#[verifier::external_type_specification]
#[verifier::external_body]
pub struct ExFromUtf8Error(std::string::FromUtf8Error);

/// `String::push` appends one character to the end of the string.
pub assume_specification[ String::push ](text: &mut String, c: char)
    ensures
        final(text)@ == old(text)@.push(c),
;

/// `String::from_utf8` makes a string of the given bytes where they are valid UTF-8, and
/// fails where they are not. The string's UTF-8 bytes are the given bytes.
pub assume_specification[ String::from_utf8 ](bytes: Vec<u8>) -> (made: Result<
    String,
    std::string::FromUtf8Error,
>)
    ensures
        made is Ok <==> vstd::utf8::valid_utf8(bytes@),
        made matches Ok(text) ==> vstd::utf8::encode_utf8(text@) == bytes@,
;

} // verus!
