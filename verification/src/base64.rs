//! Base64 with padding, as a codec for strings.
//!
//! Bytes are written as text, three bytes to four characters, with the symbols `A` to `Z`,
//! `a` to `z`, `0` to `9`, `+` and `/`, and `=` as padding. A string is written as the
//! base64 text of its UTF-8 bytes.

use std::str::Chars;
use vstd::prelude::*;
use vstd::std_specs::iter::IteratorSpec;
use crate::codec::{Codec, Decode, Encode};

verus! {

/// The character that fills the last group of a text up to four characters.
pub open spec fn pad() -> char {
    '='
}

/// The symbol for a number below 64: `A` to `Z`, `a` to `z`, `0` to `9`, `+`, `/`.
pub open spec fn symbol(sextet: nat) -> char
    recommends
        sextet < 64,
{
    if sextet < 26 {
        (('A' as u8) + sextet) as u8 as char
    } else if sextet < 52 {
        (('a' as u8) + sextet - 26) as u8 as char
    } else if sextet < 62 {
        (('0' as u8) + sextet - 52) as u8 as char
    } else if sextet == 62 {
        '+'
    } else {
        '/'
    }
}

/// The number that a symbol stands for, or `None` for a character that is no symbol.
pub open spec fn sextet(c: char) -> Option<nat> {
    if 'A' <= c <= 'Z' {
        Some((c as u8 - 'A' as u8) as nat)
    } else if 'a' <= c <= 'z' {
        Some((c as u8 - 'a' as u8 + 26) as nat)
    } else if '0' <= c <= '9' {
        Some((c as u8 - '0' as u8 + 52) as nat)
    } else if c == '+' {
        Some(62)
    } else if c == '/' {
        Some(63)
    } else {
        None
    }
}

/// Each number below 64 is what its symbol stands for, and no symbol is the padding
/// character.
pub proof fn lemma_symbol_sextet(n: nat)
    requires
        n < 64,
    ensures
        sextet(symbol(n)) == Some(n),
        symbol(n) != pad(),
{
}

/// What a symbol stands for is below 64, and the symbol for that number is the symbol
/// itself.
pub proof fn lemma_sextet_symbol(c: char)
    requires
        sextet(c) is Some,
    ensures
        sextet(c)->0 < 64,
        symbol(sextet(c)->0) == c,
        c != pad(),
{
}

/// The symbol for a number below 64.
pub fn symbol_of(n: u8) -> (c: char)
    requires
        n < 64,
    ensures
        c == symbol(n as nat),
{
    if n < 26 {
        (65u8 + n) as char
    } else if n < 52 {
        (97u8 + (n - 26)) as char
    } else if n < 62 {
        (48u8 + (n - 52)) as char
    } else if n == 62 {
        '+'
    } else {
        '/'
    }
}

/// The number that a symbol stands for, or `None` for a character that is no symbol.
pub fn sextet_of(c: char) -> (n: Option<u8>)
    ensures
        match n {
            Some(n) => sextet(c) == Some(n as nat),
            None => sextet(c) is None,
        },
{
    if 'A' <= c && c <= 'Z' {
        Some((c as u8) - 65u8)
    } else if 'a' <= c && c <= 'z' {
        Some((c as u8) - 97u8 + 26)
    } else if '0' <= c && c <= '9' {
        Some((c as u8) - 48u8 + 52)
    } else if c == '+' {
        Some(62)
    } else if c == '/' {
        Some(63)
    } else {
        None
    }
}

/// The four numbers below 64 that three bytes are written as: their 24 bits, six at a time.
pub open spec fn split(b0: u8, b1: u8, b2: u8) -> (nat, nat, nat, nat) {
    (
        (b0 / 4) as nat,
        ((b0 % 4) * 16 + b1 / 16) as nat,
        ((b1 % 16) * 4 + b2 / 64) as nat,
        (b2 % 64) as nat,
    )
}

/// The three bytes that four numbers below 64 stand for.
pub open spec fn join(s0: nat, s1: nat, s2: nat, s3: nat) -> (u8, u8, u8)
    recommends
        s0 < 64,
        s1 < 64,
        s2 < 64,
        s3 < 64,
{
    ((s0 * 4 + s1 / 16) as u8, ((s1 % 16) * 16 + s2 / 4) as u8, ((s2 % 4) * 64 + s3) as u8)
}

/// Bytes as base64 text. Each three bytes give four symbols; one or two bytes left over at
/// the end give two or three symbols and padding up to four characters.
pub open spec fn encode_bytes(bytes: Seq<u8>) -> Seq<char>
    decreases bytes.len(),
{
    if bytes.len() == 0 {
        Seq::empty()
    } else if bytes.len() == 1 {
        let s = split(bytes[0], 0, 0);
        seq![symbol(s.0), symbol(s.1), pad(), pad()]
    } else if bytes.len() == 2 {
        let s = split(bytes[0], bytes[1], 0);
        seq![symbol(s.0), symbol(s.1), symbol(s.2), pad()]
    } else {
        let s = split(bytes[0], bytes[1], bytes[2]);
        seq![symbol(s.0), symbol(s.1), symbol(s.2), symbol(s.3)] + encode_bytes(bytes.skip(3))
    }
}

/// The bytes that one group of four characters stands for, or `None` where the group is
/// malformed. Only the last group of a text may be padded, and the bits of its last symbol
/// that belong to no byte must be zero.
pub open spec fn decode_group(c0: char, c1: char, c2: char, c3: char, last: bool) -> Option<
    Seq<u8>,
> {
    match (sextet(c0), sextet(c1)) {
        (Some(s0), Some(s1)) => if last && c2 == pad() && c3 == pad() {
            if s1 % 16 == 0 {
                Some(seq![join(s0, s1, 0, 0).0])
            } else {
                None
            }
        } else {
            match sextet(c2) {
                Some(s2) => if last && c3 == pad() {
                    if s2 % 4 == 0 {
                        Some(seq![join(s0, s1, s2, 0).0, join(s0, s1, s2, 0).1])
                    } else {
                        None
                    }
                } else {
                    match sextet(c3) {
                        Some(s3) => Some(
                            seq![
                                join(s0, s1, s2, s3).0,
                                join(s0, s1, s2, s3).1,
                                join(s0, s1, s2, s3).2,
                            ],
                        ),
                        None => None,
                    }
                },
                None => None,
            }
        },
        _ => None,
    }
}

/// The bytes that a base64 text stands for, or `None` where the text is malformed: where
/// its length is no multiple of four, or one of its groups is malformed.
pub open spec fn decode_chars(text: Seq<char>) -> Option<Seq<u8>>
    decreases text.len(),
{
    if text.len() == 0 {
        Some(Seq::empty())
    } else if text.len() < 4 {
        None
    } else {
        match decode_group(text[0], text[1], text[2], text[3], text.len() == 4) {
            None => None,
            Some(head) => match decode_chars(text.skip(4)) {
                None => None,
                Some(tail) => Some(head + tail),
            },
        }
    }
}

/// A text that stands for bytes has a length that is a multiple of four.
pub proof fn lemma_decoded_length(text: Seq<char>)
    requires
        decode_chars(text) is Some,
    ensures
        text.len() % 4 == 0,
    decreases text.len(),
{
    if text.len() >= 4 {
        lemma_decoded_length(text.skip(4));
    }
}

/// Splitting three bytes and joining the four numbers gives the bytes back.
pub proof fn lemma_split_join(b0: u8, b1: u8, b2: u8)
    ensures
        ({
            let s = split(b0, b1, b2);
            &&& s.0 < 64
            &&& s.1 < 64
            &&& s.2 < 64
            &&& s.3 < 64
            &&& join(s.0, s.1, s.2, s.3) == (b0, b1, b2)
        }),
{
}

/// A text of four characters stands for what its one group stands for.
proof fn lemma_decode_single_group(text: Seq<char>)
    requires
        text.len() == 4,
    ensures
        decode_chars(text) == decode_group(text[0], text[1], text[2], text[3], true),
{
    let tail = text.skip(4);
    assert(tail.len() == 0);
    assert(decode_chars(tail) == Some(Seq::<u8>::empty()));
    match decode_group(text[0], text[1], text[2], text[3], true) {
        Some(head) => {
            assert(head + Seq::<u8>::empty() =~= head);
        },
        None => {},
    }
}

/// The text of any bytes stands for these bytes.
pub proof fn lemma_encode_then_decode(bytes: Seq<u8>)
    ensures
        decode_chars(encode_bytes(bytes)) == Some(bytes),
    decreases bytes.len(),
{
    let text = encode_bytes(bytes);
    if bytes.len() == 0 {
        assert(text.len() == 0);
        assert(bytes =~= Seq::empty());
    } else if bytes.len() == 1 {
        let s = split(bytes[0], 0, 0);
        lemma_split_join(bytes[0], 0, 0);
        lemma_symbol_sextet(s.0);
        lemma_symbol_sextet(s.1);
        assert(text =~= seq![symbol(s.0), symbol(s.1), pad(), pad()]);
        lemma_decode_single_group(text);
        assert(decode_group(text[0], text[1], text[2], text[3], true) == Some(seq![bytes[0]]));
        assert(seq![bytes[0]] =~= bytes);
    } else if bytes.len() == 2 {
        let s = split(bytes[0], bytes[1], 0);
        lemma_split_join(bytes[0], bytes[1], 0);
        lemma_symbol_sextet(s.0);
        lemma_symbol_sextet(s.1);
        lemma_symbol_sextet(s.2);
        assert(text =~= seq![symbol(s.0), symbol(s.1), symbol(s.2), pad()]);
        lemma_decode_single_group(text);
        assert(decode_group(text[0], text[1], text[2], text[3], true) == Some(
            seq![bytes[0], bytes[1]],
        ));
        assert(seq![bytes[0], bytes[1]] =~= bytes);
    } else {
        let s = split(bytes[0], bytes[1], bytes[2]);
        let group = seq![symbol(s.0), symbol(s.1), symbol(s.2), symbol(s.3)];
        let rest = encode_bytes(bytes.skip(3));
        let head = seq![bytes[0], bytes[1], bytes[2]];
        lemma_split_join(bytes[0], bytes[1], bytes[2]);
        lemma_symbol_sextet(s.0);
        lemma_symbol_sextet(s.1);
        lemma_symbol_sextet(s.2);
        lemma_symbol_sextet(s.3);
        lemma_encode_then_decode(bytes.skip(3));
        assert(text == group + rest);
        assert(text[0] == group[0] && text[1] == group[1] && text[2] == group[2] && text[3]
            == group[3]);
        assert(decode_group(text[0], text[1], text[2], text[3], text.len() == 4) == Some(head));
        assert(text.skip(4) =~= rest);
        assert(decode_chars(text.skip(4)) == Some(bytes.skip(3)));
        assert(decode_chars(text) == Some(head + bytes.skip(3)));
        assert(head + bytes.skip(3) =~= bytes);
    }
}

/// Joining four numbers below 64 and splitting the three bytes gives the numbers back.
pub proof fn lemma_join_split(s0: nat, s1: nat, s2: nat, s3: nat)
    requires
        s0 < 64,
        s1 < 64,
        s2 < 64,
        s3 < 64,
    ensures
        ({
            let b = join(s0, s1, s2, s3);
            split(b.0, b.1, b.2) == (s0, s1, s2, s3)
        }),
{
}

/// A text that stands for bytes is the text of these bytes: nothing is read but what the
/// encoder writes.
pub proof fn lemma_decode_then_encode(text: Seq<char>)
    requires
        decode_chars(text) is Some,
    ensures
        encode_bytes(decode_chars(text)->0) == text,
    decreases text.len(),
{
    let bytes = decode_chars(text)->0;
    if text.len() == 0 {
        assert(bytes.len() == 0);
        assert(text =~= Seq::empty());
    } else {
        let last = text.len() == 4;
        let head = decode_group(text[0], text[1], text[2], text[3], last)->0;
        let tail = decode_chars(text.skip(4))->0;
        let s0 = sextet(text[0])->0;
        let s1 = sextet(text[1])->0;
        assert(bytes == head + tail);
        lemma_decode_then_encode(text.skip(4));
        lemma_sextet_symbol(text[0]);
        lemma_sextet_symbol(text[1]);
        if last && text[2] == pad() && text[3] == pad() {
            lemma_join_split(s0, s1, 0, 0);
            assert(tail.len() == 0);
            assert(bytes =~= head);
            assert(encode_bytes(bytes) =~= text);
        } else {
            let s2 = sextet(text[2])->0;
            lemma_sextet_symbol(text[2]);
            if last && text[3] == pad() {
                lemma_join_split(s0, s1, s2, 0);
                assert(tail.len() == 0);
                assert(bytes =~= head);
                assert(encode_bytes(bytes) =~= text);
            } else {
                let s3 = sextet(text[3])->0;
                lemma_sextet_symbol(text[3]);
                lemma_join_split(s0, s1, s2, s3);
                assert(bytes.len() >= 3);
                assert(bytes[0] == head[0] && bytes[1] == head[1] && bytes[2] == head[2]);
                assert(bytes.skip(3) =~= tail);
                assert(encode_bytes(bytes) == seq![text[0], text[1], text[2], text[3]]
                    + encode_bytes(tail));
                assert(seq![text[0], text[1], text[2], text[3]] + text.skip(4) =~= text);
            }
        }
    }
}

/// Writes bytes as base64 text.
pub fn encode_to_text(bytes: &[u8]) -> (text: String)
    ensures
        text@ == encode_bytes(bytes@),
{
    let mut text = String::new();
    let n = bytes.len();
    let mut i: usize = 0;
    assert(text@ + encode_bytes(bytes@.skip(0)) =~= encode_bytes(bytes@)) by {
        assert(bytes@.skip(0) =~= bytes@);
    }
    while n - i >= 3
        invariant
            n == bytes@.len(),
            i <= n,
            text@ + encode_bytes(bytes@.skip(i as int)) == encode_bytes(bytes@),
        decreases n - i,
    {
        let b0 = bytes[i];
        let b1 = bytes[i + 1];
        let b2 = bytes[i + 2];
        let ghost before = text@;
        let ghost rest = bytes@.skip(i as int);
        text.push(symbol_of(b0 / 4));
        text.push(symbol_of((b0 % 4) * 16 + b1 / 16));
        text.push(symbol_of((b1 % 16) * 4 + b2 / 64));
        text.push(symbol_of(b2 % 64));
        proof {
            let s = split(b0, b1, b2);
            let group = seq![symbol(s.0), symbol(s.1), symbol(s.2), symbol(s.3)];
            assert(rest.skip(3) =~= bytes@.skip(i + 3));
            assert(encode_bytes(rest) == group + encode_bytes(rest.skip(3)));
            assert(text@ =~= before + group);
            assert((before + group) + encode_bytes(rest.skip(3)) =~= before + (group
                + encode_bytes(rest.skip(3))));
        }
        i = i + 3;
    }
    let ghost before = text@;
    let ghost rest = bytes@.skip(i as int);
    if n - i == 1 {
        let b0 = bytes[i];
        text.push(symbol_of(b0 / 4));
        text.push(symbol_of((b0 % 4) * 16));
        text.push('=');
        text.push('=');
        proof {
            let s = split(b0, 0, 0);
            assert(text@ =~= before + seq![symbol(s.0), symbol(s.1), pad(), pad()]);
        }
    } else if n - i == 2 {
        let b0 = bytes[i];
        let b1 = bytes[i + 1];
        text.push(symbol_of(b0 / 4));
        text.push(symbol_of((b0 % 4) * 16 + b1 / 16));
        text.push(symbol_of((b1 % 16) * 4));
        text.push('=');
        proof {
            let s = split(b0, b1, 0);
            assert(text@ =~= before + seq![symbol(s.0), symbol(s.1), symbol(s.2), pad()]);
        }
    } else {
        assert(text@ =~= before + Seq::<char>::empty());
    }
    text
}

/// Why a text could not be read as the base64 form of a string.
#[derive(Debug, Clone, Copy, PartialEq, Eq, Structural)]
pub enum Base64Error {
    /// The number of characters is no multiple of four.
    InvalidLength,
    /// A character is no symbol, the padding is misplaced, or the last symbol before the
    /// padding has bits set that belong to no byte.
    InvalidGroup,
    /// The text stands for bytes that are not the UTF-8 form of any string.
    InvalidUtf8,
}

/// Reads one group of four characters and appends the bytes that it stands for to `bytes`.
/// Returns whether the group was well formed; a malformed group leaves `bytes` as it was.
fn decode_group_into(bytes: &mut Vec<u8>, c0: char, c1: char, c2: char, c3: char, last: bool) -> (ok:
    bool)
    ensures
        match decode_group(c0, c1, c2, c3, last) {
            Some(group) => ok && final(bytes)@ == old(bytes)@ + group,
            None => !ok && final(bytes)@ == old(bytes)@,
        },
{
    let (s0, s1) = match (sextet_of(c0), sextet_of(c1)) {
        (Some(s0), Some(s1)) => (s0, s1),
        _ => {
            return false;
        },
    };
    proof {
        lemma_sextet_symbol(c0);
        lemma_sextet_symbol(c1);
    }
    if last && c2 == '=' && c3 == '=' {
        if s1 % 16 != 0 {
            return false;
        }
        bytes.push(s0 * 4 + s1 / 16);
        assert(final(bytes)@ =~= old(bytes)@ + seq![join(s0 as nat, s1 as nat, 0, 0).0]);
        return true;
    }
    let s2 = match sextet_of(c2) {
        Some(s2) => s2,
        None => {
            return false;
        },
    };
    proof {
        lemma_sextet_symbol(c2);
    }
    if last && c3 == '=' {
        if s2 % 4 != 0 {
            return false;
        }
        bytes.push(s0 * 4 + s1 / 16);
        bytes.push((s1 % 16) * 16 + s2 / 4);
        assert(final(bytes)@ =~= old(bytes)@ + seq![
            join(s0 as nat, s1 as nat, s2 as nat, 0).0,
            join(s0 as nat, s1 as nat, s2 as nat, 0).1,
        ]);
        return true;
    }
    let s3 = match sextet_of(c3) {
        Some(s3) => s3,
        None => {
            return false;
        },
    };
    proof {
        lemma_sextet_symbol(c3);
    }
    bytes.push(s0 * 4 + s1 / 16);
    bytes.push((s1 % 16) * 16 + s2 / 4);
    bytes.push((s2 % 4) * 64 + s3);
    assert(final(bytes)@ =~= old(bytes)@ + seq![
        join(s0 as nat, s1 as nat, s2 as nat, s3 as nat).0,
        join(s0 as nat, s1 as nat, s2 as nat, s3 as nat).1,
        join(s0 as nat, s1 as nat, s2 as nat, s3 as nat).2,
    ]);
    true
}

/// The next character of a text that has one.
fn next_char(rest: &mut Chars<'_>) -> (c: char)
    requires
        (*old(rest)).remaining().len() > 0,
    ensures
        c == (*old(rest)).remaining()[0],
        (*final(rest)).remaining() == (*old(rest)).remaining().drop_first(),
{
    match rest.next() {
        Some(c) => c,
        None => vstd::pervasive::unreached(),
    }
}

/// Reads base64 text: the bytes that it stands for, or `None` where it is malformed.
pub fn decode_text(text: &str) -> (bytes: Option<Vec<u8>>)
    ensures
        match bytes {
            Some(bytes) => decode_chars(text@) == Some(bytes@),
            None => decode_chars(text@) is None,
        },
{
    let n = text.unicode_len();
    if n % 4 != 0 {
        proof {
            if decode_chars(text@) is Some {
                lemma_decoded_length(text@);
            }
        }
        return None;
    }
    let mut bytes: Vec<u8> = Vec::new();
    let mut rest = text.chars();
    let mut i: usize = 0;
    proof {
        assert(text@.skip(0) =~= text@);
        if decode_chars(text@) is Some {
            assert(bytes@ + decode_chars(text@)->0 =~= decode_chars(text@)->0);
        }
    }
    while i < n
        invariant
            n == text@.len(),
            n % 4 == 0,
            i % 4 == 0,
            i <= n,
            rest.remaining() == text@.skip(i as int),
            decode_chars(text@) == match decode_chars(text@.skip(i as int)) {
                Some(tail) => Some(bytes@ + tail),
                None => None,
            },
        decreases n - i,
    {
        let ghost here = text@.skip(i as int);
        let ghost before = bytes@;
        let c0 = next_char(&mut rest);
        let c1 = next_char(&mut rest);
        let c2 = next_char(&mut rest);
        let c3 = next_char(&mut rest);
        proof {
            assert(here.drop_first().drop_first().drop_first().drop_first() =~= text@.skip(
                i + 4,
            ));
            assert(here.skip(4) =~= text@.skip(i + 4));
            assert(c0 == here[0] && c1 == here[1] && c2 == here[2] && c3 == here[3]);
        }
        if !decode_group_into(&mut bytes, c0, c1, c2, c3, n - i == 4) {
            return None;
        }
        proof {
            let group = decode_group(c0, c1, c2, c3, here.len() == 4)->0;
            match decode_chars(here.skip(4)) {
                Some(tail) => {
                    assert((before + group) + tail =~= before + (group + tail));
                },
                None => {},
            }
        }
        i = i + 4;
    }
    assert(bytes@ + Seq::<u8>::empty() =~= bytes@);
    Some(bytes)
}

/// The codec that writes a string as the base64 text of its UTF-8 bytes.
///
/// The type stands for the codec only.
#[derive(Debug)]
pub struct Base64;

impl Encode for Base64 {
    type Value = String;

    type Target = String;

    open spec fn encoding(value: Seq<char>) -> Seq<char> {
        encode_bytes(vstd::utf8::encode_utf8(value))
    }

    fn encode(value: &String) -> (target: String)
        ensures
            target@ == encode_bytes(vstd::utf8::encode_utf8(value@)),
    {
        encode_to_text(value.as_str().as_bytes())
    }
}

impl Decode for Base64 {
    type Value = String;

    type Target = String;

    type Error = Base64Error;

    open spec fn decoding(target: Seq<char>) -> Option<Seq<char>> {
        match decode_chars(target) {
            Some(bytes) => if vstd::utf8::valid_utf8(bytes) {
                Some(vstd::utf8::decode_utf8(bytes))
            } else {
                None
            },
            None => None,
        }
    }

    open spec fn describes(error: Base64Error, target: Seq<char>) -> bool {
        error == if target.len() % 4 != 0 {
            Base64Error::InvalidLength
        } else if decode_chars(target) is None {
            Base64Error::InvalidGroup
        } else {
            Base64Error::InvalidUtf8
        }
    }

    fn decode(target: &String) -> (outcome: Result<String, Base64Error>)
        ensures
            match outcome {
                Ok(value) => decode_chars(target@) matches Some(bytes) && vstd::utf8::valid_utf8(
                    bytes,
                ) && value@ == vstd::utf8::decode_utf8(bytes),
                Err(Base64Error::InvalidLength) => target@.len() % 4 != 0,
                Err(Base64Error::InvalidGroup) => target@.len() % 4 == 0 && decode_chars(target@)
                    is None,
                Err(Base64Error::InvalidUtf8) => decode_chars(target@) matches Some(bytes)
                    && !vstd::utf8::valid_utf8(bytes),
            },
    {
        let text = target.as_str();
        if text.unicode_len() % 4 != 0 {
            proof {
                if decode_chars(text@) is Some {
                    lemma_decoded_length(text@);
                }
            }
            return Err(Base64Error::InvalidLength);
        }
        match decode_text(text) {
            None => Err(Base64Error::InvalidGroup),
            Some(bytes) => {
                let ghost read = bytes@;
                match String::from_utf8(bytes) {
                    Ok(value) => {
                        proof {
                            vstd::utf8::encode_utf8_decode_utf8(value@);
                        }
                        Ok(value)
                    },
                    Err(_) => Err(Base64Error::InvalidUtf8),
                }
            },
        }
    }
}

impl Codec for Base64 {
    proof fn lemma_round_trip(value: Seq<char>) {
        let bytes = vstd::utf8::encode_utf8(value);
        lemma_encode_then_decode(bytes);
        vstd::utf8::encode_utf8_valid_utf8(value);
        vstd::utf8::encode_utf8_decode_utf8(value);
    }
}

} // verus!
