//! The unsigned integer types that a bounded number can be made of.

use vstd::prelude::*;

verus! {

/// An unsigned integer type of at most 64 bits, seen as a range of natural numbers.
pub trait UInt: Copy + View {
    /// The largest number of the type.
    spec fn limit() -> nat;

    /// The number that a value stands for.
    spec fn number(value: Self::V) -> nat;

    /// The value that stands for `n`, where `n` is at most [`UInt::limit`].
    spec fn of(n: nat) -> Self::V;

    /// Values and the numbers up to the limit correspond one to one.
    proof fn lemma_numbers(value: Self::V, n: nat)
        ensures
            Self::limit() <= u64::MAX,
            Self::number(value) <= Self::limit(),
            Self::of(Self::number(value)) == value,
            n <= Self::limit() ==> Self::number(Self::of(n)) == n,
    ;

    /// The value as a `u64`.
    fn to_u64(self) -> (n: u64)
        ensures
            n == Self::number(self@),
    ;

    /// The value that stands for `n`, or `None` where `n` is above the limit.
    fn try_from_u64(n: u64) -> (value: Option<Self>)
        ensures
            n <= Self::limit() ==> (value matches Some(made) && made@ == Self::of(n as nat)),
            n > Self::limit() ==> value is None,
    ;

    /// The sum of two values that the type can hold.
    fn sum(self, other: Self) -> (total: Self)
        requires
            Self::number(self@) + Self::number(other@) <= Self::limit(),
        ensures
            total@ == Self::of(Self::number(self@) + Self::number(other@)),
    ;
}

impl UInt for u8 {
    open spec fn limit() -> nat {
        u8::MAX as nat
    }

    open spec fn number(value: Self) -> nat {
        value as nat
    }

    open spec fn of(n: nat) -> u8 {
        n as u8
    }

    proof fn lemma_numbers(value: u8, n: nat) {
    }

    fn to_u64(self) -> (n: u64)
        ensures
            n == self,
    {
        self as u64
    }

    fn try_from_u64(n: u64) -> (value: Option<u8>)
        ensures
            value == if n <= u8::MAX { Some(n as u8) } else { None },
    {
        if n <= u8::MAX as u64 {
            Some(n as u8)
        } else {
            None
        }
    }

    fn sum(self, other: u8) -> (total: u8)
        ensures
            total == self + other,
    {
        self + other
    }
}

impl UInt for u16 {
    open spec fn limit() -> nat {
        u16::MAX as nat
    }

    open spec fn number(value: Self) -> nat {
        value as nat
    }

    open spec fn of(n: nat) -> u16 {
        n as u16
    }

    proof fn lemma_numbers(value: u16, n: nat) {
    }

    fn to_u64(self) -> (n: u64)
        ensures
            n == self,
    {
        self as u64
    }

    fn try_from_u64(n: u64) -> (value: Option<u16>)
        ensures
            value == if n <= u16::MAX { Some(n as u16) } else { None },
    {
        if n <= u16::MAX as u64 {
            Some(n as u16)
        } else {
            None
        }
    }

    fn sum(self, other: u16) -> (total: u16)
        ensures
            total == self + other,
    {
        self + other
    }
}

impl UInt for u32 {
    open spec fn limit() -> nat {
        u32::MAX as nat
    }

    open spec fn number(value: Self) -> nat {
        value as nat
    }

    open spec fn of(n: nat) -> u32 {
        n as u32
    }

    proof fn lemma_numbers(value: u32, n: nat) {
    }

    fn to_u64(self) -> (n: u64)
        ensures
            n == self,
    {
        self as u64
    }

    fn try_from_u64(n: u64) -> (value: Option<u32>)
        ensures
            value == if n <= u32::MAX { Some(n as u32) } else { None },
    {
        if n <= u32::MAX as u64 {
            Some(n as u32)
        } else {
            None
        }
    }

    fn sum(self, other: u32) -> (total: u32)
        ensures
            total == self + other,
    {
        self + other
    }
}

impl UInt for u64 {
    open spec fn limit() -> nat {
        u64::MAX as nat
    }

    open spec fn number(value: Self) -> nat {
        value as nat
    }

    open spec fn of(n: nat) -> u64 {
        n as u64
    }

    proof fn lemma_numbers(value: u64, n: nat) {
    }

    fn to_u64(self) -> (n: u64)
        ensures
            n == self,
    {
        self
    }

    fn try_from_u64(n: u64) -> (value: Option<u64>)
        ensures
            value == Some(n),
    {
        Some(n)
    }

    fn sum(self, other: u64) -> (total: u64)
        ensures
            total == self + other,
    {
        self + other
    }
}

} // verus!
