//! Two-byte values with an explicit byte order.
//!
//! Both types keep two bytes and read them as a 16-bit number, first stored
//! byte most significant. They differ in how they take the bytes in:
//! [`LittleEndianU16`] keeps them in the order given, [`BigEndianU16`] swaps
//! them. Converting one into the other swaps the stored bytes, so a pair of
//! bytes taken in as one kind and converted reads like the same pair taken
//! in as the other kind.

use crate::word::{join_bytes, word_of};
use vstd::prelude::*;
use vstd::std_specs::convert::{FromSpec, FromSpecImpl};

verus! {

/// Two bytes kept in the order in which they were given.
#[derive(Debug, Clone, Copy)]
pub struct LittleEndianU16 {
    byte_array: [u8; 2],
}

/// Two bytes kept in the reverse of the order in which they were given.
#[derive(Debug, Clone, Copy)]
pub struct BigEndianU16 {
    byte_array: [u8; 2],
}

impl View for LittleEndianU16 {
    type V = Seq<u8>;

    /// The two stored bytes, in storage order.
    closed spec fn view(&self) -> Seq<u8> {
        self.byte_array@
    }
}

impl View for BigEndianU16 {
    type V = Seq<u8>;

    /// The two stored bytes, in storage order.
    closed spec fn view(&self) -> Seq<u8> {
        self.byte_array@
    }
}

impl LittleEndianU16 {
    /// The value that stores `first` and then `second`.
    pub closed spec fn storing(first: u8, second: u8) -> Self {
        LittleEndianU16 { byte_array: [first, second] }
    }

    /// The number that the stored bytes stand for.
    pub open spec fn value(self) -> u16 {
        word_of(self@[0], self@[1])
    }

    /// `storing` stores exactly the two bytes it is given.
    pub proof fn lemma_storing(first: u8, second: u8)
        ensures
            Self::storing(first, second)@ == seq![first, second],
    {
    }

    /// A value holds two bytes and is determined by them.
    pub proof fn lemma_determined_by_bytes(self)
        ensures
            self@.len() == 2,
            self == Self::storing(self@[0], self@[1]),
    {
        assert(self.byte_array =~= Self::storing(self@[0], self@[1]).byte_array);
    }

    /// Takes the bytes in as they come.
    pub fn new(data: [u8; 2]) -> (res: Self)
        ensures
            res@ == data@,
    {
        LittleEndianU16 { byte_array: [data[0], data[1]] }
    }

    /// Reads the stored bytes as a number, first byte most significant.
    pub fn get_value(&self) -> (value: u16)
        ensures
            value == self.value(),
    {
        join_bytes(self.byte_array[0], self.byte_array[1])
    }
}

impl BigEndianU16 {
    /// The value that stores `first` and then `second`.
    pub closed spec fn storing(first: u8, second: u8) -> Self {
        BigEndianU16 { byte_array: [first, second] }
    }

    /// The number that the stored bytes stand for.
    pub open spec fn value(self) -> u16 {
        word_of(self@[0], self@[1])
    }

    /// `storing` stores exactly the two bytes it is given.
    pub proof fn lemma_storing(first: u8, second: u8)
        ensures
            Self::storing(first, second)@ == seq![first, second],
    {
    }

    /// A value holds two bytes and is determined by them.
    pub proof fn lemma_determined_by_bytes(self)
        ensures
            self@.len() == 2,
            self == Self::storing(self@[0], self@[1]),
    {
        assert(self.byte_array =~= Self::storing(self@[0], self@[1]).byte_array);
    }

    /// Takes the bytes in swapped.
    pub fn new(data: [u8; 2]) -> (res: Self)
        ensures
            res@ == seq![data[1], data[0]],
    {
        BigEndianU16 { byte_array: [data[1], data[0]] }
    }

    /// Reads the stored bytes as a number, first byte most significant.
    pub fn get_value(&self) -> (value: u16)
        ensures
            value == self.value(),
    {
        join_bytes(self.byte_array[0], self.byte_array[1])
    }
}

impl From<BigEndianU16> for LittleEndianU16 {
    /// Swaps the stored bytes.
    fn from(big: BigEndianU16) -> (res: Self) {
        Self { byte_array: [big.byte_array[1], big.byte_array[0]] }
    }
}

impl FromSpecImpl<BigEndianU16> for LittleEndianU16 {
    open spec fn obeys_from_spec() -> bool {
        true
    }

    open spec fn from_spec(big: BigEndianU16) -> Self {
        Self::storing(big@[1], big@[0])
    }
}

impl From<LittleEndianU16> for BigEndianU16 {
    /// Swaps the stored bytes.
    fn from(little: LittleEndianU16) -> (res: Self) {
        Self { byte_array: [little.byte_array[1], little.byte_array[0]] }
    }
}

impl FromSpecImpl<LittleEndianU16> for BigEndianU16 {
    open spec fn obeys_from_spec() -> bool {
        true
    }

    open spec fn from_spec(little: LittleEndianU16) -> Self {
        Self::storing(little@[1], little@[0])
    }
}

/// What `LittleEndianU16::from` returns.
pub open spec fn to_little(big: BigEndianU16) -> LittleEndianU16 {
    <LittleEndianU16 as FromSpec<BigEndianU16>>::from_spec(big)
}

/// What `BigEndianU16::from` returns.
pub open spec fn to_big(little: LittleEndianU16) -> BigEndianU16 {
    <BigEndianU16 as FromSpec<LittleEndianU16>>::from_spec(little)
}

/// Converting to the other byte order and back changes nothing.
pub proof fn lemma_convert_twice(little: LittleEndianU16, big: BigEndianU16)
    ensures
        to_little(to_big(little)) == little,
        to_big(to_little(big)) == big,
{
    little.lemma_determined_by_bytes();
    big.lemma_determined_by_bytes();
    LittleEndianU16::lemma_storing(big@[1], big@[0]);
    BigEndianU16::lemma_storing(little@[1], little@[0]);
}

/// The same two bytes, taken in as one kind and converted to the other, read
/// like the same bytes taken in as the other kind directly.
pub proof fn lemma_convert_agrees(little: LittleEndianU16, big: BigEndianU16, data: [u8; 2])
    requires
        little@ == data@,
        big@ == seq![data[1], data[0]],
    ensures
        to_little(big) == little,
        to_big(little) == big,
{
    little.lemma_determined_by_bytes();
    big.lemma_determined_by_bytes();
}

} // verus!
