//! Fixed-width numeric value types of the machine.

use vstd::prelude::*;

pub mod math;
pub mod traits;

verus! {

/// An 8-bit unsigned machine value.
#[derive(Copy, Clone, Debug, Ord, PartialOrd, Eq, PartialEq, Structural)]
pub struct Byte(pub u8);

/// A 16-bit unsigned machine value, stored big-endian wherever it meets memory.
#[derive(Copy, Clone, Debug, Ord, PartialOrd, Eq, PartialEq, Structural)]
pub struct Word(pub u16);

/// A 16-bit offset into the unified memory array.
#[derive(Copy, Clone, Debug, Ord, PartialOrd, Eq, PartialEq, Structural)]
pub struct Address(pub u16);

/// The value of `b` read as a two's-complement signed byte.
pub open spec fn signed_byte(b: u8) -> int {
    if b >= 128 {
        b - 256
    } else {
        b as int
    }
}

/// The value of `w` read as a two's-complement signed word.
pub open spec fn signed_word(w: u16) -> int {
    if w >= 32768 {
        w - 65536
    } else {
        w as int
    }
}

/// Whether the most significant bit of a byte is set.
pub fn is_first_bit_set_byte(value: u8) -> (r: bool)
    ensures
        r == (value >= 128),
{
    assert((value & 0x80 == 0x80) == (value >= 128)) by (bit_vector);
    value & 0x80 == 0x80
}

/// Whether the most significant bit of a word is set.
pub fn is_first_bit_set_word(value: u16) -> (r: bool)
    ensures
        r == (value >= 32768),
{
    assert((value & 0x8000 == 0x8000) == (value >= 32768)) by (bit_vector);
    value & 0x8000 == 0x8000
}

/// Whether the least significant bit of a byte is set.
pub fn is_last_bit_set_byte(value: u8) -> (r: bool)
    ensures
        r == (value % 2 == 1),
{
    value % 2 == 1
}

/// Whether the least significant bit of a word is set.
pub fn is_last_bit_set_word(value: u16) -> (r: bool)
    ensures
        r == (value % 2 == 1),
{
    value % 2 == 1
}

impl Byte {
    /// The value zero.
    pub fn zero() -> (r: Byte)
        ensures
            r.0 == 0,
    {
        Byte(0)
    }

    /// The value one.
    pub fn one() -> (r: Byte)
        ensures
            r.0 == 1,
    {
        Byte(1)
    }

    /// The wrapped value.
    pub fn value(&self) -> (r: u8)
        ensures
            r == self.0,
    {
        self.0
    }

    /// The value widened to an index.
    pub fn as_usize(&self) -> (r: usize)
        ensures
            r == self.0,
    {
        self.0 as usize
    }

    /// Whether the sign bit is set.
    pub fn is_first_bit_set(&self) -> (r: bool)
        ensures
            r == (self.0 >= 128),
    {
        is_first_bit_set_byte(self.0)
    }

    /// Addition modulo 256.
    pub fn wrapping_add(&self, byte: Byte) -> (r: Byte)
        ensures
            r.0 == (self.0 + byte.0) % 256,
    {
        let sum: u16 = self.0 as u16 + byte.0 as u16;
        Byte((sum % 256) as u8)
    }

    /// Subtraction modulo 256.
    pub fn wrapping_sub(&self, byte: Byte) -> (r: Byte)
        ensures
            r.0 == (self.0 - byte.0) % 256,
    {
        let diff: u16 = 256 + self.0 as u16 - byte.0 as u16;
        Byte((diff % 256) as u8)
    }

    /// Bitwise complement.
    pub fn not(&self) -> (r: Byte)
        ensures
            r.0 == !self.0,
    {
        Byte(!self.0)
    }

    /// Bitwise conjunction.
    pub fn and(&self, other: Byte) -> (r: Byte)
        ensures
            r.0 == self.0 & other.0,
    {
        Byte(self.0 & other.0)
    }

    /// Bitwise disjunction.
    pub fn or(&self, other: Byte) -> (r: Byte)
        ensures
            r.0 == self.0 | other.0,
    {
        Byte(self.0 | other.0)
    }

    /// Bitwise exclusive or.
    pub fn xor(&self, other: Byte) -> (r: Byte)
        ensures
            r.0 == self.0 ^ other.0,
    {
        Byte(self.0 ^ other.0)
    }
}

impl Word {
    /// The value zero.
    pub fn zero() -> (r: Word)
        ensures
            r.0 == 0,
    {
        Word(0)
    }

    /// The value one.
    pub fn one() -> (r: Word)
        ensures
            r.0 == 1,
    {
        Word(1)
    }

    /// The wrapped value.
    pub fn value(&self) -> (r: u16)
        ensures
            r == self.0,
    {
        self.0
    }

    /// Whether the sign bit is set.
    pub fn is_first_bit_set(&self) -> (r: bool)
        ensures
            r == (self.0 >= 32768),
    {
        is_first_bit_set_word(self.0)
    }

    /// Addition modulo 65536.
    pub fn wrapping_add(&self, word: Word) -> (r: Word)
        ensures
            r.0 == (self.0 + word.0) % 65536,
    {
        let sum: u32 = self.0 as u32 + word.0 as u32;
        Word((sum % 65536) as u16)
    }

    /// Subtraction modulo 65536.
    pub fn wrapping_sub(&self, word: Word) -> (r: Word)
        ensures
            r.0 == (self.0 - word.0) % 65536,
    {
        let diff: u32 = 65536 + self.0 as u32 - word.0 as u32;
        Word((diff % 65536) as u16)
    }

    /// The same sixteen bits as an address.
    pub fn to_address(self) -> (r: Address)
        ensures
            r.0 == self.0,
    {
        Address(self.0)
    }

    /// The two bytes of a word, most significant first.
    pub open spec fn split_be(self) -> (Byte, Byte) {
        (Byte((self.0 / 256) as u8), Byte((self.0 % 256) as u8))
    }

    /// The word with the most significant byte `hi` and the least `lo`.
    pub open spec fn join_be(hi: Byte, lo: Byte) -> Word {
        Word((hi.0 * 256 + lo.0) as u16)
    }

    /// The two bytes of the word, most significant first.
    pub fn to_be_bytes(self) -> (r: [Byte; 2])
        ensures
            (r[0], r[1]) == self.split_be(),
    {
        [Byte((self.0 / 256) as u8), Byte((self.0 % 256) as u8)]
    }

    /// The word whose most significant byte is `bytes[0]`.
    pub fn from_be_bytes(bytes: [Byte; 2]) -> (r: Word)
        ensures
            r == Word::join_be(bytes[0], bytes[1]),
    {
        Word(bytes[0].0 as u16 * 256 + bytes[1].0 as u16)
    }

    /// Bitwise complement.
    pub fn not(&self) -> (r: Word)
        ensures
            r.0 == !self.0,
    {
        Word(!self.0)
    }

    /// Bitwise conjunction.
    pub fn and(&self, other: Word) -> (r: Word)
        ensures
            r.0 == self.0 & other.0,
    {
        Word(self.0 & other.0)
    }

    /// Bitwise disjunction.
    pub fn or(&self, other: Word) -> (r: Word)
        ensures
            r.0 == self.0 | other.0,
    {
        Word(self.0 | other.0)
    }

    /// Bitwise exclusive or.
    pub fn xor(&self, other: Word) -> (r: Word)
        ensures
            r.0 == self.0 ^ other.0,
    {
        Word(self.0 ^ other.0)
    }
}

impl Address {
    /// The value zero.
    pub fn zero() -> (r: Address)
        ensures
            r.0 == 0,
    {
        Address(0)
    }

    /// The value one.
    pub fn one() -> (r: Address)
        ensures
            r.0 == 1,
    {
        Address(1)
    }

    /// The address `offset` bytes further on, wrapping at the top of memory.
    pub fn offset_by(self, offset: usize) -> (r: Address)
        ensures
            r.0 == (self.0 + offset) % 65536,
    {
        let step: usize = offset % 65536;
        let sum: u32 = self.0 as u32 + step as u32;
        Address((sum % 65536) as u16)
    }

    /// The address as an index into memory.
    pub fn as_usize(&self) -> (r: usize)
        ensures
            r == self.0,
    {
        self.0 as usize
    }
}

/// Splitting a word into its big-endian bytes and joining them again gives
/// the word back.
pub proof fn lemma_be_bytes_round_trip(w: Word)
    ensures
        Word::join_be(w.split_be().0, w.split_be().1) == w,
{
}

/// Joining two bytes into a word and splitting it again gives the bytes
/// back.
pub proof fn lemma_be_bytes_join_split(hi: Byte, lo: Byte)
    ensures
        Word::join_be(hi, lo).split_be() == (hi, lo),
{
}

} // verus!
