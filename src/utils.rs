pub mod blocking_queue;

use vstd::prelude::*;

verus! {

/// A memory address, always below `0x10000`.
pub type Address = usize;

pub type Byte = u8;

pub type Word = u16;

pub type LongWord = u32;

pub const BYTE_SIZE_BITS: Word = 8;

pub const WORD_SIZE_BYTES: Word = 2;

pub const WORD_SIZE_BITS: Word = 16;

/// Numeric value of the little-endian pair (`low`, `high`).
pub open spec fn word_value(low: int, high: int) -> int {
    low + 256 * high
}

/// Builds a word from its low and high byte.
pub fn word(low: Byte, high: Byte) -> (r: Word)
    ensures
        r == word_value(low as int, high as int),
{
    (high as Word) * 256 + (low as Word)
}

/// Builds a long word from its low and high word.
pub fn long_word(low: Word, high: Word) -> (r: LongWord)
    ensures
        r == low + 0x10000 * high,
{
    (high as LongWord) * 0x10000 + (low as LongWord)
}

/// Whether a 32-bit intermediate result carried out of bit 15.
pub fn has_carry(word: LongWord) -> (r: bool)
    ensures
        r == (word >= 0x10000),
{
    word >= 0x10000
}

/// Whether a 16-bit intermediate result carried out of bit 7.
pub fn word_has_carry(word: Word) -> (r: bool)
    ensures
        r == (word >= 0x100),
{
    word >= 0x100
}

/// A fixed-width unsigned number: a byte, a word or a long word.
/// `T` is the type of its halves.
pub trait Number<T>: Sized {
    spec fn spec_size_bytes() -> nat;

    spec fn spec_get_n_bit(&self, n: u8) -> bool;

    spec fn spec_set_n_bit(&self, n: u8, value: bool) -> Self;

    /// The value as it stands in a register: a byte sign-extended, a long word's low half.
    spec fn spec_register(&self) -> Word;

    spec fn spec_word(&self) -> Word;

    spec fn spec_high(&self) -> T;

    spec fn spec_low(&self) -> T;

    spec fn spec_is_zero(&self) -> bool;

    spec fn spec_is_negative(&self) -> bool;

    spec fn spec_one_complement(&self) -> Self;

    spec fn spec_two_complement(&self) -> Self;

    fn set_n_bit(&self, n: Byte, value: bool) -> (r: Self)
        requires
            n < 8 * Self::spec_size_bytes(),
        ensures
            r == self.spec_set_n_bit(n, value),
    ;

    fn get_n_bit(&self, n: Byte) -> (r: bool)
        requires
            n < 8 * Self::spec_size_bytes(),
        ensures
            r == self.spec_get_n_bit(n),
    ;

    fn register(&self) -> (r: Word)
        ensures
            r == self.spec_register(),
    ;

    fn word(&self) -> (r: Word)
        ensures
            r == self.spec_word(),
    ;

    fn high(&self) -> (r: T)
        ensures
            r == self.spec_high(),
    ;

    fn low(&self) -> (r: T)
        ensures
            r == self.spec_low(),
    ;

    fn is_zero(&self) -> (r: bool)
        ensures
            r == self.spec_is_zero(),
    ;

    fn is_negative(&self) -> (r: bool)
        ensures
            r == self.spec_is_negative(),
    ;

    fn one_complement(&self) -> (r: Self)
        ensures
            r == self.spec_one_complement(),
    ;

    fn two_complement(&self) -> (r: Self)
        ensures
            r == self.spec_two_complement(),
    ;

    fn size_bytes() -> (r: Byte)
        ensures
            r == Self::spec_size_bytes(),
    ;

    fn size_bits() -> (r: Byte)
        ensures
            r == 8 * Self::spec_size_bytes(),
    ;
}

impl Number<Byte> for Byte {
    open spec fn spec_size_bytes() -> nat {
        1
    }

    open spec fn spec_get_n_bit(&self, n: u8) -> bool {
        (*self >> n) & 1 == 1
    }

    open spec fn spec_set_n_bit(&self, n: u8, value: bool) -> Self {
        if value {
            *self | (1u8 << n)
        } else {
            *self & !(1u8 << n)
        }
    }

    open spec fn spec_register(&self) -> Word {
        if *self >= 0x80 {
            (*self as Word + 0xFF00) as Word
        } else {
            *self as Word
        }
    }

    open spec fn spec_word(&self) -> Word {
        *self as Word
    }

    open spec fn spec_high(&self) -> Byte {
        if *self >= 0x80 {
            0xFF
        } else {
            0
        }
    }

    open spec fn spec_low(&self) -> Byte {
        *self
    }

    open spec fn spec_is_zero(&self) -> bool {
        *self == 0
    }

    open spec fn spec_is_negative(&self) -> bool {
        *self >= 0x80
    }

    open spec fn spec_one_complement(&self) -> Self {
        (0xFF - *self) as Byte
    }

    open spec fn spec_two_complement(&self) -> Self {
        ((0x100 - *self) % 0x100) as Byte
    }

    fn set_n_bit(&self, n: Byte, value: bool) -> (r: Self) {
        if value {
            *self | (1u8 << n)
        } else {
            *self & !(1u8 << n)
        }
    }

    fn get_n_bit(&self, n: Byte) -> (r: bool) {
        (*self >> n) & 1 == 1
    }

    fn register(&self) -> (r: Word) {
        if *self >= 0x80 {
            *self as Word + 0xFF00
        } else {
            *self as Word
        }
    }

    fn word(&self) -> (r: Word) {
        *self as Word
    }

    fn high(&self) -> (r: Byte) {
        if *self >= 0x80 {
            0xFF
        } else {
            0
        }
    }

    fn low(&self) -> (r: Byte) {
        *self
    }

    fn is_zero(&self) -> (r: bool) {
        *self == 0
    }

    fn is_negative(&self) -> (r: bool) {
        *self >= 0x80
    }

    fn one_complement(&self) -> (r: Self) {
        0xFF - *self
    }

    fn two_complement(&self) -> (r: Self) {
        if *self == 0 {
            0
        } else {
            0xFF - *self + 1
        }
    }

    fn size_bytes() -> (r: Byte) {
        1
    }

    fn size_bits() -> (r: Byte) {
        8
    }
}

impl Number<Byte> for Word {
    open spec fn spec_size_bytes() -> nat {
        2
    }

    open spec fn spec_get_n_bit(&self, n: u8) -> bool {
        (*self >> n) & 1 == 1
    }

    open spec fn spec_set_n_bit(&self, n: u8, value: bool) -> Self {
        if value {
            *self | (1u16 << n)
        } else {
            *self & !(1u16 << n)
        }
    }

    open spec fn spec_register(&self) -> Word {
        *self
    }

    open spec fn spec_word(&self) -> Word {
        *self
    }

    open spec fn spec_high(&self) -> Byte {
        (*self / 0x100) as Byte
    }

    open spec fn spec_low(&self) -> Byte {
        (*self % 0x100) as Byte
    }

    open spec fn spec_is_zero(&self) -> bool {
        *self == 0
    }

    open spec fn spec_is_negative(&self) -> bool {
        *self >= 0x8000
    }

    open spec fn spec_one_complement(&self) -> Self {
        (0xFFFF - *self) as Word
    }

    open spec fn spec_two_complement(&self) -> Self {
        ((0x10000 - *self) % 0x10000) as Word
    }

    fn set_n_bit(&self, n: Byte, value: bool) -> (r: Self) {
        if value {
            *self | (1u16 << n)
        } else {
            *self & !(1u16 << n)
        }
    }

    fn get_n_bit(&self, n: Byte) -> (r: bool) {
        (*self >> n) & 1 == 1
    }

    fn register(&self) -> (r: Word) {
        *self
    }

    fn word(&self) -> (r: Word) {
        *self
    }

    fn high(&self) -> (r: Byte) {
        let h = *self / 0x100;
        assert(h < 0x100);
        assert(h as Byte == self.spec_high());
        h as Byte
    }

    fn low(&self) -> (r: Byte) {
        let l = *self % 0x100;
        assert(l as Byte == self.spec_low());
        l as Byte
    }

    fn is_zero(&self) -> (r: bool) {
        *self == 0
    }

    fn is_negative(&self) -> (r: bool) {
        *self >= 0x8000
    }

    fn one_complement(&self) -> (r: Self) {
        0xFFFF - *self
    }

    fn two_complement(&self) -> (r: Self) {
        if *self == 0 {
            0
        } else {
            0xFFFF - *self + 1
        }
    }

    fn size_bytes() -> (r: Byte) {
        2
    }

    fn size_bits() -> (r: Byte) {
        16
    }
}

impl Number<Word> for LongWord {
    open spec fn spec_size_bytes() -> nat {
        4
    }

    open spec fn spec_get_n_bit(&self, n: u8) -> bool {
        (*self >> n) & 1 == 1
    }

    open spec fn spec_set_n_bit(&self, n: u8, value: bool) -> Self {
        if value {
            *self | (1u32 << n)
        } else {
            *self & !(1u32 << n)
        }
    }

    open spec fn spec_register(&self) -> Word {
        (*self % 0x10000) as Word
    }

    open spec fn spec_word(&self) -> Word {
        (*self % 0x10000) as Word
    }

    open spec fn spec_high(&self) -> Word {
        (*self / 0x10000) as Word
    }

    open spec fn spec_low(&self) -> Word {
        (*self % 0x10000) as Word
    }

    open spec fn spec_is_zero(&self) -> bool {
        *self == 0
    }

    open spec fn spec_is_negative(&self) -> bool {
        *self >= 0x8000_0000
    }

    open spec fn spec_one_complement(&self) -> Self {
        (0xFFFF_FFFF - *self) as LongWord
    }

    open spec fn spec_two_complement(&self) -> Self {
        ((0x1_0000_0000 - *self) % 0x1_0000_0000) as LongWord
    }

    fn set_n_bit(&self, n: Byte, value: bool) -> (r: Self) {
        if value {
            *self | (1u32 << n)
        } else {
            *self & !(1u32 << n)
        }
    }

    fn get_n_bit(&self, n: Byte) -> (r: bool) {
        (*self >> n) & 1 == 1
    }

    fn register(&self) -> (r: Word) {
        (*self % 0x10000) as Word
    }

    fn word(&self) -> (r: Word) {
        (*self % 0x10000) as Word
    }

    fn high(&self) -> (r: Word) {
        let h = *self / 0x10000;
        assert(h < 0x10000);
        h as Word
    }

    fn low(&self) -> (r: Word) {
        (*self % 0x10000) as Word
    }

    fn is_zero(&self) -> (r: bool) {
        *self == 0
    }

    fn is_negative(&self) -> (r: bool) {
        *self >= 0x8000_0000
    }

    fn one_complement(&self) -> (r: Self) {
        0xFFFF_FFFF - *self
    }

    fn two_complement(&self) -> (r: Self) {
        if *self == 0 {
            0
        } else {
            0xFFFF_FFFF - *self + 1
        }
    }

    fn size_bytes() -> (r: Byte) {
        4
    }

    fn size_bits() -> (r: Byte) {
        32
    }
}

} // verus!
