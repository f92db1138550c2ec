use vstd::prelude::*;

use crate::tty::TtyMappedMemoryWord;
use crate::utils::{word, Address, Byte, Number, Word};

verus! {

/// Size of the address space in bytes.
pub const MEM_SIZE: usize = 0x10000;

pub open spec fn low_of(w: Word) -> Byte {
    (w % 0x100) as Byte
}

pub open spec fn high_of(w: Word) -> Byte {
    (w / 0x100) as Byte
}

/// The half of `w` that is stored at the odd address (`high`) or at the even one.
pub open spec fn byte_in(w: Word, high: bool) -> Byte {
    if high {
        high_of(w)
    } else {
        low_of(w)
    }
}

/// `w` with one of its halves replaced by `b`.
pub open spec fn with_byte(w: Word, b: Byte, high: bool) -> Word {
    if high {
        (low_of(w) + 0x100 * b) as Word
    } else {
        (b + 0x100 * high_of(w)) as Word
    }
}

/// The little-endian word that starts at `a` in `m`.
pub open spec fn word_at(m: Seq<Byte>, a: int) -> Word {
    (m[a] + 0x100 * m[a + 1]) as Word
}

/// `m` with the word `w` stored little-endian at `a`.
pub open spec fn put_word(m: Seq<Byte>, a: int, w: Word) -> Seq<Byte> {
    m.update(a, low_of(w)).update(a + 1, high_of(w))
}

pub open spec fn is_word_address(a: int) -> bool {
    0 <= a < MEM_SIZE && a % 2 == 0
}

pub proof fn lemma_halves(w: Word)
    ensures
        low_of(w) + 0x100 * high_of(w) == w,
        (low_of(w) + 0x100 * high_of(w)) as Word == w,
{
}

pub proof fn lemma_with_byte(w: Word, b: Byte, high: bool)
    ensures
        byte_in(with_byte(w, b, high), high) == b,
        byte_in(with_byte(w, b, high), !high) == byte_in(w, !high),
{
}

/// A word that a device owns and binds to an address of the memory.
pub trait MappedMemoryWord {
    spec fn value(&self) -> Word;

    fn read_word(&mut self) -> (r: Word)
        ensures
            r == old(self).value(),
            final(self).value() == old(self).value(),
    ;

    fn write_word(&mut self, word: Word)
        ensures
            final(self).value() == word,
    ;

    fn read_byte(&mut self, high: bool) -> (r: Byte)
        ensures
            r == byte_in(old(self).value(), high),
            final(self).value() == old(self).value(),
    ;

    fn write_byte(&mut self, byte: Byte, high: bool)
        ensures
            final(self).value() == with_byte(old(self).value(), byte, high),
    ;
}

/// A mapped word that only holds its value.
#[derive(Clone, Copy, Debug, PartialEq, Eq)]
pub struct SimpleMappedMemoryWord {
    pub word: Word,
}

impl SimpleMappedMemoryWord {
    pub fn new() -> (r: Self)
        ensures
            r.word == 0,
    {
        SimpleMappedMemoryWord { word: 0x0000u16 }
    }
}

impl MappedMemoryWord for SimpleMappedMemoryWord {
    open spec fn value(&self) -> Word {
        self.word
    }

    fn read_word(&mut self) -> (r: Word)
        ensures
            *final(self) == *old(self),
    {
        assert(self.word == self.value());
        self.word
    }

    fn write_word(&mut self, word: Word)
        ensures
            *final(self) == (SimpleMappedMemoryWord { word }),
    {
        self.word = word;
    }

    fn read_byte(&mut self, high: bool) -> (r: Byte)
        ensures
            *final(self) == *old(self),
    {
        let w = self.read_word();
        if high {
            w.high()
        } else {
            w.low()
        }
    }

    fn write_byte(&mut self, byte: Byte, high: bool) {
        let w = self.read_word();
        let new_word = if high {
            word(w.low(), byte)
        } else {
            word(byte, w.high())
        };
        self.write_word(new_word);
    }
}

/// What can be bound to a word of the memory.
#[derive(Clone, Copy, Debug)]
pub enum MappedCell {
    Simple(SimpleMappedMemoryWord),
    Tty(TtyMappedMemoryWord),
}

impl MappedCell {
    /// Whether the cell was written since it was last read.
    pub open spec fn spec_has_new_data(&self) -> bool {
        match self {
            MappedCell::Simple(_) => false,
            MappedCell::Tty(t) => t.has_new_data,
        }
    }

    pub fn has_new_data(&self) -> (r: bool)
        ensures
            r == self.spec_has_new_data(),
    {
        match self {
            MappedCell::Simple(_) => false,
            MappedCell::Tty(t) => t.has_new_data(),
        }
    }

    pub fn peek_word(&self) -> (r: Word)
        ensures
            r == self.value(),
    {
        match self {
            MappedCell::Simple(s) => s.word,
            MappedCell::Tty(t) => t.word.word,
        }
    }
}

impl MappedMemoryWord for MappedCell {
    open spec fn value(&self) -> Word {
        match self {
            MappedCell::Simple(s) => s.word,
            MappedCell::Tty(t) => t.word.word,
        }
    }

    fn read_word(&mut self) -> (r: Word)
        ensures
            final(self).spec_has_new_data() == false,
            (*final(self) is Tty) == (*old(self) is Tty),
    {
        match self {
            MappedCell::Simple(s) => s.read_word(),
            MappedCell::Tty(t) => t.read_word(),
        }
    }

    fn write_word(&mut self, word: Word)
        ensures
            final(self).spec_has_new_data() == (*old(self) is Tty),
    {
        match self {
            MappedCell::Simple(s) => s.write_word(word),
            MappedCell::Tty(t) => t.write_word(word),
        }
    }

    fn read_byte(&mut self, high: bool) -> (r: Byte)
        ensures
            final(self).spec_has_new_data() == false,
    {
        let w = self.read_word();
        if high {
            w.high()
        } else {
            w.low()
        }
    }

    fn write_byte(&mut self, byte: Byte, high: bool)
        ensures
            final(self).spec_has_new_data() == (*old(self) is Tty),
    {
        let w = self.read_word();
        let new_word = if high {
            word(w.low(), byte)
        } else {
            word(byte, w.high())
        };
        self.write_word(new_word);
    }
}

/// The 64 KiB address space, with words that devices may bind.
pub struct Memory {
    bytes: Vec<Byte>,
    mapped: Vec<Option<MappedCell>>,
}

impl Memory {
    /// The byte array covers the address space, and there is a slot for each word.
    pub closed spec fn wf(&self) -> bool {
        &&& self.bytes.len() == MEM_SIZE
        &&& self.mapped.len() == MEM_SIZE / 2
    }

    /// The cell bound to the word that holds address `a`, if any.
    pub closed spec fn cell(&self, a: int) -> Option<MappedCell> {
        self.mapped@[a / 2]
    }

    /// The byte array behind the bound cells.
    pub closed spec fn backing(&self) -> Seq<Byte> {
        self.bytes@
    }

    /// The even addresses that have a cell bound.
    pub closed spec fn mapped_set(&self) -> Set<int> {
        Set::new(|a: int| is_word_address(a) && self.mapped@[a / 2] is Some)
    }

    closed spec fn byte_at(&self, a: int) -> Byte {
        match self.mapped@[a / 2] {
            Some(c) => byte_in(c.value(), a % 2 == 1),
            None => self.bytes@[a],
        }
    }

    pub fn new() -> (r: Self)
        ensures
            r.wf(),
            r@ == Seq::new(MEM_SIZE as nat, |a: int| 0u8),
            r.backing() == r@,
            r.mapped_set() == Set::<int>::empty(),
            forall|a: int| #![trigger r.cell(a)] 0 <= a < MEM_SIZE ==> r.cell(a) is None,
    {
        let mut bytes: Vec<Byte> = Vec::new();
        let mut i: usize = 0;
        while i < MEM_SIZE
            invariant
                i <= MEM_SIZE,
                bytes@ == Seq::new(i as nat, |a: int| 0u8),
            decreases MEM_SIZE - i,
        {
            bytes.push(0);
            i = i + 1;
        }
        let mut mapped: Vec<Option<MappedCell>> = Vec::new();
        let mut j: usize = 0;
        while j < MEM_SIZE / 2
            invariant
                j <= MEM_SIZE / 2,
                mapped@ == Seq::new(j as nat, |a: int| None::<MappedCell>),
            decreases MEM_SIZE / 2 - j,
        {
            mapped.push(None);
            j = j + 1;
        }
        let r = Memory { bytes, mapped };
        assert(r@ =~= Seq::new(MEM_SIZE as nat, |a: int| 0u8));
        assert(r.backing() =~= r@);
        assert(r.mapped_set() =~= Set::<int>::empty());
        r
    }

    pub fn read_byte(&mut self, address: Address) -> (r: Byte)
        requires
            old(self).wf(),
            address < MEM_SIZE,
        ensures
            final(self).wf(),
            r == old(self)@[address as int],
            final(self)@ == old(self)@,
            final(self).backing() == old(self).backing(),
            final(self).mapped_set() == old(self).mapped_set(),
            forall|a: int| #![trigger final(self).cell(a)]
                0 <= a < MEM_SIZE && a / 2 != address / 2 ==> final(self).cell(a) == old(self).cell(a),
            old(self).cell(address as int) is Some ==> final(self).cell(address as int) is Some
                && !final(self).cell(address as int)->Some_0.spec_has_new_data(),
            (final(self).cell(address as int) is Some) == (old(self).cell(address as int) is Some),
    {
        let slot = address / 2;
        match self.mapped[slot] {
            Some(c) => {
                let mut cell = c;
                let r = cell.read_byte(address % 2 == 1);
                self.mapped.set(slot, Some(cell));
                assert(self@ =~= old(self)@);
                assert(self.mapped_set() =~= old(self).mapped_set());
                r
            },
            None => self.bytes[address],
        }
    }

    pub fn write_byte(&mut self, address: Address, data: Byte) -> (r: Address)
        requires
            old(self).wf(),
            address < MEM_SIZE,
        ensures
            final(self).wf(),
            r == address + 1,
            final(self)@ == old(self)@.update(address as int, data),
            final(self).backing() == old(self).backing().update(address as int, data),
            final(self).mapped_set() == old(self).mapped_set(),
            forall|a: int| #![trigger final(self).cell(a)]
                0 <= a < MEM_SIZE && a / 2 != address / 2 ==> final(self).cell(a) == old(self).cell(a),
            old(self).cell(address as int) is Some ==> final(self).cell(address as int) is Some
                && final(self).cell(address as int)->Some_0.spec_has_new_data() == (old(self).cell(
                address as int)->Some_0 is Tty),
            (final(self).cell(address as int) is Some) == (old(self).cell(address as int) is Some),
    {
        self.bytes.set(address, data);
        let slot = address / 2;
        match self.mapped[slot] {
            Some(c) => {
                let mut cell = c;
                cell.write_byte(data, address % 2 == 1);
                self.mapped.set(slot, Some(cell));
                proof {
                    lemma_with_byte(c.value(), data, address % 2 == 1);
                }
            },
            None => {},
        }
        assert(self@ =~= old(self)@.update(address as int, data));
        assert(self.mapped_set() =~= old(self).mapped_set());
        address + 1
    }

    pub fn read_word(&mut self, address: Address) -> (r: Word)
        requires
            old(self).wf(),
            is_word_address(address as int),
        ensures
            final(self).wf(),
            r == word_at(old(self)@, address as int),
            final(self)@ == old(self)@,
            final(self).backing() == old(self).backing(),
            final(self).mapped_set() == old(self).mapped_set(),
            forall|a: int| #![trigger final(self).cell(a)]
                0 <= a < MEM_SIZE && a / 2 != address / 2 ==> final(self).cell(a) == old(self).cell(a),
            old(self).cell(address as int) is Some ==> final(self).cell(address as int) is Some
                && !final(self).cell(address as int)->Some_0.spec_has_new_data(),
            (final(self).cell(address as int) is Some) == (old(self).cell(address as int) is Some),
    {
        let slot = address / 2;
        match self.mapped[slot] {
            Some(c) => {
                let mut cell = c;
                let r = cell.read_word();
                self.mapped.set(slot, Some(cell));
                assert(self@ =~= old(self)@);
                assert(self.mapped_set() =~= old(self).mapped_set());
                proof {
                    lemma_halves(r);
                }
                r
            },
            None => word(self.bytes[address], self.bytes[address + 1]),
        }
    }

    pub fn write_word(&mut self, address: Address, word: Word) -> (r: Address)
        requires
            old(self).wf(),
            is_word_address(address as int),
        ensures
            final(self).wf(),
            r == address + 2,
            final(self)@ == put_word(old(self)@, address as int, word),
            final(self).backing() == put_word(old(self).backing(), address as int, word),
            final(self).mapped_set() == old(self).mapped_set(),
            forall|a: int| #![trigger final(self).cell(a)]
                0 <= a < MEM_SIZE && a / 2 != address / 2 ==> final(self).cell(a) == old(self).cell(a),
            old(self).cell(address as int) is Some ==> final(self).cell(address as int) is Some
                && final(self).cell(address as int)->Some_0.value() == word
                && final(self).cell(address as int)->Some_0.spec_has_new_data() == (old(self).cell(
                address as int)->Some_0 is Tty),
            (final(self).cell(address as int) is Some) == (old(self).cell(address as int) is Some),
    {
        self.bytes.set(address, word.low());
        self.bytes.set(address + 1, word.high());
        let slot = address / 2;
        match self.mapped[slot] {
            Some(c) => {
                let mut cell = c;
                cell.write_word(word);
                self.mapped.set(slot, Some(cell));
            },
            None => {},
        }
        assert(self@ =~= put_word(old(self)@, address as int, word));
        assert(self.backing() =~= put_word(old(self).backing(), address as int, word));
        assert(self.mapped_set() =~= old(self).mapped_set());
        address + 2
    }

    /// The word at `address`, without the side effect of a read on a bound cell.
    pub fn peek_word(&self, address: Address) -> (r: Word)
        requires
            self.wf(),
            is_word_address(address as int),
        ensures
            r == word_at(self@, address as int),
    {
        match self.mapped[address / 2] {
            Some(c) => {
                let r = c.peek_word();
                proof {
                    lemma_halves(r);
                }
                r
            },
            None => word(self.bytes[address], self.bytes[address + 1]),
        }
    }

    /// Whether the cell bound at `address` was written since it was last read.
    pub fn has_new_data(&self, address: Address) -> (r: bool)
        requires
            self.wf(),
            is_word_address(address as int),
        ensures
            r == (self.cell(address as int) is Some && self.cell(
                address as int,
            )->Some_0.spec_has_new_data()),
    {
        match self.mapped[address / 2] {
            Some(c) => c.has_new_data(),
            None => false,
        }
    }

    /// Binds `mapped_word` to the word at `address`, replacing any earlier binding.
    pub fn map_word(&mut self, address: Address, mapped_word: MappedCell) -> (r: Address)
        requires
            old(self).wf(),
            is_word_address(address as int),
        ensures
            final(self).wf(),
            r == address + 2,
            final(self).cell(address as int) == Some(mapped_word),
            word_at(final(self)@, address as int) == mapped_word.value(),
            final(self)@ == put_word(old(self)@, address as int, mapped_word.value()),
            forall|a: int| #![trigger final(self)@[a]]
                0 <= a < MEM_SIZE && a / 2 != address / 2 ==> final(self)@[a] == old(self)@[a],
            forall|a: int| #![trigger final(self).cell(a)]
                0 <= a < MEM_SIZE && a / 2 != address / 2 ==> final(self).cell(a) == old(self).cell(a),
            final(self).backing() == old(self).backing(),
            final(self).mapped_set() == old(self).mapped_set().insert(address as int),
    {
        self.mapped.set(address / 2, Some(mapped_word));
        proof {
            lemma_halves(mapped_word.value());
        }
        assert(self.mapped_set() =~= old(self).mapped_set().insert(address as int));
        assert(self@ =~= put_word(old(self)@, address as int, mapped_word.value()));
        address + 2
    }

    /// Releases the word at `address`: the value it held stays in the byte array.
    pub fn unmap_word(&mut self, address: Address) -> (r: Address)
        requires
            old(self).wf(),
            is_word_address(address as int),
        ensures
            final(self).wf(),
            r == address + 2,
            final(self)@ == old(self)@,
            final(self).cell(address as int) is None,
            final(self).backing() == put_word(
                old(self).backing(),
                address as int,
                word_at(old(self)@, address as int),
            ),
            forall|a: int| #![trigger final(self).cell(a)]
                0 <= a < MEM_SIZE && a / 2 != address / 2 ==> final(self).cell(a) == old(self).cell(a),
            final(self).mapped_set() == old(self).mapped_set().remove(address as int),
    {
        let value = self.peek_word(address);
        self.mapped.set(address / 2, None);
        self.bytes.set(address, value.low());
        self.bytes.set(address + 1, value.high());
        assert(self@ =~= old(self)@);
        assert(self.backing() =~= put_word(old(self).backing(), address as int, value));
        assert(self.mapped_set() =~= old(self).mapped_set().remove(address as int));
        address + 2
    }
}

/// A well-formed memory reads as one byte for each address, and holds one byte for each
/// address behind its bound cells.
pub proof fn lemma_memory_len(m: Memory)
    requires
        m.wf(),
    ensures
        m@.len() == MEM_SIZE,
        m.backing().len() == MEM_SIZE,
{
}

impl View for Memory {
    type V = Seq<Byte>;

    /// What a read of each address returns.
    closed spec fn view(&self) -> Seq<Byte> {
        Seq::new(MEM_SIZE as nat, |a: int| self.byte_at(a))
    }
}

} // verus!
