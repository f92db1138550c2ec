use vstd::prelude::*;

use crate::mem::{put_word, word_at, Memory};
use crate::utils::{Byte, Number, Word};

use super::state::{align, wrap_add, Location, PROGRAM_COUNTER_INDEX, STACK_POINTER_INDEX};
use super::CPU;

verus! {

/// A register location names one of the eight registers.
pub open spec fn valid_location(loc: Location) -> bool {
    match loc {
        Location::Register(r) => r < 8,
        Location::Memory(_) => true,
    }
}

/// `w + d` modulo 2^16.
pub fn add_wrapping(w: Word, d: Word) -> (r: Word)
    ensures
        r == wrap_add(w, d as int),
{
    ((w as u32 + d as u32) % 0x10000) as Word
}

/// `w - d` modulo 2^16.
pub fn sub_wrapping(w: Word, d: Word) -> (r: Word)
    ensures
        r == wrap_add(w, -d),
{
    ((w as u32 + 0x10000 - d as u32) % 0x10000) as Word
}

/// The addressing mode of a 6-bit operand.
pub fn adressing_from_operand(operand: Byte) -> (r: Byte)
    ensures
        r == operand / 8 % 8,
{
    operand / 8 % 8
}

/// The register of a 6-bit operand.
pub fn register_from_operand(operand: Byte) -> (r: Byte)
    ensures
        r == operand % 8,
        r < 8,
{
    operand % 8
}

/// The word that a word access at `address` reads; an odd address reads the word below it.
pub fn read_memory_word(memory: &mut Memory, address: Word) -> (r: Word)
    requires
        old(memory).wf(),
    ensures
        r == word_at(old(memory)@, align(address)),
        final(memory)@ == old(memory)@,
        final(memory).wf(),
        final(memory).mapped_set() == old(memory).mapped_set(),
{
    memory.read_word((address - address % 2) as usize)
}

/// Writes a word; an odd address writes the word below it.
pub fn write_memory_word(memory: &mut Memory, address: Word, word: Word)
    requires
        old(memory).wf(),
    ensures
        final(memory)@ == put_word(old(memory)@, align(address), word),
        final(memory).wf(),
        final(memory).mapped_set() == old(memory).mapped_set(),
{
    memory.write_word((address - address % 2) as usize, word);
}

impl CPU {
    /// Reads the word at `address`, marking an odd address.
    pub fn read_word_at(&mut self, memory: &mut Memory, address: Word) -> (r: Word)
        requires
            old(memory).wf(),
        ensures
            r == word_at(old(memory)@, align(address)),
            old(self).performs(
                *old(memory),
                *final(self),
                *final(memory),
                old(self).state(*old(memory)).note_odd(address % 2 == 1),
            ),
    {
        if address % 2 == 1 {
            self.odd_access = true;
        }
        read_memory_word(memory, address)
    }

    /// Marks a word access at an odd address when `odd` holds.
    pub fn note_odd(&mut self, memory: &Memory, odd: bool)
        requires
            memory.wf(),
        ensures
            old(self).performs(*memory, *final(self), *memory, old(self).state(*memory).note_odd(odd)),
    {
        if odd {
            self.odd_access = true;
        }
    }

    /// Evaluates the 6-bit `operand` for an access of `width` bytes, with the side effects
    /// of its addressing mode on the registers.
    pub fn get_operand_location(&mut self, memory: &mut Memory, operand: Byte, width: Word) -> (loc:
        Location)
        requires
            old(memory).wf(),
            operand < 64,
            width == 1 || width == 2,
        ensures
            valid_location(loc),
            ({
                let (l, s) = old(self).state(*old(memory)).resolve(operand, width);
                loc == l && old(self).performs(*old(memory), *final(self), *final(memory), s)
            }),
    {
        let mode = adressing_from_operand(operand);
        let r = register_from_operand(operand);
        let step: Word = if r == PROGRAM_COUNTER_INDEX {
            2
        } else {
            width
        };
        let v = self.registers[r as usize];
        if mode == 0 {
            Location::Register(r)
        } else if mode == 1 {
            self.note_odd(memory, width == 2 && v % 2 == 1);
            Location::Memory(v)
        } else if mode == 2 {
            self.registers[r as usize] = add_wrapping(v, step);
            self.note_odd(memory, width == 2 && v % 2 == 1);
            Location::Memory(v)
        } else if mode == 3 {
            self.registers[r as usize] = add_wrapping(v, 2);
            let p = self.read_word_at(memory, v);
            self.note_odd(memory, width == 2 && p % 2 == 1);
            Location::Memory(p)
        } else if mode == 4 {
            let d = sub_wrapping(v, step);
            self.registers[r as usize] = d;
            self.note_odd(memory, width == 2 && d % 2 == 1);
            Location::Memory(d)
        } else if mode == 5 {
            let d = sub_wrapping(v, 2);
            self.registers[r as usize] = d;
            let p = self.read_word_at(memory, d);
            self.note_odd(memory, width == 2 && p % 2 == 1);
            Location::Memory(p)
        } else {
            let pc = self.registers[PROGRAM_COUNTER_INDEX as usize];
            self.registers[PROGRAM_COUNTER_INDEX as usize] = add_wrapping(pc, 2);
            let x = self.read_word_at(memory, pc);
            let a = add_wrapping(x, self.registers[r as usize]);
            if mode == 6 {
                self.note_odd(memory, width == 2 && a % 2 == 1);
                Location::Memory(a)
            } else {
                let p = self.read_word_at(memory, a);
                self.note_odd(memory, width == 2 && p % 2 == 1);
                Location::Memory(p)
            }
        }
    }

    pub fn get_word(&mut self, memory: &mut Memory, loc: Location) -> (r: Word)
        requires
            old(memory).wf(),
            valid_location(loc),
        ensures
            r == old(self).state(*old(memory)).load_word(loc),
            old(self).performs(
                *old(memory),
                *final(self),
                *final(memory),
                old(self).state(*old(memory)),
            ),
    {
        match loc {
            Location::Register(r) => self.registers[r as usize],
            Location::Memory(a) => read_memory_word(memory, a),
        }
    }

    pub fn get_byte(&mut self, memory: &mut Memory, loc: Location) -> (r: Byte)
        requires
            old(memory).wf(),
            valid_location(loc),
        ensures
            r == old(self).state(*old(memory)).load_byte(loc),
            old(self).performs(
                *old(memory),
                *final(self),
                *final(memory),
                old(self).state(*old(memory)),
            ),
    {
        match loc {
            Location::Register(r) => self.registers[r as usize].low(),
            Location::Memory(a) => memory.read_byte(a as usize),
        }
    }

    pub fn put_word(&mut self, memory: &mut Memory, loc: Location, word: Word)
        requires
            old(memory).wf(),
            valid_location(loc),
        ensures
            old(self).performs(
                *old(memory),
                *final(self),
                *final(memory),
                old(self).state(*old(memory)).store_word(loc, word),
            ),
    {
        match loc {
            Location::Register(r) => {
                self.registers[r as usize] = word;
            },
            Location::Memory(a) => {
                write_memory_word(memory, a, word);
            },
        }
    }

    pub fn put_byte(&mut self, memory: &mut Memory, loc: Location, byte: Byte)
        requires
            old(memory).wf(),
            valid_location(loc),
        ensures
            old(self).performs(
                *old(memory),
                *final(self),
                *final(memory),
                old(self).state(*old(memory)).store_byte(loc, byte),
            ),
    {
        match loc {
            Location::Register(r) => {
                self.registers[r as usize] = byte.register();
            },
            Location::Memory(a) => {
                memory.write_byte(a as usize, byte);
            },
        }
    }

    /// Reads the word operand `operand`: where it lives and its value.
    pub fn get_word_by_operand(&mut self, memory: &mut Memory, operand: Byte) -> (r: (
        Location,
        Word,
    ))
        requires
            old(memory).wf(),
            operand < 64,
        ensures
            valid_location(r.0),
            ({
                let (l, s) = old(self).state(*old(memory)).resolve(operand, 2);
                r.0 == l && r.1 == s.load_word(l) && old(self).performs(
                    *old(memory),
                    *final(self),
                    *final(memory),
                    s,
                )
            }),
    {
        let loc = self.get_operand_location(memory, operand, 2);
        let w = self.get_word(memory, loc);
        (loc, w)
    }

    /// Reads the byte operand `operand`: where it lives and its value.
    pub fn get_byte_by_operand(&mut self, memory: &mut Memory, operand: Byte) -> (r: (
        Location,
        Byte,
    ))
        requires
            old(memory).wf(),
            operand < 64,
        ensures
            valid_location(r.0),
            ({
                let (l, s) = old(self).state(*old(memory)).resolve(operand, 1);
                r.0 == l && r.1 == s.load_byte(l) && old(self).performs(
                    *old(memory),
                    *final(self),
                    *final(memory),
                    s,
                )
            }),
    {
        let loc = self.get_operand_location(memory, operand, 1);
        let b = self.get_byte(memory, loc);
        (loc, b)
    }

    pub fn push_stack(&mut self, memory: &mut Memory, word: Word)
        requires
            old(memory).wf(),
        ensures
            old(self).performs(
                *old(memory),
                *final(self),
                *final(memory),
                old(self).state(*old(memory)).push(word),
            ),
    {
        let sp = sub_wrapping(self.registers[STACK_POINTER_INDEX as usize], 2);
        self.registers[STACK_POINTER_INDEX as usize] = sp;
        write_memory_word(memory, sp, word);
        self.note_odd(memory, sp % 2 == 1);
    }

    pub fn pop_stack(&mut self, memory: &mut Memory) -> (r: Word)
        requires
            old(memory).wf(),
        ensures
            ({
                let (w, s) = old(self).state(*old(memory)).pop();
                r == w && old(self).performs(*old(memory), *final(self), *final(memory), s)
            }),
    {
        let sp = self.registers[STACK_POINTER_INDEX as usize];
        self.registers[STACK_POINTER_INDEX as usize] = add_wrapping(sp, 2);
        self.read_word_at(memory, sp)
    }
}

} // verus!
