use vstd::prelude::*;

use crate::mem::{put_word, word_at};
use crate::utils::{Byte, Number, Word};

verus! {

pub const FIRST_COMMAND: usize = 0x0200;

pub const STACK_START: usize = 0x0200;

/// Where the processor status word shows in memory while the CPU runs.
pub const FLAGS_IN_MEMORY: usize = 0xFFFE;

pub const REG_COUNT: usize = 8;

/// R5, the mark pointer.
pub const MARK_POINTER_INDEX: Byte = 5;

/// R6, the stack pointer.
pub const STACK_POINTER_INDEX: Byte = 6;

/// R7, the program counter.
pub const PROGRAM_COUNTER_INDEX: Byte = 7;

pub const CARRY_FLAG_INDEX: Byte = 0;

pub const OVERFLOW_FLAG_INDEX: Byte = 1;

pub const ZERO_FLAG_INDEX: Byte = 2;

pub const NEGATIVE_FLAG_INDEX: Byte = 3;

pub const TRAP_FLAG_INDEX: Byte = 4;

pub const PRIORITY_LOW_BIT_INDEX: Byte = 5;

pub const PRIORITY_MIDDLE_BIT_INDEX: Byte = 6;

pub const PRIORITY_HIGH_BIT_INDEX: Byte = 7;

/// Where an operand lives once its addressing mode has been evaluated.
#[derive(Clone, Copy, Debug, PartialEq, Eq, Structural)]
pub enum Location {
    Register(Byte),
    Memory(Word),
}

/// The machine as instructions see it: the registers, what each address reads,
/// and the status word.
pub struct MachineState {
    pub regs: Seq<Word>,
    pub mem: Seq<Byte>,
    /// The status word while it is not mapped into memory.
    pub status: Word,
    /// Whether the status word is mapped at `FLAGS_IN_MEMORY`.
    pub psw_mapped: bool,
    pub running: bool,
    pub waiting: bool,
    /// Whether the instruction under way made a word access at an odd address.
    pub odd_access: bool,
}

/// `w + d` modulo 2^16.
pub open spec fn wrap_add(w: Word, d: int) -> Word {
    ((w + d) % 0x10000) as Word
}

/// The even address at or below `a`, where a word access at `a` goes.
pub open spec fn align(a: Word) -> int {
    a - a % 2
}

/// The status word with the four condition codes replaced.
pub open spec fn with_nzvc(psw: Word, n: bool, z: bool, v: bool, c: bool) -> Word {
    psw.spec_set_n_bit(NEGATIVE_FLAG_INDEX, n).spec_set_n_bit(ZERO_FLAG_INDEX, z).spec_set_n_bit(
        OVERFLOW_FLAG_INDEX,
        v,
    ).spec_set_n_bit(CARRY_FLAG_INDEX, c)
}

/// The processor priority held in bits 5 to 7 of a status word.
pub open spec fn priority_of(psw: Word) -> Byte {
    (0u8).spec_set_n_bit(0, psw.spec_get_n_bit(PRIORITY_LOW_BIT_INDEX)).spec_set_n_bit(
        1,
        psw.spec_get_n_bit(PRIORITY_MIDDLE_BIT_INDEX),
    ).spec_set_n_bit(2, psw.spec_get_n_bit(PRIORITY_HIGH_BIT_INDEX))
}

impl MachineState {
    pub open spec fn reg(self, r: int) -> Word {
        self.regs[r]
    }

    pub open spec fn with_reg(self, r: int, w: Word) -> MachineState {
        MachineState { regs: self.regs.update(r, w), ..self }
    }

    pub open spec fn pc(self) -> Word {
        self.reg(PROGRAM_COUNTER_INDEX as int)
    }

    pub open spec fn sp(self) -> Word {
        self.reg(STACK_POINTER_INDEX as int)
    }

    pub open spec fn psw(self) -> Word {
        if self.psw_mapped {
            word_at(self.mem, FLAGS_IN_MEMORY as int)
        } else {
            self.status
        }
    }

    pub open spec fn with_psw(self, w: Word) -> MachineState {
        if self.psw_mapped {
            MachineState { mem: put_word(self.mem, FLAGS_IN_MEMORY as int, w), ..self }
        } else {
            MachineState { status: w, ..self }
        }
    }

    pub open spec fn flag(self, n: Byte) -> bool {
        self.psw().spec_get_n_bit(n)
    }

    pub open spec fn carry(self) -> bool {
        self.flag(CARRY_FLAG_INDEX)
    }

    pub open spec fn overflow(self) -> bool {
        self.flag(OVERFLOW_FLAG_INDEX)
    }

    pub open spec fn zero(self) -> bool {
        self.flag(ZERO_FLAG_INDEX)
    }

    pub open spec fn negative(self) -> bool {
        self.flag(NEGATIVE_FLAG_INDEX)
    }

    pub open spec fn with_flags(self, n: bool, z: bool, v: bool, c: bool) -> MachineState {
        self.with_psw(with_nzvc(self.psw(), n, z, v, c))
    }

    /// The word that a word access at `a` reads.
    pub open spec fn mem_word(self, a: Word) -> Word {
        word_at(self.mem, align(a))
    }

    pub open spec fn with_mem_word(self, a: Word, w: Word) -> MachineState {
        MachineState { mem: put_word(self.mem, align(a), w), ..self }
    }

    pub open spec fn with_mem_byte(self, a: Word, b: Byte) -> MachineState {
        MachineState { mem: self.mem.update(a as int, b), ..self }
    }

    pub open spec fn load_word(self, loc: Location) -> Word {
        match loc {
            Location::Register(r) => self.reg(r as int),
            Location::Memory(a) => self.mem_word(a),
        }
    }

    pub open spec fn load_byte(self, loc: Location) -> Byte {
        match loc {
            Location::Register(r) => self.reg(r as int).spec_low(),
            Location::Memory(a) => self.mem[a as int],
        }
    }

    pub open spec fn store_word(self, loc: Location, w: Word) -> MachineState {
        match loc {
            Location::Register(r) => self.with_reg(r as int, w),
            Location::Memory(a) => self.with_mem_word(a, w),
        }
    }

    /// A byte stored to a register takes the whole register, sign-extended.
    pub open spec fn store_byte(self, loc: Location, b: Byte) -> MachineState {
        match loc {
            Location::Register(r) => self.with_reg(r as int, b.spec_register()),
            Location::Memory(a) => self.with_mem_byte(a, b),
        }
    }

    /// Marks a word access at an odd address when `odd` holds.
    pub open spec fn note_odd(self, odd: bool) -> MachineState {
        if odd {
            MachineState { odd_access: true, ..self }
        } else {
            self
        }
    }

    /// Evaluates the 6-bit operand `operand` for an access of `width` bytes:
    /// where the operand lives, and the machine after the side effects on registers.
    /// Word reads of pointers, and a word operand, at an odd address are marked.
    pub open spec fn resolve(self, operand: Byte, width: Word) -> (Location, MachineState) {
        let mode = operand / 8;
        let r = (operand % 8) as int;
        let step: Word = if r == PROGRAM_COUNTER_INDEX as int {
            2
        } else {
            width
        };
        let v = self.reg(r);
        if mode == 0 {
            (Location::Register((operand % 8) as Byte), self)
        } else if mode == 1 {
            (Location::Memory(v), self.note_odd(width == 2 && v % 2 == 1))
        } else if mode == 2 {
            (
                Location::Memory(v),
                self.with_reg(r, wrap_add(v, step as int)).note_odd(width == 2 && v % 2 == 1),
            )
        } else if mode == 3 {
            let p = self.mem_word(v);
            (
                Location::Memory(p),
                self.with_reg(r, wrap_add(v, 2)).note_odd(v % 2 == 1).note_odd(
                    width == 2 && p % 2 == 1,
                ),
            )
        } else if mode == 4 {
            let d = wrap_add(v, -step);
            (Location::Memory(d), self.with_reg(r, d).note_odd(width == 2 && d % 2 == 1))
        } else if mode == 5 {
            let d = wrap_add(v, -2);
            let p = self.mem_word(d);
            (
                Location::Memory(p),
                self.with_reg(r, d).note_odd(d % 2 == 1).note_odd(width == 2 && p % 2 == 1),
            )
        } else {
            let pc = self.pc();
            let x = self.mem_word(pc);
            let s1 = self.with_reg(PROGRAM_COUNTER_INDEX as int, wrap_add(pc, 2)).note_odd(
                pc % 2 == 1,
            );
            let a = wrap_add(x, s1.reg(r) as int);
            if mode == 6 {
                (Location::Memory(a), s1.note_odd(width == 2 && a % 2 == 1))
            } else {
                let p = s1.mem_word(a);
                (
                    Location::Memory(p),
                    s1.note_odd(a % 2 == 1).note_odd(width == 2 && p % 2 == 1),
                )
            }
        }
    }

    /// Pushes `w` on the stack.
    pub open spec fn push(self, w: Word) -> MachineState {
        let sp = wrap_add(self.sp(), -2);
        self.with_reg(STACK_POINTER_INDEX as int, sp).with_mem_word(sp, w).note_odd(sp % 2 == 1)
    }

    /// Pops a word from the stack: the word, and the machine after.
    pub open spec fn pop(self) -> (Word, MachineState) {
        (
            self.mem_word(self.sp()),
            self.with_reg(STACK_POINTER_INDEX as int, wrap_add(self.sp(), 2)).note_odd(
                self.sp() % 2 == 1,
            ),
        )
    }
}

} // verus!
