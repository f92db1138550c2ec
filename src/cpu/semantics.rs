use vstd::prelude::*;

use crate::utils::{Byte, LongWord, Number, Word};

use super::{fault_of, CpuFault};
use super::commands::{decode, dst_of, low_reg_of, offset_of, reg_of, src_of, Instruction};
use super::state::{
    wrap_add, Location, MachineState, CARRY_FLAG_INDEX, MARK_POINTER_INDEX,
    NEGATIVE_FLAG_INDEX, OVERFLOW_FLAG_INDEX, PRIORITY_HIGH_BIT_INDEX, PRIORITY_LOW_BIT_INDEX,
    PRIORITY_MIDDLE_BIT_INDEX, PROGRAM_COUNTER_INDEX, STACK_POINTER_INDEX, TRAP_FLAG_INDEX,
    ZERO_FLAG_INDEX,
};

verus! {

pub const BPT_VECTOR: Word = 0x000C;

pub const IOT_VECTOR: Word = 0x0010;

pub const EMT_VECTOR: Word = 0x0018;

pub const TRAP_VECTOR: Word = 0x001C;

/// The two's-complement value of a word.
pub open spec fn signed16(w: Word) -> int {
    if w >= 0x8000 {
        w - 0x10000
    } else {
        w as int
    }
}

/// The two's-complement value of a long word.
pub open spec fn signed32(w: int) -> int {
    if w >= 0x8000_0000 {
        w - 0x1_0000_0000
    } else {
        w
    }
}

/// `x` modulo 2^16.
pub open spec fn wrap16(x: int) -> Word {
    (x % 0x10000) as Word
}

pub open spec fn abs(x: int) -> int {
    if x < 0 {
        -x
    } else {
        x
    }
}

/// Division rounded toward zero.
pub open spec fn tdiv(a: int, b: int) -> int {
    if (a >= 0) == (b > 0) || a == 0 {
        abs(a) / abs(b)
    } else {
        -(abs(a) / abs(b))
    }
}

/// The signed shift count in the low six bits of `w`, in [-32, 31].
pub open spec fn shift_count(w: Word) -> int {
    if w % 64 >= 32 {
        w % 64 - 64
    } else {
        (w % 64) as int
    }
}

/// `v` shifted left by `k` bits.
pub open spec fn shl16(v: Word, k: nat) -> Word
    decreases k,
{
    if k == 0 {
        v
    } else {
        ((shl16(v, (k - 1) as nat) * 2) % 0x10000) as Word
    }
}

/// `v` shifted right by one bit, the sign bit kept.
pub open spec fn asr1_16(v: Word) -> Word {
    (v / 2 + if v >= 0x8000 {
        0x8000int
    } else {
        0
    }) as Word
}

/// `v` shifted right by `k` bits, the sign bit kept.
pub open spec fn asr16(v: Word, k: nat) -> Word
    decreases k,
{
    if k == 0 {
        v
    } else {
        asr1_16(asr16(v, (k - 1) as nat))
    }
}

pub open spec fn shl32(v: LongWord, k: nat) -> LongWord
    decreases k,
{
    if k == 0 {
        v
    } else {
        ((shl32(v, (k - 1) as nat) * 2) % 0x1_0000_0000) as LongWord
    }
}

pub open spec fn asr1_32(v: LongWord) -> LongWord {
    (v / 2 + if v >= 0x8000_0000 {
        0x8000_0000int
    } else {
        0
    }) as LongWord
}

pub open spec fn asr32(v: LongWord, k: nat) -> LongWord
    decreases k,
{
    if k == 0 {
        v
    } else {
        asr1_32(asr32(v, (k - 1) as nat))
    }
}

/// ASH on `v` by the count in `src`: the result and the last bit shifted out.
pub open spec fn ash_word(v: Word, src: Word) -> (Word, bool) {
    let k = shift_count(src);
    if k > 0 {
        let inter = shl16(v, (k - 1) as nat);
        (((inter * 2) % 0x10000) as Word, inter >= 0x8000)
    } else {
        let inter = asr16(v, (-k - 1) as nat);
        (asr1_16(inter), inter % 2 == 1)
    }
}

/// ASHC on `v` by the count in `src`: the result and the last bit shifted out.
pub open spec fn ash_long(v: LongWord, src: Word) -> (LongWord, bool) {
    let k = shift_count(src);
    if k > 0 {
        let inter = shl32(v, (k - 1) as nat);
        (((inter * 2) % 0x1_0000_0000) as LongWord, inter >= 0x8000_0000)
    } else {
        let inter = asr32(v, (-k - 1) as nat);
        (asr1_32(inter), inter % 2 == 1)
    }
}

/// JMP and JSR need an operand with an address.
pub open spec fn jump_operand_ok(command: Word) -> bool {
    dst_of(command) / 8 != 0
}

/// DIV and ASHC need an even register.
pub open spec fn even_register_ok(command: Word) -> bool {
    reg_of(command) % 2 == 0
}

/// Whether the instruction is a trap: its own trap sequence replaces the T-bit trap.
pub open spec fn is_trap(i: Instruction) -> bool {
    i == Instruction::Bpt || i == Instruction::Iot || i == Instruction::Trap || i
        == Instruction::Emt
}

/// Whether the machine can carry out `command` as decoded.
pub open spec fn executable(i: Instruction, command: Word) -> bool {
    match i {
        Instruction::Jmp | Instruction::Jsr => jump_operand_ok(command),
        Instruction::Div | Instruction::Ashc => even_register_ok(command),
        Instruction::Fadd | Instruction::Fsub | Instruction::Fmul | Instruction::Fdiv
        | Instruction::Unknown => false,
        _ => true,
    }
}

impl MachineState {
    pub open spec fn with_running(self, running: bool) -> MachineState {
        MachineState { running, ..self }
    }

    pub open spec fn with_waiting(self, waiting: bool) -> MachineState {
        MachineState { waiting, ..self }
    }

    /// Stores `r` at `loc`; N and Z from `r`, V and C as given.
    pub open spec fn finish_word(self, loc: Location, r: Word, v: bool, c: bool) -> MachineState {
        self.store_word(loc, r).with_flags(r.spec_is_negative(), r.spec_is_zero(), v, c)
    }

    pub open spec fn finish_byte(self, loc: Location, r: Byte, v: bool, c: bool) -> MachineState {
        self.store_byte(loc, r).with_flags(r.spec_is_negative(), r.spec_is_zero(), v, c)
    }

    /// Stores `r` at `loc`; N and Z from `r`, V cleared, C kept.
    pub open spec fn finish_bitwise_word(self, loc: Location, r: Word) -> MachineState {
        let s = self.store_word(loc, r);
        s.with_flags(r.spec_is_negative(), r.spec_is_zero(), false, s.carry())
    }

    pub open spec fn finish_bitwise_byte(self, loc: Location, r: Byte) -> MachineState {
        let s = self.store_byte(loc, r);
        s.with_flags(r.spec_is_negative(), r.spec_is_zero(), false, s.carry())
    }

    /// The trap sequence through the vector at `vector`.
    pub open spec fn trap(self, vector: Word) -> MachineState {
        let new_pc = self.mem_word(vector);
        let new_psw = self.mem_word(wrap_add(vector, 2));
        self.note_odd(vector % 2 == 1).push(self.psw()).push(self.pc()).with_reg(
            PROGRAM_COUNTER_INDEX as int,
            new_pc,
        ).with_psw(new_psw)
    }

    pub open spec fn do_rti(self) -> MachineState {
        let (pc, s1) = self.pop();
        let s2 = s1.with_reg(PROGRAM_COUNTER_INDEX as int, pc);
        let (psw, s3) = s2.pop();
        s3.with_psw(psw)
    }

    pub open spec fn do_spl(self, command: Word) -> MachineState {
        let p = ((command % 256) as Byte);
        self.with_psw(
            self.psw().spec_set_n_bit(PRIORITY_LOW_BIT_INDEX, p.spec_get_n_bit(0)).spec_set_n_bit(
                PRIORITY_MIDDLE_BIT_INDEX,
                p.spec_get_n_bit(1),
            ).spec_set_n_bit(PRIORITY_HIGH_BIT_INDEX, p.spec_get_n_bit(2)),
        )
    }

    pub open spec fn do_rts(self, command: Word) -> MachineState {
        let r = low_reg_of(command) as int;
        let s1 = self.with_reg(PROGRAM_COUNTER_INDEX as int, self.reg(r));
        let (w, s2) = s1.pop();
        s2.with_reg(r, w)
    }

    /// Sets (`value`) or clears the flags whose bits are set in the low nibble of `command`.
    pub open spec fn set_condition_codes(self, command: Word, value: bool) -> MachineState {
        let p0 = self.psw();
        let p1 = if command.spec_get_n_bit(CARRY_FLAG_INDEX) {
            p0.spec_set_n_bit(CARRY_FLAG_INDEX, value)
        } else {
            p0
        };
        let p2 = if command.spec_get_n_bit(OVERFLOW_FLAG_INDEX) {
            p1.spec_set_n_bit(OVERFLOW_FLAG_INDEX, value)
        } else {
            p1
        };
        let p3 = if command.spec_get_n_bit(ZERO_FLAG_INDEX) {
            p2.spec_set_n_bit(ZERO_FLAG_INDEX, value)
        } else {
            p2
        };
        let p4 = if command.spec_get_n_bit(NEGATIVE_FLAG_INDEX) {
            p3.spec_set_n_bit(NEGATIVE_FLAG_INDEX, value)
        } else {
            p3
        };
        self.with_psw(p4)
    }

    pub open spec fn do_clr(self, command: Word) -> MachineState {
        let (loc, s1) = self.resolve(dst_of(command), 2);
        s1.finish_word(loc, 0, false, false)
    }

    pub open spec fn do_clrb(self, command: Word) -> MachineState {
        let (loc, s1) = self.resolve(dst_of(command), 1);
        s1.finish_byte(loc, 0, false, false)
    }

    pub open spec fn do_inc(self, command: Word) -> MachineState {
        let (loc, s1) = self.resolve(dst_of(command), 2);
        let w = s1.load_word(loc);
        s1.finish_word(loc, wrap_add(w, 1), w == 0x7FFF, w == 0xFFFF)
    }

    pub open spec fn do_incb(self, command: Word) -> MachineState {
        let (loc, s1) = self.resolve(dst_of(command), 1);
        let b = s1.load_byte(loc);
        s1.finish_byte(loc, ((b + 1) % 0x100) as Byte, b == 0x7F, b == 0xFF)
    }

    pub open spec fn do_dec(self, command: Word) -> MachineState {
        let (loc, s1) = self.resolve(dst_of(command), 2);
        let w = s1.load_word(loc);
        s1.finish_word(loc, wrap_add(w, -1), w == 0x8000, w == 0)
    }

    pub open spec fn do_decb(self, command: Word) -> MachineState {
        let (loc, s1) = self.resolve(dst_of(command), 1);
        let b = s1.load_byte(loc);
        s1.finish_byte(loc, ((b + 0xFF) % 0x100) as Byte, b == 0x80, b == 0)
    }

    pub open spec fn do_adc(self, command: Word) -> MachineState {
        let (loc, s1) = self.resolve(dst_of(command), 2);
        let w = s1.load_word(loc);
        let c = s1.carry();
        s1.finish_word(
            loc,
            wrap_add(
                w,
                if c {
                    1
                } else {
                    0
                },
            ),
            c && w == 0x7FFF,
            c && w == 0xFFFF,
        )
    }

    pub open spec fn do_adcb(self, command: Word) -> MachineState {
        let (loc, s1) = self.resolve(dst_of(command), 1);
        let b = s1.load_byte(loc);
        let c = s1.carry();
        s1.finish_byte(
            loc,
            ((b + if c {
                1int
            } else {
                0
            }) % 0x100) as Byte,
            c && b == 0x7F,
            c && b == 0xFF,
        )
    }

    pub open spec fn do_sbc(self, command: Word) -> MachineState {
        let (loc, s1) = self.resolve(dst_of(command), 2);
        let w = s1.load_word(loc);
        let c = s1.carry();
        s1.finish_word(
            loc,
            wrap_add(
                w,
                if c {
                    -1
                } else {
                    0
                },
            ),
            c && w == 0x8000,
            c && w == 0,
        )
    }

    pub open spec fn do_sbcb(self, command: Word) -> MachineState {
        let (loc, s1) = self.resolve(dst_of(command), 1);
        let b = s1.load_byte(loc);
        let c = s1.carry();
        s1.finish_byte(
            loc,
            ((b + if c {
                0xFFint
            } else {
                0
            }) % 0x100) as Byte,
            c && b == 0x80,
            c && b == 0,
        )
    }

    pub open spec fn do_tst(self, command: Word) -> MachineState {
        let (loc, s1) = self.resolve(dst_of(command), 2);
        let w = s1.load_word(loc);
        s1.with_flags(w.spec_is_negative(), w.spec_is_zero(), false, false)
    }

    pub open spec fn do_tstb(self, command: Word) -> MachineState {
        let (loc, s1) = self.resolve(dst_of(command), 1);
        let b = s1.load_byte(loc);
        s1.with_flags(b.spec_is_negative(), b.spec_is_zero(), false, false)
    }

    pub open spec fn do_neg(self, command: Word) -> MachineState {
        let (loc, s1) = self.resolve(dst_of(command), 2);
        let r = s1.load_word(loc).spec_two_complement();
        s1.finish_word(loc, r, r == 0x8000, r != 0)
    }

    pub open spec fn do_negb(self, command: Word) -> MachineState {
        let (loc, s1) = self.resolve(dst_of(command), 1);
        let r = s1.load_byte(loc).spec_two_complement();
        s1.finish_byte(loc, r, r == 0x80, r != 0)
    }

    pub open spec fn do_com(self, command: Word) -> MachineState {
        let (loc, s1) = self.resolve(dst_of(command), 2);
        s1.finish_word(loc, s1.load_word(loc).spec_one_complement(), false, true)
    }

    pub open spec fn do_comb(self, command: Word) -> MachineState {
        let (loc, s1) = self.resolve(dst_of(command), 1);
        s1.finish_byte(loc, s1.load_byte(loc).spec_one_complement(), false, true)
    }

    pub open spec fn do_ror(self, command: Word) -> MachineState {
        let (loc, s1) = self.resolve(dst_of(command), 2);
        let w = s1.load_word(loc);
        let r = (w / 2 + if s1.carry() {
            0x8000int
        } else {
            0
        }) as Word;
        let c = w % 2 == 1;
        s1.finish_word(loc, r, c != r.spec_is_negative(), c)
    }

    pub open spec fn do_rorb(self, command: Word) -> MachineState {
        let (loc, s1) = self.resolve(dst_of(command), 1);
        let b = s1.load_byte(loc);
        let r = (b / 2 + if s1.carry() {
            0x80int
        } else {
            0
        }) as Byte;
        let c = b % 2 == 1;
        s1.finish_byte(loc, r, c != r.spec_is_negative(), c)
    }

    pub open spec fn do_rol(self, command: Word) -> MachineState {
        let (loc, s1) = self.resolve(dst_of(command), 2);
        let w = s1.load_word(loc);
        let r = ((w % 0x8000) * 2 + if s1.carry() {
            1int
        } else {
            0
        }) as Word;
        let c = w.spec_is_negative();
        s1.finish_word(loc, r, c != r.spec_is_negative(), c)
    }

    pub open spec fn do_rolb(self, command: Word) -> MachineState {
        let (loc, s1) = self.resolve(dst_of(command), 1);
        let b = s1.load_byte(loc);
        let r = ((b % 0x80) * 2 + if s1.carry() {
            1int
        } else {
            0
        }) as Byte;
        let c = b.spec_is_negative();
        s1.finish_byte(loc, r, c != r.spec_is_negative(), c)
    }

    pub open spec fn do_asr(self, command: Word) -> MachineState {
        let (loc, s1) = self.resolve(dst_of(command), 2);
        let w = s1.load_word(loc);
        let r = asr1_16(w);
        let c = w % 2 == 1;
        s1.finish_word(loc, r, c != r.spec_is_negative(), c)
    }

    pub open spec fn do_asrb(self, command: Word) -> MachineState {
        let (loc, s1) = self.resolve(dst_of(command), 1);
        let b = s1.load_byte(loc);
        let r = (b / 2 + if b >= 0x80 {
            0x80int
        } else {
            0
        }) as Byte;
        let c = b % 2 == 1;
        s1.finish_byte(loc, r, c != r.spec_is_negative(), c)
    }

    pub open spec fn do_asl(self, command: Word) -> MachineState {
        let (loc, s1) = self.resolve(dst_of(command), 2);
        let w = s1.load_word(loc);
        let r = ((w % 0x8000) * 2) as Word;
        let c = w.spec_is_negative();
        s1.finish_word(loc, r, c != r.spec_is_negative(), c)
    }

    pub open spec fn do_aslb(self, command: Word) -> MachineState {
        let (loc, s1) = self.resolve(dst_of(command), 1);
        let b = s1.load_byte(loc);
        let r = ((b % 0x80) * 2) as Byte;
        let c = b.spec_is_negative();
        s1.finish_byte(loc, r, c != r.spec_is_negative(), c)
    }

    /// Swaps the bytes; N and Z follow the new low byte.
    pub open spec fn do_swab(self, command: Word) -> MachineState {
        let (loc, s1) = self.resolve(dst_of(command), 2);
        let w = s1.load_word(loc);
        let r = ((w % 0x100) * 0x100 + w / 0x100) as Word;
        s1.store_word(loc, r).with_flags(
            r.spec_low().spec_is_negative(),
            r.spec_low().spec_is_zero(),
            false,
            false,
        )
    }

    /// Fills the operand with the N flag; Z is set when N is clear.
    pub open spec fn do_sxt(self, command: Word) -> MachineState {
        let (loc, s1) = self.resolve(dst_of(command), 2);
        let n = s1.negative();
        let s2 = s1.store_word(
            loc,
            if n {
                0xFFFF
            } else {
                0
            },
        );
        s2.with_psw(s2.psw().spec_set_n_bit(ZERO_FLAG_INDEX, !n))
    }

    pub open spec fn do_jmp(self, command: Word) -> MachineState {
        let (loc, s1) = self.resolve(dst_of(command), 2);
        s1.with_reg(PROGRAM_COUNTER_INDEX as int, loc->Memory_0)
    }

    /// SP takes PC plus twice the count, PC takes R5, and R5 is popped.
    pub open spec fn do_mark(self, command: Word) -> MachineState {
        let n = dst_of(command);
        let s1 = self.with_reg(STACK_POINTER_INDEX as int, wrap_add(self.pc(), 2 * n)).with_reg(
            PROGRAM_COUNTER_INDEX as int,
            self.reg(MARK_POINTER_INDEX as int),
        );
        let (w, s2) = s1.pop();
        s2.with_reg(MARK_POINTER_INDEX as int, w)
    }

    /// Signed product into Rn (high word) and Rn|1 (low word), or the low word alone into an odd Rn.
    pub open spec fn do_mul(self, command: Word) -> MachineState {
        let n = reg_of(command) as int;
        let (loc, s1) = self.resolve(dst_of(command), 2);
        let p = signed16(s1.reg(n)) * signed16(s1.load_word(loc));
        let u = if p < 0 {
            p + 0x1_0000_0000
        } else {
            p
        };
        let s2 = if n % 2 == 0 {
            s1.with_reg(n, (u / 0x10000) as Word).with_reg(n + 1, (u % 0x10000) as Word)
        } else {
            s1.with_reg(n, (u % 0x10000) as Word)
        };
        s2.with_flags(p < 0, p == 0, false, p < -0x8000 || p > 0x7FFF)
    }

    /// Signed (Rn : Rn+1) divided by the operand: quotient into Rn, remainder into Rn+1.
    pub open spec fn do_div(self, command: Word) -> MachineState {
        let n = reg_of(command) as int;
        let (loc, s1) = self.resolve(dst_of(command), 2);
        let d = signed16(s1.load_word(loc));
        let dividend = signed32(s1.reg(n) * 0x10000 + s1.reg(n + 1));
        if d == 0 {
            s1.with_psw(
                s1.psw().spec_set_n_bit(OVERFLOW_FLAG_INDEX, true).spec_set_n_bit(
                    CARRY_FLAG_INDEX,
                    true,
                ),
            )
        } else {
            let q = tdiv(dividend, d);
            if q < -0x8000 || q > 0x7FFF {
                s1.with_psw(
                    s1.psw().spec_set_n_bit(OVERFLOW_FLAG_INDEX, true).spec_set_n_bit(
                        CARRY_FLAG_INDEX,
                        false,
                    ),
                )
            } else {
                s1.with_reg(n, wrap16(q)).with_reg(n + 1, wrap16(dividend - q * d)).with_flags(
                    q < 0,
                    q == 0,
                    false,
                    false,
                )
            }
        }
    }

    pub open spec fn do_ash(self, command: Word) -> MachineState {
        let n = reg_of(command) as int;
        let (loc, s1) = self.resolve(dst_of(command), 2);
        let src = s1.load_word(loc);
        let v = s1.reg(n);
        if shift_count(src) == 0 {
            s1.with_flags(v.spec_is_negative(), v.spec_is_zero(), false, false)
        } else {
            let (r, c) = ash_word(v, src);
            s1.with_reg(n, r).with_flags(
                r.spec_is_negative(),
                r.spec_is_zero(),
                v.spec_is_negative() != r.spec_is_negative(),
                c,
            )
        }
    }

    /// Shifts the long word (Rn+1 : Rn), Rn+1 holding the high half.
    pub open spec fn do_ashc(self, command: Word) -> MachineState {
        let n = reg_of(command) as int;
        let (loc, s1) = self.resolve(dst_of(command), 2);
        let src = s1.load_word(loc);
        let v = (s1.reg(n) + 0x10000 * s1.reg(n + 1)) as LongWord;
        if shift_count(src) == 0 {
            s1.with_flags(v.spec_is_negative(), v.spec_is_zero(), false, false)
        } else {
            let (r, c) = ash_long(v, src);
            s1.with_reg(n, (r % 0x10000) as Word).with_reg(n + 1, (r / 0x10000) as Word).with_flags(
                r.spec_is_negative(),
                r.spec_is_zero(),
                v.spec_is_negative() != r.spec_is_negative(),
                c,
            )
        }
    }

    pub open spec fn do_xor(self, command: Word) -> MachineState {
        let rv = self.reg(reg_of(command) as int);
        let (loc, s1) = self.resolve(dst_of(command), 2);
        s1.finish_bitwise_word(loc, s1.load_word(loc) ^ rv)
    }

    /// Decrements Rn and branches back by twice the offset while it is not zero.
    pub open spec fn do_sob(self, command: Word) -> MachineState {
        let n = reg_of(command) as int;
        let r = wrap_add(self.reg(n), -1);
        let s1 = self.with_reg(n, r);
        if r != 0 {
            s1.with_reg(PROGRAM_COUNTER_INDEX as int, wrap_add(s1.pc(), -2 * dst_of(command)))
        } else {
            s1
        }
    }

    pub open spec fn do_jsr(self, command: Word) -> MachineState {
        let n = reg_of(command) as int;
        let (loc, s1) = self.resolve(dst_of(command), 2);
        let s2 = s1.push(s1.reg(n));
        s2.with_reg(n, s2.pc()).with_reg(PROGRAM_COUNTER_INDEX as int, loc->Memory_0)
    }

    pub open spec fn do_mov(self, command: Word) -> MachineState {
        let (sl, s1) = self.resolve(src_of(command), 2);
        let v = s1.load_word(sl);
        let (dl, s2) = s1.resolve(dst_of(command), 2);
        s2.finish_bitwise_word(dl, v)
    }

    pub open spec fn do_movb(self, command: Word) -> MachineState {
        let (sl, s1) = self.resolve(src_of(command), 1);
        let v = s1.load_byte(sl);
        let (dl, s2) = s1.resolve(dst_of(command), 1);
        s2.finish_bitwise_byte(dl, v)
    }

    pub open spec fn do_add(self, command: Word) -> MachineState {
        let (sl, s1) = self.resolve(src_of(command), 2);
        let a = s1.load_word(sl);
        let (dl, s2) = s1.resolve(dst_of(command), 2);
        let b = s2.load_word(dl);
        let r = wrap_add(b, a as int);
        s2.finish_word(
            dl,
            r,
            a.spec_is_negative() == b.spec_is_negative() && r.spec_is_negative()
                != b.spec_is_negative(),
            a + b >= 0x10000,
        )
    }

    pub open spec fn do_sub(self, command: Word) -> MachineState {
        let (sl, s1) = self.resolve(src_of(command), 2);
        let a = s1.load_word(sl);
        let (dl, s2) = s1.resolve(dst_of(command), 2);
        let b = s2.load_word(dl);
        let r = wrap_add(b, -a);
        s2.finish_word(
            dl,
            r,
            a.spec_is_negative() != b.spec_is_negative() && r.spec_is_negative()
                == a.spec_is_negative(),
            b < a,
        )
    }

    /// Flags of source minus destination; nothing is stored.
    pub open spec fn do_cmp(self, command: Word) -> MachineState {
        let (sl, s1) = self.resolve(src_of(command), 2);
        let a = s1.load_word(sl);
        let (dl, s2) = s1.resolve(dst_of(command), 2);
        let b = s2.load_word(dl);
        let r = wrap_add(a, -b);
        s2.with_flags(
            r.spec_is_negative(),
            r.spec_is_zero(),
            a.spec_is_negative() != b.spec_is_negative() && r.spec_is_negative()
                == b.spec_is_negative(),
            a < b,
        )
    }

    pub open spec fn do_cmpb(self, command: Word) -> MachineState {
        let (sl, s1) = self.resolve(src_of(command), 1);
        let a = s1.load_byte(sl);
        let (dl, s2) = s1.resolve(dst_of(command), 1);
        let b = s2.load_byte(dl);
        let r = ((a + 0x100 - b) % 0x100) as Byte;
        s2.with_flags(
            r.spec_is_negative(),
            r.spec_is_zero(),
            a.spec_is_negative() != b.spec_is_negative() && r.spec_is_negative()
                == b.spec_is_negative(),
            a < b,
        )
    }

    pub open spec fn do_bis(self, command: Word) -> MachineState {
        let (sl, s1) = self.resolve(src_of(command), 2);
        let a = s1.load_word(sl);
        let (dl, s2) = s1.resolve(dst_of(command), 2);
        s2.finish_bitwise_word(dl, s2.load_word(dl) | a)
    }

    pub open spec fn do_bisb(self, command: Word) -> MachineState {
        let (sl, s1) = self.resolve(src_of(command), 1);
        let a = s1.load_byte(sl);
        let (dl, s2) = s1.resolve(dst_of(command), 1);
        s2.finish_bitwise_byte(dl, s2.load_byte(dl) | a)
    }

    pub open spec fn do_bic(self, command: Word) -> MachineState {
        let (sl, s1) = self.resolve(src_of(command), 2);
        let a = s1.load_word(sl);
        let (dl, s2) = s1.resolve(dst_of(command), 2);
        s2.finish_bitwise_word(dl, s2.load_word(dl) & a.spec_one_complement())
    }

    pub open spec fn do_bicb(self, command: Word) -> MachineState {
        let (sl, s1) = self.resolve(src_of(command), 1);
        let a = s1.load_byte(sl);
        let (dl, s2) = s1.resolve(dst_of(command), 1);
        s2.finish_bitwise_byte(dl, s2.load_byte(dl) & a.spec_one_complement())
    }

    /// Flags of source and destination; nothing is stored.
    pub open spec fn do_bit(self, command: Word) -> MachineState {
        let (sl, s1) = self.resolve(src_of(command), 2);
        let a = s1.load_word(sl);
        let (dl, s2) = s1.resolve(dst_of(command), 2);
        let r = a & s2.load_word(dl);
        s2.with_flags(r.spec_is_negative(), r.spec_is_zero(), false, s2.carry())
    }

    pub open spec fn do_bitb(self, command: Word) -> MachineState {
        let (sl, s1) = self.resolve(src_of(command), 1);
        let a = s1.load_byte(sl);
        let (dl, s2) = s1.resolve(dst_of(command), 1);
        let r = a & s2.load_byte(dl);
        s2.with_flags(r.spec_is_negative(), r.spec_is_zero(), false, s2.carry())
    }

    /// Adds the branch displacement of `command` to PC when `taken`.
    pub open spec fn branch(self, command: Word, taken: bool) -> MachineState {
        if taken {
            self.with_reg(PROGRAM_COUNTER_INDEX as int, wrap_add(self.pc(), offset_of(command) as int))
        } else {
            self
        }
    }

    /// What executing the decoded instruction `i` of word `command` does.
    pub open spec fn execute(self, i: Instruction, command: Word) -> MachineState {
        match i {
            Instruction::Halt => self.with_running(false),
            Instruction::Wait => self.with_waiting(true),
            Instruction::Rti | Instruction::Rtt => self.do_rti(),
            Instruction::Bpt => self.trap(BPT_VECTOR),
            Instruction::Iot => self.trap(IOT_VECTOR),
            Instruction::Spl => self.do_spl(command),
            Instruction::Rts => self.do_rts(command),
            Instruction::Se => self.set_condition_codes(command, true),
            Instruction::Cl => self.set_condition_codes(command, false),
            Instruction::Jmp => self.do_jmp(command),
            Instruction::Clr => self.do_clr(command),
            Instruction::Clrb => self.do_clrb(command),
            Instruction::Inc => self.do_inc(command),
            Instruction::Incb => self.do_incb(command),
            Instruction::Dec => self.do_dec(command),
            Instruction::Decb => self.do_decb(command),
            Instruction::Adc => self.do_adc(command),
            Instruction::Adcb => self.do_adcb(command),
            Instruction::Sbc => self.do_sbc(command),
            Instruction::Sbcb => self.do_sbcb(command),
            Instruction::Tst => self.do_tst(command),
            Instruction::Tstb => self.do_tstb(command),
            Instruction::Neg => self.do_neg(command),
            Instruction::Negb => self.do_negb(command),
            Instruction::Com => self.do_com(command),
            Instruction::Comb => self.do_comb(command),
            Instruction::Ror => self.do_ror(command),
            Instruction::Rorb => self.do_rorb(command),
            Instruction::Rol => self.do_rol(command),
            Instruction::Rolb => self.do_rolb(command),
            Instruction::Asr => self.do_asr(command),
            Instruction::Asrb => self.do_asrb(command),
            Instruction::Asl => self.do_asl(command),
            Instruction::Aslb => self.do_aslb(command),
            Instruction::Swab => self.do_swab(command),
            Instruction::Sxt => self.do_sxt(command),
            Instruction::Mark => self.do_mark(command),
            Instruction::Mul => self.do_mul(command),
            Instruction::Div => self.do_div(command),
            Instruction::Ash => self.do_ash(command),
            Instruction::Ashc => self.do_ashc(command),
            Instruction::Xor => self.do_xor(command),
            Instruction::Sob => self.do_sob(command),
            Instruction::Jsr => self.do_jsr(command),
            Instruction::Mov => self.do_mov(command),
            Instruction::Movb => self.do_movb(command),
            Instruction::Cmp => self.do_cmp(command),
            Instruction::Cmpb => self.do_cmpb(command),
            Instruction::Bit => self.do_bit(command),
            Instruction::Bitb => self.do_bitb(command),
            Instruction::Bic => self.do_bic(command),
            Instruction::Bicb => self.do_bicb(command),
            Instruction::Bis => self.do_bis(command),
            Instruction::Bisb => self.do_bisb(command),
            Instruction::Add => self.do_add(command),
            Instruction::Sub => self.do_sub(command),
            Instruction::Br => self.branch(command, true),
            Instruction::Bne => self.branch(command, !self.zero()),
            Instruction::Beq => self.branch(command, self.zero()),
            Instruction::Bge => self.branch(command, self.negative() == self.overflow()),
            Instruction::Blt => self.branch(command, self.negative() != self.overflow()),
            Instruction::Bgt => self.branch(
                command,
                !self.zero() && self.negative() == self.overflow(),
            ),
            Instruction::Ble => self.branch(
                command,
                self.zero() || self.negative() != self.overflow(),
            ),
            Instruction::Bpl => self.branch(command, !self.negative()),
            Instruction::Bmi => self.branch(command, self.negative()),
            Instruction::Bhi => self.branch(command, !self.carry() && !self.zero()),
            Instruction::Blos => self.branch(command, self.carry() || self.zero()),
            Instruction::Bvc => self.branch(command, !self.overflow()),
            Instruction::Bvs => self.branch(command, self.overflow()),
            Instruction::Bcc => self.branch(command, !self.carry()),
            Instruction::Bcs => self.branch(command, self.carry()),
            Instruction::Trap => self.trap(TRAP_VECTOR),
            Instruction::Emt => self.trap(EMT_VECTOR),
            _ => self,
        }
    }

    /// The machine after fetching the word at PC: the word, and PC moved past it.
    pub open spec fn fetch(self) -> (Word, MachineState) {
        (
            self.mem_word(self.pc()),
            self.with_reg(PROGRAM_COUNTER_INDEX as int, wrap_add(self.pc(), 2)).note_odd(
                self.pc() % 2 == 1,
            ),
        )
    }

    /// One instruction: fetch, decode, execute, then the T-bit trap when it is due.
    /// The fault, when the instruction cannot be executed or made a word access at an odd
    /// address; the machine is then the one after the fetch, or after the instruction.
    pub open spec fn step(self) -> (MachineState, Option<CpuFault>) {
        let (w, s1) = MachineState { odd_access: false, ..self }.fetch();
        let i = decode(w).1;
        if s1.odd_access {
            (s1, Some(CpuFault::OddAddress(w)))
        } else if !executable(i, w) {
            (s1, Some(fault_of(i, w)))
        } else {
            let s2 = s1.execute(i, w);
            let s3 = if !is_trap(i) && i != Instruction::Rtt && s2.flag(TRAP_FLAG_INDEX) {
                s2.trap(BPT_VECTOR)
            } else {
                s2
            };
            if s3.odd_access {
                (s3, Some(CpuFault::OddAddress(w)))
            } else {
                (s3, None)
            }
        }
    }
}

} // verus!
