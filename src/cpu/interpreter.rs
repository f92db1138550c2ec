use vstd::prelude::*;

use crate::mem::Memory;
use crate::utils::{long_word, Address, Byte, LongWord, Number, Word};

use super::addressing::{add_wrapping, read_memory_word, sub_wrapping};
use super::commands::{adr_operand, branch_offset, dst_operand, low_reg_operand, reg_operand, src_operand};
use super::semantics::{
    ash_long, ash_word, asr16, asr1_32, asr32, even_register_ok, jump_operand_ok, shl16, shl32,
    signed16, wrap16, BPT_VECTOR, EMT_VECTOR, IOT_VECTOR, TRAP_VECTOR,
};
use super::state::{
    Location, CARRY_FLAG_INDEX, MARK_POINTER_INDEX, NEGATIVE_FLAG_INDEX, OVERFLOW_FLAG_INDEX,
    PROGRAM_COUNTER_INDEX, STACK_POINTER_INDEX, ZERO_FLAG_INDEX,
};
use super::CPU;

verus! {

// Zero-operand
impl CPU {
    pub fn do_nop(&mut self, memory: &mut Memory, command: Word)
        requires
            old(memory).wf(),
        ensures
            old(self).performs(
                *old(memory),
                *final(self),
                *final(memory),
                old(self).state(*old(memory)),
            ),
    {
    }

    pub fn do_halt(&mut self, memory: &mut Memory, command: Word)
        requires
            old(memory).wf(),
        ensures
            old(self).performs(
                *old(memory),
                *final(self),
                *final(memory),
                old(self).state(*old(memory)).with_running(false),
            ),
    {
        self.running = false;
    }

    pub fn do_wait(&mut self, memory: &mut Memory, command: Word)
        requires
            old(memory).wf(),
        ensures
            old(self).performs(
                *old(memory),
                *final(self),
                *final(memory),
                old(self).state(*old(memory)).with_waiting(true),
            ),
    {
        self.waiting = true;
    }

    pub fn do_rti(&mut self, memory: &mut Memory, command: Word)
        requires
            old(memory).wf(),
        ensures
            old(self).performs(
                *old(memory),
                *final(self),
                *final(memory),
                old(self).state(*old(memory)).do_rti(),
            ),
    {
        let new_pc = self.pop_stack(memory);
        self.registers[PROGRAM_COUNTER_INDEX as usize] = new_pc;
        let new_psw = self.pop_stack(memory);
        self.set_status_word(memory, new_psw);
    }

    pub fn do_rtt(&mut self, memory: &mut Memory, command: Word)
        requires
            old(memory).wf(),
        ensures
            old(self).performs(
                *old(memory),
                *final(self),
                *final(memory),
                old(self).state(*old(memory)).do_rti(),
            ),
    {
        self.do_rti(memory, command);
    }

    pub fn do_bpt(&mut self, memory: &mut Memory, command: Word)
        requires
            old(memory).wf(),
        ensures
            old(self).performs(
                *old(memory),
                *final(self),
                *final(memory),
                old(self).state(*old(memory)).trap(BPT_VECTOR),
            ),
    {
        self.perform_trap(memory, BPT_VECTOR as Address);
    }

    pub fn do_iot(&mut self, memory: &mut Memory, command: Word)
        requires
            old(memory).wf(),
        ensures
            old(self).performs(
                *old(memory),
                *final(self),
                *final(memory),
                old(self).state(*old(memory)).trap(IOT_VECTOR),
            ),
    {
        self.perform_trap(memory, IOT_VECTOR as Address);
    }

}

// Priority, return and condition codes
impl CPU {
    pub fn do_spl(&mut self, memory: &mut Memory, command: Word)
        requires
            old(memory).wf(),
        ensures
            old(self).performs(
                *old(memory),
                *final(self),
                *final(memory),
                old(self).state(*old(memory)).do_spl(command),
            ),
    {
        self.update_priority(memory, (command % 256) as Byte);
    }

    pub fn do_rts(&mut self, memory: &mut Memory, command: Word)
        requires
            old(memory).wf(),
        ensures
            old(self).performs(
                *old(memory),
                *final(self),
                *final(memory),
                old(self).state(*old(memory)).do_rts(command),
            ),
    {
        let reg = low_reg_operand(command);
        let reg_value = self.registers[reg as usize];
        self.registers[PROGRAM_COUNTER_INDEX as usize] = reg_value;
        let stack_value = self.pop_stack(memory);
        self.registers[reg as usize] = stack_value;
    }

    pub fn do_se(&mut self, memory: &mut Memory, command: Word)
        requires
            old(memory).wf(),
        ensures
            old(self).performs(
                *old(memory),
                *final(self),
                *final(memory),
                old(self).state(*old(memory)).set_condition_codes(command, true),
            ),
    {
        self.set_condition_codes(memory, command, true);
    }

    pub fn do_cl(&mut self, memory: &mut Memory, command: Word)
        requires
            old(memory).wf(),
        ensures
            old(self).performs(
                *old(memory),
                *final(self),
                *final(memory),
                old(self).state(*old(memory)).set_condition_codes(command, false),
            ),
    {
        self.set_condition_codes(memory, command, false);
    }

    fn set_condition_codes(&mut self, memory: &mut Memory, command: Word, value: bool)
        requires
            old(memory).wf(),
        ensures
            old(self).performs(
                *old(memory),
                *final(self),
                *final(memory),
                old(self).state(*old(memory)).set_condition_codes(command, value),
            ),
    {
        let p0 = self.status_word(memory);
        let p1 = if command.get_n_bit(CARRY_FLAG_INDEX) {
            p0.set_n_bit(CARRY_FLAG_INDEX, value)
        } else {
            p0
        };
        let p2 = if command.get_n_bit(OVERFLOW_FLAG_INDEX) {
            p1.set_n_bit(OVERFLOW_FLAG_INDEX, value)
        } else {
            p1
        };
        let p3 = if command.get_n_bit(ZERO_FLAG_INDEX) {
            p2.set_n_bit(ZERO_FLAG_INDEX, value)
        } else {
            p2
        };
        let p4 = if command.get_n_bit(NEGATIVE_FLAG_INDEX) {
            p3.set_n_bit(NEGATIVE_FLAG_INDEX, value)
        } else {
            p3
        };
        self.set_status_word(memory, p4);
    }
}

// One-operand
impl CPU {
    pub fn do_clr(&mut self, memory: &mut Memory, command: Word)
        requires
            old(memory).wf(),
        ensures
            old(self).performs(
                *old(memory),
                *final(self),
                *final(memory),
                old(self).state(*old(memory)).do_clr(command),
            ),
    {
        let loc = self.get_operand_location(memory, adr_operand(command), 2);
        self.put_word(memory, loc, 0x0000u16);
        self.update_status_flags(memory, 0x0000u16, false, false);
    }

    pub fn do_clrb(&mut self, memory: &mut Memory, command: Word)
        requires
            old(memory).wf(),
        ensures
            old(self).performs(
                *old(memory),
                *final(self),
                *final(memory),
                old(self).state(*old(memory)).do_clrb(command),
            ),
    {
        let loc = self.get_operand_location(memory, adr_operand(command), 1);
        self.put_byte(memory, loc, 0x00u8);
        self.update_status_flags(memory, 0x00u8, false, false);
    }

    pub fn do_inc(&mut self, memory: &mut Memory, command: Word)
        requires
            old(memory).wf(),
        ensures
            old(self).performs(
                *old(memory),
                *final(self),
                *final(memory),
                old(self).state(*old(memory)).do_inc(command),
            ),
    {
        let (loc, word) = self.get_word_by_operand(memory, adr_operand(command));
        let result = add_wrapping(word, 1);
        self.put_word(memory, loc, result);
        self.update_status_flags(memory, result, word == 0xFFFF, word == 0x7FFF);
    }

    pub fn do_incb(&mut self, memory: &mut Memory, command: Word)
        requires
            old(memory).wf(),
        ensures
            old(self).performs(
                *old(memory),
                *final(self),
                *final(memory),
                old(self).state(*old(memory)).do_incb(command),
            ),
    {
        let (loc, byte) = self.get_byte_by_operand(memory, adr_operand(command));
        let result = ((byte as u16 + 1) % 0x100) as Byte;
        self.put_byte(memory, loc, result);
        self.update_status_flags(memory, result, byte == 0xFF, byte == 0x7F);
    }

    pub fn do_dec(&mut self, memory: &mut Memory, command: Word)
        requires
            old(memory).wf(),
        ensures
            old(self).performs(
                *old(memory),
                *final(self),
                *final(memory),
                old(self).state(*old(memory)).do_dec(command),
            ),
    {
        let (loc, word) = self.get_word_by_operand(memory, adr_operand(command));
        let result = sub_wrapping(word, 1);
        self.put_word(memory, loc, result);
        self.update_status_flags(memory, result, word == 0, word == 0x8000);
    }

    pub fn do_decb(&mut self, memory: &mut Memory, command: Word)
        requires
            old(memory).wf(),
        ensures
            old(self).performs(
                *old(memory),
                *final(self),
                *final(memory),
                old(self).state(*old(memory)).do_decb(command),
            ),
    {
        let (loc, byte) = self.get_byte_by_operand(memory, adr_operand(command));
        let result = ((byte as u16 + 0xFF) % 0x100) as Byte;
        self.put_byte(memory, loc, result);
        self.update_status_flags(memory, result, byte == 0, byte == 0x80);
    }

    pub fn do_adc(&mut self, memory: &mut Memory, command: Word)
        requires
            old(memory).wf(),
        ensures
            old(self).performs(
                *old(memory),
                *final(self),
                *final(memory),
                old(self).state(*old(memory)).do_adc(command),
            ),
    {
        let (loc, word) = self.get_word_by_operand(memory, adr_operand(command));
        let carry = self.carry_flag(memory);
        let result = add_wrapping(word, if carry { 1 } else { 0 });
        self.put_word(memory, loc, result);
        self.update_status_flags(memory, result, carry && word == 0xFFFF, carry && word == 0x7FFF);
    }

    pub fn do_adcb(&mut self, memory: &mut Memory, command: Word)
        requires
            old(memory).wf(),
        ensures
            old(self).performs(
                *old(memory),
                *final(self),
                *final(memory),
                old(self).state(*old(memory)).do_adcb(command),
            ),
    {
        let (loc, byte) = self.get_byte_by_operand(memory, adr_operand(command));
        let carry = self.carry_flag(memory);
        let result = ((byte as u16 + if carry { 1 } else { 0 }) % 0x100) as Byte;
        self.put_byte(memory, loc, result);
        self.update_status_flags(memory, result, carry && byte == 0xFF, carry && byte == 0x7F);
    }

    pub fn do_sdc(&mut self, memory: &mut Memory, command: Word)
        requires
            old(memory).wf(),
        ensures
            old(self).performs(
                *old(memory),
                *final(self),
                *final(memory),
                old(self).state(*old(memory)).do_sbc(command),
            ),
    {
        let (loc, word) = self.get_word_by_operand(memory, adr_operand(command));
        let carry = self.carry_flag(memory);
        let result = sub_wrapping(word, if carry { 1 } else { 0 });
        self.put_word(memory, loc, result);
        self.update_status_flags(memory, result, carry && word == 0, carry && word == 0x8000);
    }

    pub fn do_sdcb(&mut self, memory: &mut Memory, command: Word)
        requires
            old(memory).wf(),
        ensures
            old(self).performs(
                *old(memory),
                *final(self),
                *final(memory),
                old(self).state(*old(memory)).do_sbcb(command),
            ),
    {
        let (loc, byte) = self.get_byte_by_operand(memory, adr_operand(command));
        let carry = self.carry_flag(memory);
        let result = ((byte as u16 + if carry { 0xFF } else { 0 }) % 0x100) as Byte;
        self.put_byte(memory, loc, result);
        self.update_status_flags(memory, result, carry && byte == 0, carry && byte == 0x80);
    }

    pub fn do_tst(&mut self, memory: &mut Memory, command: Word)
        requires
            old(memory).wf(),
        ensures
            old(self).performs(
                *old(memory),
                *final(self),
                *final(memory),
                old(self).state(*old(memory)).do_tst(command),
            ),
    {
        let (loc, word) = self.get_word_by_operand(memory, adr_operand(command));
        self.update_status_flags(memory, word, false, false);
    }

    pub fn do_tstb(&mut self, memory: &mut Memory, command: Word)
        requires
            old(memory).wf(),
        ensures
            old(self).performs(
                *old(memory),
                *final(self),
                *final(memory),
                old(self).state(*old(memory)).do_tstb(command),
            ),
    {
        let (loc, byte) = self.get_byte_by_operand(memory, adr_operand(command));
        self.update_status_flags(memory, byte, false, false);
    }

    pub fn do_neg(&mut self, memory: &mut Memory, command: Word)
        requires
            old(memory).wf(),
        ensures
            old(self).performs(
                *old(memory),
                *final(self),
                *final(memory),
                old(self).state(*old(memory)).do_neg(command),
            ),
    {
        let (loc, word) = self.get_word_by_operand(memory, adr_operand(command));
        let result = word.two_complement();
        self.put_word(memory, loc, result);
        self.update_status_flags(memory, result, !result.is_zero(), result == 0x8000);
    }

    pub fn do_negb(&mut self, memory: &mut Memory, command: Word)
        requires
            old(memory).wf(),
        ensures
            old(self).performs(
                *old(memory),
                *final(self),
                *final(memory),
                old(self).state(*old(memory)).do_negb(command),
            ),
    {
        let (loc, byte) = self.get_byte_by_operand(memory, adr_operand(command));
        let result = byte.two_complement();
        self.put_byte(memory, loc, result);
        self.update_status_flags(memory, result, !result.is_zero(), result == 0x80);
    }

    pub fn do_com(&mut self, memory: &mut Memory, command: Word)
        requires
            old(memory).wf(),
        ensures
            old(self).performs(
                *old(memory),
                *final(self),
                *final(memory),
                old(self).state(*old(memory)).do_com(command),
            ),
    {
        let (loc, word) = self.get_word_by_operand(memory, adr_operand(command));
        let result = word.one_complement();
        self.put_word(memory, loc, result);
        self.update_status_flags(memory, result, true, false);
    }

    pub fn do_comb(&mut self, memory: &mut Memory, command: Word)
        requires
            old(memory).wf(),
        ensures
            old(self).performs(
                *old(memory),
                *final(self),
                *final(memory),
                old(self).state(*old(memory)).do_comb(command),
            ),
    {
        let (loc, byte) = self.get_byte_by_operand(memory, adr_operand(command));
        let result = byte.one_complement();
        self.put_byte(memory, loc, result);
        self.update_status_flags(memory, result, true, false);
    }

    pub fn do_ror(&mut self, memory: &mut Memory, command: Word)
        requires
            old(memory).wf(),
        ensures
            old(self).performs(
                *old(memory),
                *final(self),
                *final(memory),
                old(self).state(*old(memory)).do_ror(command),
            ),
    {
        let (loc, word) = self.get_word_by_operand(memory, adr_operand(command));
        let carry = self.carry_flag(memory);
        let new_carry = word % 2 == 1;
        let result = word / 2 + if carry { 0x8000 } else { 0 };
        self.put_word(memory, loc, result);
        self.update_status_flags(memory, result, new_carry, new_carry != result.is_negative());
    }

    pub fn do_rorb(&mut self, memory: &mut Memory, command: Word)
        requires
            old(memory).wf(),
        ensures
            old(self).performs(
                *old(memory),
                *final(self),
                *final(memory),
                old(self).state(*old(memory)).do_rorb(command),
            ),
    {
        let (loc, byte) = self.get_byte_by_operand(memory, adr_operand(command));
        let carry = self.carry_flag(memory);
        let new_carry = byte % 2 == 1;
        let result = byte / 2 + if carry { 0x80 } else { 0 };
        self.put_byte(memory, loc, result);
        self.update_status_flags(memory, result, new_carry, new_carry != result.is_negative());
    }

    pub fn do_rol(&mut self, memory: &mut Memory, command: Word)
        requires
            old(memory).wf(),
        ensures
            old(self).performs(
                *old(memory),
                *final(self),
                *final(memory),
                old(self).state(*old(memory)).do_rol(command),
            ),
    {
        let (loc, word) = self.get_word_by_operand(memory, adr_operand(command));
        let carry = self.carry_flag(memory);
        let new_carry = word.is_negative();
        let result = (word % 0x8000) * 2 + if carry { 1 } else { 0 };
        self.put_word(memory, loc, result);
        self.update_status_flags(memory, result, new_carry, new_carry != result.is_negative());
    }

    pub fn do_rolb(&mut self, memory: &mut Memory, command: Word)
        requires
            old(memory).wf(),
        ensures
            old(self).performs(
                *old(memory),
                *final(self),
                *final(memory),
                old(self).state(*old(memory)).do_rolb(command),
            ),
    {
        let (loc, byte) = self.get_byte_by_operand(memory, adr_operand(command));
        let carry = self.carry_flag(memory);
        let new_carry = byte.is_negative();
        let result = (byte % 0x80) * 2 + if carry { 1 } else { 0 };
        self.put_byte(memory, loc, result);
        self.update_status_flags(memory, result, new_carry, new_carry != result.is_negative());
    }

    pub fn do_asr(&mut self, memory: &mut Memory, command: Word)
        requires
            old(memory).wf(),
        ensures
            old(self).performs(
                *old(memory),
                *final(self),
                *final(memory),
                old(self).state(*old(memory)).do_asr(command),
            ),
    {
        let (loc, word) = self.get_word_by_operand(memory, adr_operand(command));
        let new_carry = word % 2 == 1;
        let result = asr1_word(word);
        self.put_word(memory, loc, result);
        self.update_status_flags(memory, result, new_carry, new_carry != result.is_negative());
    }

    pub fn do_asrb(&mut self, memory: &mut Memory, command: Word)
        requires
            old(memory).wf(),
        ensures
            old(self).performs(
                *old(memory),
                *final(self),
                *final(memory),
                old(self).state(*old(memory)).do_asrb(command),
            ),
    {
        let (loc, byte) = self.get_byte_by_operand(memory, adr_operand(command));
        let new_carry = byte % 2 == 1;
        let result = byte / 2 + if byte >= 0x80 { 0x80 } else { 0 };
        self.put_byte(memory, loc, result);
        self.update_status_flags(memory, result, new_carry, new_carry != result.is_negative());
    }

    pub fn do_asl(&mut self, memory: &mut Memory, command: Word)
        requires
            old(memory).wf(),
        ensures
            old(self).performs(
                *old(memory),
                *final(self),
                *final(memory),
                old(self).state(*old(memory)).do_asl(command),
            ),
    {
        let (loc, word) = self.get_word_by_operand(memory, adr_operand(command));
        let new_carry = word.is_negative();
        let result = (word % 0x8000) * 2;
        self.put_word(memory, loc, result);
        self.update_status_flags(memory, result, new_carry, new_carry != result.is_negative());
    }

    pub fn do_aslb(&mut self, memory: &mut Memory, command: Word)
        requires
            old(memory).wf(),
        ensures
            old(self).performs(
                *old(memory),
                *final(self),
                *final(memory),
                old(self).state(*old(memory)).do_aslb(command),
            ),
    {
        let (loc, byte) = self.get_byte_by_operand(memory, adr_operand(command));
        let new_carry = byte.is_negative();
        let result = (byte % 0x80) * 2;
        self.put_byte(memory, loc, result);
        self.update_status_flags(memory, result, new_carry, new_carry != result.is_negative());
    }

    pub fn do_swab(&mut self, memory: &mut Memory, command: Word)
        requires
            old(memory).wf(),
        ensures
            old(self).performs(
                *old(memory),
                *final(self),
                *final(memory),
                old(self).state(*old(memory)).do_swab(command),
            ),
    {
        let (loc, word) = self.get_word_by_operand(memory, adr_operand(command));
        let result = (word % 0x100) * 0x100 + word / 0x100;
        self.put_word(memory, loc, result);
        self.update_status_flags(memory, result.low(), false, false);
    }

    pub fn do_sxt(&mut self, memory: &mut Memory, command: Word)
        requires
            old(memory).wf(),
        ensures
            old(self).performs(
                *old(memory),
                *final(self),
                *final(memory),
                old(self).state(*old(memory)).do_sxt(command),
            ),
    {
        let loc = self.get_operand_location(memory, adr_operand(command), 2);
        let n_flag = self.negative_flag(memory);
        let result: Word = if n_flag {
            0xFFFF
        } else {
            0x0000
        };
        self.put_word(memory, loc, result);
        self.set_flag(memory, ZERO_FLAG_INDEX, !n_flag);
    }

    pub fn do_jmp(&mut self, memory: &mut Memory, command: Word)
        requires
            old(memory).wf(),
            jump_operand_ok(command),
        ensures
            old(self).performs(
                *old(memory),
                *final(self),
                *final(memory),
                old(self).state(*old(memory)).do_jmp(command),
            ),
    {
        let loc = self.get_operand_location(memory, adr_operand(command), 2);
        if let Location::Memory(address) = loc {
            self.registers[PROGRAM_COUNTER_INDEX as usize] = address;
        }
    }

    pub fn do_mark(&mut self, memory: &mut Memory, command: Word)
        requires
            old(memory).wf(),
        ensures
            old(self).performs(
                *old(memory),
                *final(self),
                *final(memory),
                old(self).state(*old(memory)).do_mark(command),
            ),
    {
        let n = adr_operand(command) as Word;
        let pc = self.registers[PROGRAM_COUNTER_INDEX as usize];
        let mp = self.registers[MARK_POINTER_INDEX as usize];
        self.registers[STACK_POINTER_INDEX as usize] = add_wrapping(pc, 2 * n);
        self.registers[PROGRAM_COUNTER_INDEX as usize] = mp;
        let stack_top_value = self.pop_stack(memory);
        self.registers[MARK_POINTER_INDEX as usize] = stack_top_value;
    }

}

/// `v` shifted right by one bit, the sign bit kept.
pub fn asr1_word(v: Word) -> (r: Word)
    ensures
        r == super::semantics::asr1_16(v),
{
    v / 2 + if v >= 0x8000 {
        0x8000
    } else {
        0
    }
}

// Two-operand
impl CPU {
    pub fn do_mov(&mut self, memory: &mut Memory, command: Word)
        requires
            old(memory).wf(),
        ensures
            old(self).performs(
                *old(memory),
                *final(self),
                *final(memory),
                old(self).state(*old(memory)).do_mov(command),
            ),
    {
        let (src_loc, word_to_move) = self.get_word_by_operand(memory, src_operand(command));
        let dst_loc = self.get_operand_location(memory, dst_operand(command), 2);
        self.put_word(memory, dst_loc, word_to_move);
        self.update_status_flags_bitwise(memory, word_to_move);
    }

    pub fn do_movb(&mut self, memory: &mut Memory, command: Word)
        requires
            old(memory).wf(),
        ensures
            old(self).performs(
                *old(memory),
                *final(self),
                *final(memory),
                old(self).state(*old(memory)).do_movb(command),
            ),
    {
        let (src_loc, byte_to_move) = self.get_byte_by_operand(memory, src_operand(command));
        let dst_loc = self.get_operand_location(memory, dst_operand(command), 1);
        self.put_byte(memory, dst_loc, byte_to_move);
        self.update_status_flags_bitwise(memory, byte_to_move);
    }

    pub fn do_add(&mut self, memory: &mut Memory, command: Word)
        requires
            old(memory).wf(),
        ensures
            old(self).performs(
                *old(memory),
                *final(self),
                *final(memory),
                old(self).state(*old(memory)).do_add(command),
            ),
    {
        let (src_loc, src_value) = self.get_word_by_operand(memory, src_operand(command));
        let (dst_loc, dst_value) = self.get_word_by_operand(memory, dst_operand(command));
        let sum = dst_value as u32 + src_value as u32;
        let result = (sum % 0x10000) as Word;
        self.put_word(memory, dst_loc, result);
        let overflow = src_value.is_negative() == dst_value.is_negative()
            && result.is_negative() != dst_value.is_negative();
        self.update_status_flags(memory, result, sum >= 0x10000, overflow);
    }

    pub fn do_sub(&mut self, memory: &mut Memory, command: Word)
        requires
            old(memory).wf(),
        ensures
            old(self).performs(
                *old(memory),
                *final(self),
                *final(memory),
                old(self).state(*old(memory)).do_sub(command),
            ),
    {
        let (src_loc, src_value) = self.get_word_by_operand(memory, src_operand(command));
        let (dst_loc, dst_value) = self.get_word_by_operand(memory, dst_operand(command));
        let result = sub_wrapping(dst_value, src_value);
        self.put_word(memory, dst_loc, result);
        let overflow = src_value.is_negative() != dst_value.is_negative()
            && result.is_negative() == src_value.is_negative();
        self.update_status_flags(memory, result, dst_value < src_value, overflow);
    }

    pub fn do_cmp(&mut self, memory: &mut Memory, command: Word)
        requires
            old(memory).wf(),
        ensures
            old(self).performs(
                *old(memory),
                *final(self),
                *final(memory),
                old(self).state(*old(memory)).do_cmp(command),
            ),
    {
        let (src_loc, src_value) = self.get_word_by_operand(memory, src_operand(command));
        let (dst_loc, dst_value) = self.get_word_by_operand(memory, dst_operand(command));
        let result = sub_wrapping(src_value, dst_value);
        let overflow = src_value.is_negative() != dst_value.is_negative()
            && result.is_negative() == dst_value.is_negative();
        self.update_status_flags(memory, result, src_value < dst_value, overflow);
    }

    pub fn do_cmpb(&mut self, memory: &mut Memory, command: Word)
        requires
            old(memory).wf(),
        ensures
            old(self).performs(
                *old(memory),
                *final(self),
                *final(memory),
                old(self).state(*old(memory)).do_cmpb(command),
            ),
    {
        let (src_loc, src_value) = self.get_byte_by_operand(memory, src_operand(command));
        let (dst_loc, dst_value) = self.get_byte_by_operand(memory, dst_operand(command));
        let result = ((src_value as u16 + 0x100 - dst_value as u16) % 0x100) as Byte;
        let overflow = src_value.is_negative() != dst_value.is_negative()
            && result.is_negative() == dst_value.is_negative();
        self.update_status_flags(memory, result, src_value < dst_value, overflow);
    }

    pub fn do_bis(&mut self, memory: &mut Memory, command: Word)
        requires
            old(memory).wf(),
        ensures
            old(self).performs(
                *old(memory),
                *final(self),
                *final(memory),
                old(self).state(*old(memory)).do_bis(command),
            ),
    {
        let (src_loc, src_value) = self.get_word_by_operand(memory, src_operand(command));
        let (dst_loc, dst_value) = self.get_word_by_operand(memory, dst_operand(command));
        let result = dst_value | src_value;
        self.put_word(memory, dst_loc, result);
        self.update_status_flags_bitwise(memory, result);
    }

    pub fn do_bisb(&mut self, memory: &mut Memory, command: Word)
        requires
            old(memory).wf(),
        ensures
            old(self).performs(
                *old(memory),
                *final(self),
                *final(memory),
                old(self).state(*old(memory)).do_bisb(command),
            ),
    {
        let (src_loc, src_value) = self.get_byte_by_operand(memory, src_operand(command));
        let (dst_loc, dst_value) = self.get_byte_by_operand(memory, dst_operand(command));
        let result = dst_value | src_value;
        self.put_byte(memory, dst_loc, result);
        self.update_status_flags_bitwise(memory, result);
    }

    pub fn do_bic(&mut self, memory: &mut Memory, command: Word)
        requires
            old(memory).wf(),
        ensures
            old(self).performs(
                *old(memory),
                *final(self),
                *final(memory),
                old(self).state(*old(memory)).do_bic(command),
            ),
    {
        let (src_loc, src_value) = self.get_word_by_operand(memory, src_operand(command));
        let (dst_loc, dst_value) = self.get_word_by_operand(memory, dst_operand(command));
        let result = dst_value & src_value.one_complement();
        self.put_word(memory, dst_loc, result);
        self.update_status_flags_bitwise(memory, result);
    }

    pub fn do_bicb(&mut self, memory: &mut Memory, command: Word)
        requires
            old(memory).wf(),
        ensures
            old(self).performs(
                *old(memory),
                *final(self),
                *final(memory),
                old(self).state(*old(memory)).do_bicb(command),
            ),
    {
        let (src_loc, src_value) = self.get_byte_by_operand(memory, src_operand(command));
        let (dst_loc, dst_value) = self.get_byte_by_operand(memory, dst_operand(command));
        let result = dst_value & src_value.one_complement();
        self.put_byte(memory, dst_loc, result);
        self.update_status_flags_bitwise(memory, result);
    }

    pub fn do_bit(&mut self, memory: &mut Memory, command: Word)
        requires
            old(memory).wf(),
        ensures
            old(self).performs(
                *old(memory),
                *final(self),
                *final(memory),
                old(self).state(*old(memory)).do_bit(command),
            ),
    {
        let (src_loc, src_value) = self.get_word_by_operand(memory, src_operand(command));
        let (dst_loc, dst_value) = self.get_word_by_operand(memory, dst_operand(command));
        let result = src_value & dst_value;
        self.update_status_flags_bitwise(memory, result);
    }

    pub fn do_bitb(&mut self, memory: &mut Memory, command: Word)
        requires
            old(memory).wf(),
        ensures
            old(self).performs(
                *old(memory),
                *final(self),
                *final(memory),
                old(self).state(*old(memory)).do_bitb(command),
            ),
    {
        let (src_loc, src_value) = self.get_byte_by_operand(memory, src_operand(command));
        let (dst_loc, dst_value) = self.get_byte_by_operand(memory, dst_operand(command));
        let result = src_value & dst_value;
        self.update_status_flags_bitwise(memory, result);
    }

}

// Branches
impl CPU {
    pub fn do_br(&mut self, memory: &mut Memory, command: Word)
        requires
            old(memory).wf(),
        ensures
            old(self).performs(
                *old(memory),
                *final(self),
                *final(memory),
                old(self).state(*old(memory)).branch(command, true),
            ),
    {
        let offset = branch_offset(command);
        let pc = self.registers[PROGRAM_COUNTER_INDEX as usize];
        self.registers[PROGRAM_COUNTER_INDEX as usize] = add_wrapping(pc, offset);
    }

    pub fn do_bne(&mut self, memory: &mut Memory, command: Word)
        requires
            old(memory).wf(),
        ensures
            old(self).performs(
                *old(memory),
                *final(self),
                *final(memory),
                old(self).state(*old(memory)).branch(command, !old(self).state(*old(memory)).zero()),
            ),
    {
        let condition = !self.zero_flag(memory);
        if condition {
            self.do_br(memory, command);
        }
    }

    pub fn do_beq(&mut self, memory: &mut Memory, command: Word)
        requires
            old(memory).wf(),
        ensures
            old(self).performs(
                *old(memory),
                *final(self),
                *final(memory),
                old(self).state(*old(memory)).branch(command, old(self).state(*old(memory)).zero()),
            ),
    {
        let condition = self.zero_flag(memory);
        if condition {
            self.do_br(memory, command);
        }
    }

    pub fn do_bpl(&mut self, memory: &mut Memory, command: Word)
        requires
            old(memory).wf(),
        ensures
            old(self).performs(
                *old(memory),
                *final(self),
                *final(memory),
                old(self).state(*old(memory)).branch(command, !old(self).state(*old(memory)).negative()),
            ),
    {
        let condition = !self.negative_flag(memory);
        if condition {
            self.do_br(memory, command);
        }
    }

    pub fn do_bmi(&mut self, memory: &mut Memory, command: Word)
        requires
            old(memory).wf(),
        ensures
            old(self).performs(
                *old(memory),
                *final(self),
                *final(memory),
                old(self).state(*old(memory)).branch(command, old(self).state(*old(memory)).negative()),
            ),
    {
        let condition = self.negative_flag(memory);
        if condition {
            self.do_br(memory, command);
        }
    }

    pub fn do_bvc(&mut self, memory: &mut Memory, command: Word)
        requires
            old(memory).wf(),
        ensures
            old(self).performs(
                *old(memory),
                *final(self),
                *final(memory),
                old(self).state(*old(memory)).branch(command, !old(self).state(*old(memory)).overflow()),
            ),
    {
        let condition = !self.overflow_flag(memory);
        if condition {
            self.do_br(memory, command);
        }
    }

    pub fn do_bvs(&mut self, memory: &mut Memory, command: Word)
        requires
            old(memory).wf(),
        ensures
            old(self).performs(
                *old(memory),
                *final(self),
                *final(memory),
                old(self).state(*old(memory)).branch(command, old(self).state(*old(memory)).overflow()),
            ),
    {
        let condition = self.overflow_flag(memory);
        if condition {
            self.do_br(memory, command);
        }
    }

    pub fn do_bcc(&mut self, memory: &mut Memory, command: Word)
        requires
            old(memory).wf(),
        ensures
            old(self).performs(
                *old(memory),
                *final(self),
                *final(memory),
                old(self).state(*old(memory)).branch(command, !old(self).state(*old(memory)).carry()),
            ),
    {
        let condition = !self.carry_flag(memory);
        if condition {
            self.do_br(memory, command);
        }
    }

    pub fn do_bcs(&mut self, memory: &mut Memory, command: Word)
        requires
            old(memory).wf(),
        ensures
            old(self).performs(
                *old(memory),
                *final(self),
                *final(memory),
                old(self).state(*old(memory)).branch(command, old(self).state(*old(memory)).carry()),
            ),
    {
        let condition = self.carry_flag(memory);
        if condition {
            self.do_br(memory, command);
        }
    }

    pub fn do_bge(&mut self, memory: &mut Memory, command: Word)
        requires
            old(memory).wf(),
        ensures
            old(self).performs(
                *old(memory),
                *final(self),
                *final(memory),
                old(self).state(*old(memory)).branch(command, old(self).state(*old(memory)).negative() == old(self).state(*old(memory)).overflow()),
            ),
    {
        let condition = self.negative_flag(memory) == self.overflow_flag(memory);
        if condition {
            self.do_br(memory, command);
        }
    }

    pub fn do_blt(&mut self, memory: &mut Memory, command: Word)
        requires
            old(memory).wf(),
        ensures
            old(self).performs(
                *old(memory),
                *final(self),
                *final(memory),
                old(self).state(*old(memory)).branch(command, old(self).state(*old(memory)).negative() != old(self).state(*old(memory)).overflow()),
            ),
    {
        let condition = self.negative_flag(memory) != self.overflow_flag(memory);
        if condition {
            self.do_br(memory, command);
        }
    }

    pub fn do_bgt(&mut self, memory: &mut Memory, command: Word)
        requires
            old(memory).wf(),
        ensures
            old(self).performs(
                *old(memory),
                *final(self),
                *final(memory),
                old(self).state(*old(memory)).branch(command, !old(self).state(*old(memory)).zero() && old(self).state(*old(memory)).negative() == old(self).state(*old(memory)).overflow()),
            ),
    {
        let condition = !self.zero_flag(memory) && self.negative_flag(memory) == self.overflow_flag(memory);
        if condition {
            self.do_br(memory, command);
        }
    }

    pub fn do_ble(&mut self, memory: &mut Memory, command: Word)
        requires
            old(memory).wf(),
        ensures
            old(self).performs(
                *old(memory),
                *final(self),
                *final(memory),
                old(self).state(*old(memory)).branch(command, old(self).state(*old(memory)).zero() || old(self).state(*old(memory)).negative() != old(self).state(*old(memory)).overflow()),
            ),
    {
        let condition = self.zero_flag(memory) || self.negative_flag(memory) != self.overflow_flag(memory);
        if condition {
            self.do_br(memory, command);
        }
    }

    pub fn do_bhi(&mut self, memory: &mut Memory, command: Word)
        requires
            old(memory).wf(),
        ensures
            old(self).performs(
                *old(memory),
                *final(self),
                *final(memory),
                old(self).state(*old(memory)).branch(command, !old(self).state(*old(memory)).carry() && !old(self).state(*old(memory)).zero()),
            ),
    {
        let condition = !self.carry_flag(memory) && !self.zero_flag(memory);
        if condition {
            self.do_br(memory, command);
        }
    }

    pub fn do_blos(&mut self, memory: &mut Memory, command: Word)
        requires
            old(memory).wf(),
        ensures
            old(self).performs(
                *old(memory),
                *final(self),
                *final(memory),
                old(self).state(*old(memory)).branch(command, old(self).state(*old(memory)).carry() || old(self).state(*old(memory)).zero()),
            ),
    {
        let condition = self.carry_flag(memory) || self.zero_flag(memory);
        if condition {
            self.do_br(memory, command);
        }
    }

    pub fn do_trap(&mut self, memory: &mut Memory, command: Word)
        requires
            old(memory).wf(),
        ensures
            old(self).performs(
                *old(memory),
                *final(self),
                *final(memory),
                old(self).state(*old(memory)).trap(TRAP_VECTOR),
            ),
    {
        self.perform_trap(memory, TRAP_VECTOR as Address);
    }

    pub fn do_emt(&mut self, memory: &mut Memory, command: Word)
        requires
            old(memory).wf(),
        ensures
            old(self).performs(
                *old(memory),
                *final(self),
                *final(memory),
                old(self).state(*old(memory)).trap(EMT_VECTOR),
            ),
    {
        self.perform_trap(memory, EMT_VECTOR as Address);
    }

}

// One-and-a-half-operand
impl CPU {
    pub fn do_mul(&mut self, memory: &mut Memory, command: Word)
        requires
            old(memory).wf(),
        ensures
            old(self).performs(
                *old(memory),
                *final(self),
                *final(memory),
                old(self).state(*old(memory)).do_mul(command),
            ),
    {
        let n = reg_operand(command);
        let (src_loc, src_value) = self.get_word_by_operand(memory, adr_operand(command));
        let a = signed_word(self.registers[n as usize]);
        let b = signed_word(src_value);
        assert(-0x4000_0000 <= a * b <= 0x4000_0000) by (nonlinear_arith)
            requires
                -0x8000 <= a <= 0x7FFF,
                -0x8000 <= b <= 0x7FFF,
        ;
        let product = a * b;
        let unsigned: u64 = if product < 0 {
            (product + 0x1_0000_0000) as u64
        } else {
            product as u64
        };
        let high = (unsigned / 0x10000) as Word;
        let low = (unsigned % 0x10000) as Word;
        if n % 2 == 0 {
            self.registers[n as usize] = high;
            self.registers[n as usize + 1] = low;
        } else {
            self.registers[n as usize] = low;
        }
        self.update_flags(memory, product < 0, product == 0, false, product < -0x8000 || product > 0x7FFF);
    }

    pub fn do_div(&mut self, memory: &mut Memory, command: Word)
        requires
            old(memory).wf(),
            even_register_ok(command),
        ensures
            old(self).performs(
                *old(memory),
                *final(self),
                *final(memory),
                old(self).state(*old(memory)).do_div(command),
            ),
    {
        let n = reg_operand(command);
        let (src_loc, src_value) = self.get_word_by_operand(memory, adr_operand(command));
        let d = signed_word(src_value);
        let raw = self.registers[n as usize] as i64 * 0x10000 + self.registers[n as usize + 1] as i64;
        let dividend: i64 = if raw >= 0x8000_0000 {
            raw - 0x1_0000_0000
        } else {
            raw
        };
        if d == 0 {
            let psw = self.status_word(memory);
            self.set_status_word(
                memory,
                psw.set_n_bit(OVERFLOW_FLAG_INDEX, true).set_n_bit(CARRY_FLAG_INDEX, true),
            );
            return;
        }
        let magnitude: u64 = if dividend < 0 {
            (-dividend) as u64
        } else {
            dividend as u64
        };
        let divisor: u64 = if d < 0 {
            (-d) as u64
        } else {
            d as u64
        };
        let quotient_magnitude = (magnitude / divisor) as i64;
        let quotient = if (dividend >= 0) == (d > 0) || dividend == 0 {
            quotient_magnitude
        } else {
            -quotient_magnitude
        };
        if quotient < -0x8000 || quotient > 0x7FFF {
            let psw = self.status_word(memory);
            self.set_status_word(
                memory,
                psw.set_n_bit(OVERFLOW_FLAG_INDEX, true).set_n_bit(CARRY_FLAG_INDEX, false),
            );
            return;
        }
        assert(-0x4000_0000 <= quotient * d <= 0x4000_0000) by (nonlinear_arith)
            requires
                -0x8000 <= quotient <= 0x7FFF,
                -0x8000 <= d <= 0x7FFF,
        ;
        let remainder = dividend - quotient * d;
        self.registers[n as usize] = wrap_word(quotient);
        self.registers[n as usize + 1] = wrap_word(remainder);
        self.update_flags(memory, quotient < 0, quotient == 0, false, false);
    }

    pub fn do_ash(&mut self, memory: &mut Memory, command: Word)
        requires
            old(memory).wf(),
        ensures
            old(self).performs(
                *old(memory),
                *final(self),
                *final(memory),
                old(self).state(*old(memory)).do_ash(command),
            ),
    {
        let n = reg_operand(command);
        let (src_loc, src_value) = self.get_word_by_operand(memory, adr_operand(command));
        let value = self.registers[n as usize];
        if src_value % 64 == 0 {
            self.update_status_flags(memory, value, false, false);
            return;
        }
        let (result, carry) = shift_word(value, src_value);
        self.registers[n as usize] = result;
        self.update_status_flags(memory, result, carry, value.is_negative() != result.is_negative());
    }

    pub fn do_ashc(&mut self, memory: &mut Memory, command: Word)
        requires
            old(memory).wf(),
            even_register_ok(command),
        ensures
            old(self).performs(
                *old(memory),
                *final(self),
                *final(memory),
                old(self).state(*old(memory)).do_ashc(command),
            ),
    {
        let n = reg_operand(command);
        let (src_loc, src_value) = self.get_word_by_operand(memory, adr_operand(command));
        let value = long_word(self.registers[n as usize], self.registers[n as usize + 1]);
        if src_value % 64 == 0 {
            self.update_status_flags(memory, value, false, false);
            return;
        }
        let (result, carry) = shift_long(value, src_value);
        self.registers[n as usize] = result.low();
        self.registers[n as usize + 1] = result.high();
        self.update_status_flags(memory, result, carry, value.is_negative() != result.is_negative());
    }

    pub fn do_xor(&mut self, memory: &mut Memory, command: Word)
        requires
            old(memory).wf(),
        ensures
            old(self).performs(
                *old(memory),
                *final(self),
                *final(memory),
                old(self).state(*old(memory)).do_xor(command),
            ),
    {
        let src_value = self.registers[reg_operand(command) as usize];
        let (dst_loc, dst_value) = self.get_word_by_operand(memory, adr_operand(command));
        let result = dst_value ^ src_value;
        self.put_word(memory, dst_loc, result);
        self.update_status_flags_bitwise(memory, result);
    }

    pub fn do_sob(&mut self, memory: &mut Memory, command: Word)
        requires
            old(memory).wf(),
        ensures
            old(self).performs(
                *old(memory),
                *final(self),
                *final(memory),
                old(self).state(*old(memory)).do_sob(command),
            ),
    {
        let reg_index = reg_operand(command);
        let offset = adr_operand(command) as Word;
        let result = sub_wrapping(self.registers[reg_index as usize], 1);
        self.registers[reg_index as usize] = result;
        if result != 0 {
            let pc_value = self.registers[PROGRAM_COUNTER_INDEX as usize];
            self.registers[PROGRAM_COUNTER_INDEX as usize] = sub_wrapping(pc_value, 2 * offset);
        }
    }

    pub fn do_jsr(&mut self, memory: &mut Memory, command: Word)
        requires
            old(memory).wf(),
            jump_operand_ok(command),
        ensures
            old(self).performs(
                *old(memory),
                *final(self),
                *final(memory),
                old(self).state(*old(memory)).do_jsr(command),
            ),
    {
        let reg = reg_operand(command);
        let loc = self.get_operand_location(memory, adr_operand(command), 2);
        let reg_value = self.registers[reg as usize];
        self.push_stack(memory, reg_value);
        let pc_value = self.registers[PROGRAM_COUNTER_INDEX as usize];
        self.registers[reg as usize] = pc_value;
        if let Location::Memory(address) = loc {
            self.registers[PROGRAM_COUNTER_INDEX as usize] = address;
        }
    }

}

/// The two's-complement value of a word.
pub fn signed_word(w: Word) -> (r: i64)
    ensures
        r == signed16(w),
        -0x8000 <= r <= 0x7FFF,
{
    if w >= 0x8000 {
        w as i64 - 0x10000
    } else {
        w as i64
    }
}

/// `x` modulo 2^16.
pub fn wrap_word(x: i64) -> (r: Word)
    requires
        -0x1_0000_0000 <= x < 0x1_0000_0000,
    ensures
        r == wrap16(x as int),
{
    (((x + 0x1_0000_0000) as u64) % 0x10000) as Word
}

/// ASH of `v` by the nonzero count in the low six bits of `src`.
pub fn shift_word(v: Word, src: Word) -> (r: (Word, bool))
    requires
        src % 64 != 0,
    ensures
        r == ash_word(v, src),
{
    let count = src % 64;
    let mut inter = v;
    let mut i: u16 = 0;
    if count < 32 {
        while i < count - 1
            invariant
                1 <= count < 32,
                i <= count - 1,
                inter == shl16(v, i as nat),
            decreases count - 1 - i,
        {
            inter = ((inter as u32 * 2) % 0x10000) as Word;
            i = i + 1;
        }
        (((inter as u32 * 2) % 0x10000) as Word, inter >= 0x8000)
    } else {
        while i < 63 - count
            invariant
                32 <= count < 64,
                i <= 63 - count,
                inter == asr16(v, i as nat),
            decreases 63 - count - i,
        {
            inter = asr1_word(inter);
            i = i + 1;
        }
        (asr1_word(inter), inter % 2 == 1)
    }
}

/// `v` shifted right by one bit, the sign bit kept.
pub fn asr1_long(v: LongWord) -> (r: LongWord)
    ensures
        r == asr1_32(v),
{
    v / 2 + if v >= 0x8000_0000 {
        0x8000_0000
    } else {
        0
    }
}

/// ASHC of `v` by the nonzero count in the low six bits of `src`.
pub fn shift_long(v: LongWord, src: Word) -> (r: (LongWord, bool))
    requires
        src % 64 != 0,
    ensures
        r == ash_long(v, src),
{
    let count = src % 64;
    let mut inter = v;
    let mut i: u16 = 0;
    if count < 32 {
        while i < count - 1
            invariant
                1 <= count < 32,
                i <= count - 1,
                inter == shl32(v, i as nat),
            decreases count - 1 - i,
        {
            inter = ((inter as u64 * 2) % 0x1_0000_0000) as LongWord;
            i = i + 1;
        }
        (((inter as u64 * 2) % 0x1_0000_0000) as LongWord, inter >= 0x8000_0000)
    } else {
        while i < 63 - count
            invariant
                32 <= count < 64,
                i <= 63 - count,
                inter == asr32(v, i as nat),
            decreases 63 - count - i,
        {
            inter = asr1_long(inter);
            i = i + 1;
        }
        (asr1_long(inter), inter % 2 == 1)
    }
}

// Trap sequence
impl CPU {
    /// Saves PSW and PC on the stack and continues at the trap vector `trap_address`.
    pub fn perform_trap(&mut self, memory: &mut Memory, trap_address: Address)
        requires
            old(memory).wf(),
            trap_address < 0x10000,
        ensures
            old(self).performs(
                *old(memory),
                *final(self),
                *final(memory),
                old(self).state(*old(memory)).trap(trap_address as Word),
            ),
    {
        let vector = trap_address as Word;
        self.note_odd(memory, vector % 2 == 1);
        let new_pc = read_memory_word(memory, vector);
        let new_psw = read_memory_word(memory, add_wrapping(vector, 2));
        let psw_value = self.status_word(memory);
        self.push_stack(memory, psw_value);
        let pc_value = self.registers[PROGRAM_COUNTER_INDEX as usize];
        self.push_stack(memory, pc_value);
        self.registers[PROGRAM_COUNTER_INDEX as usize] = new_pc;
        self.set_status_word(memory, new_psw);
    }
}

} // verus!
