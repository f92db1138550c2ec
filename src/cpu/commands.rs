use vstd::prelude::*;

use crate::utils::{Byte, Number, Word};

verus! {

/// Zero-operand instructions: the whole word is the opcode.
pub const O_0_MASK: Word = 0xFFFF;

/// Priority, return and floating-point instructions: the low three bits are an operand.
pub const P_MASK: Word = 0xFFF8;

/// Condition-code set and clear: the low four bits select the flags.
pub const C_MASK: Word = 0xFFF0;

/// One-operand instructions.
pub const O_1_MASK: Word = 0xFFC0;

/// One-and-a-half-operand instructions: a register and an operand.
pub const O_1_5_MASK: Word = 0xFE00;

/// Two-operand instructions.
pub const O_2_MASK: Word = 0xF000;

/// Branches, TRAP and EMT.
pub const B_MASK: Word = 0xFF00;

pub open spec fn dst_of(command: Word) -> Byte {
    (command % 64) as Byte
}

pub open spec fn src_of(command: Word) -> Byte {
    (command / 64 % 64) as Byte
}

pub open spec fn reg_of(command: Word) -> Byte {
    (command / 64 % 8) as Byte
}

pub open spec fn low_reg_of(command: Word) -> Byte {
    (command % 8) as Byte
}

/// The branch displacement in bytes: the low byte sign-extended and doubled, modulo 2^16.
pub open spec fn offset_of(command: Word) -> Word {
    (((command % 256) as Byte).spec_register() * 2 % 0x10000) as Word
}

/// The destination operand: bits 0 to 5.
pub fn dst_operand(command: Word) -> (r: Byte)
    ensures
        r == dst_of(command),
        r < 64,
{
    (command % 64) as Byte
}

/// The source operand of a two-operand instruction: bits 6 to 11.
pub fn src_operand(command: Word) -> (r: Byte)
    ensures
        r == src_of(command),
        r < 64,
{
    (command / 64 % 64) as Byte
}

pub fn branch_offset(command: Word) -> (r: Word)
    ensures
        r == offset_of(command),
{
    let low = (command % 256) as Byte;
    ((low.register() as u32 * 2) % 0x10000) as Word
}

/// The register of a one-and-a-half-operand instruction: bits 6 to 8.
pub fn reg_operand(command: Word) -> (r: Byte)
    ensures
        r == reg_of(command),
        r < 8,
{
    (command / 64 % 8) as Byte
}

/// The register in bits 0 to 2.
pub fn low_reg_operand(command: Word) -> (r: Byte)
    ensures
        r == low_reg_of(command),
        r < 8,
{
    (command % 8) as Byte
}

/// The operand of a one-operand instruction.
pub fn adr_operand(command: Word) -> (r: Byte)
    ensures
        r == dst_of(command),
        r < 64,
{
    dst_operand(command)
}

/// The instructions of the machine.
#[derive(Clone, Copy, Debug, PartialEq, Eq, Structural)]
pub enum Instruction {
    Halt,
    Wait,
    Reset,
    Nop,
    Rti,
    Bpt,
    Iot,
    Rtt,
    Spl,
    Rts,
    Fadd,
    Fsub,
    Fmul,
    Fdiv,
    Se,
    Cl,
    Jmp,
    Clr,
    Clrb,
    Inc,
    Incb,
    Dec,
    Decb,
    Adc,
    Adcb,
    Sbc,
    Sbcb,
    Tst,
    Tstb,
    Neg,
    Negb,
    Com,
    Comb,
    Ror,
    Rorb,
    Rol,
    Rolb,
    Asr,
    Asrb,
    Asl,
    Aslb,
    Swab,
    Sxt,
    Mark,
    Mul,
    Div,
    Ash,
    Ashc,
    Xor,
    Sob,
    Jsr,
    Mov,
    Movb,
    Cmp,
    Cmpb,
    Bit,
    Bitb,
    Bic,
    Bicb,
    Bis,
    Bisb,
    Add,
    Sub,
    Br,
    Bne,
    Beq,
    Bge,
    Blt,
    Bgt,
    Ble,
    Bpl,
    Bmi,
    Bhi,
    Blos,
    Bvc,
    Bvs,
    Bcc,
    Bcs,
    Trap,
    Emt,
    Unknown,
}

/// A decoded instruction word: the opcode it matched and the instruction.
#[derive(Clone, Copy, Debug, PartialEq, Eq, Structural)]
pub struct Command(pub Word, pub Instruction);

pub open spec fn zero_operand(w: Word) -> Option<Command> {
    if w == 0x0000 {
        Some(Command(w, Instruction::Halt))
    } else if w == 0x0001 {
        Some(Command(w, Instruction::Wait))
    } else if w == 0x0005 {
        Some(Command(w, Instruction::Reset))
    } else if w == 0x00A0 {
        Some(Command(w, Instruction::Nop))
    } else if w == 0x0002 {
        Some(Command(w, Instruction::Rti))
    } else if w == 0x0003 {
        Some(Command(w, Instruction::Bpt))
    } else if w == 0x0004 {
        Some(Command(w, Instruction::Iot))
    } else if w == 0x0006 {
        Some(Command(w, Instruction::Rtt))
    } else {
        None
    }
}

pub open spec fn priority_group(w: Word) -> Option<Command> {
    if w == 0x0098 {
        Some(Command(w, Instruction::Spl))
    } else if w == 0x0080 {
        Some(Command(w, Instruction::Rts))
    } else if w == 0x7A00 {
        Some(Command(w, Instruction::Fadd))
    } else if w == 0x7A08 {
        Some(Command(w, Instruction::Fsub))
    } else if w == 0x7A10 {
        Some(Command(w, Instruction::Fmul))
    } else if w == 0x7A18 {
        Some(Command(w, Instruction::Fdiv))
    } else {
        None
    }
}

pub open spec fn condition_group(w: Word) -> Option<Command> {
    if w == 0x00B0 {
        Some(Command(w, Instruction::Se))
    } else if w == 0x00A0 {
        Some(Command(w, Instruction::Cl))
    } else {
        None
    }
}

pub open spec fn one_operand_group(w: Word) -> Option<Command> {
    if w == 0x0040 {
        Some(Command(w, Instruction::Jmp))
    } else if w == 0x0A00 {
        Some(Command(w, Instruction::Clr))
    } else if w == 0x8A00 {
        Some(Command(w, Instruction::Clrb))
    } else if w == 0x0A80 {
        Some(Command(w, Instruction::Inc))
    } else if w == 0x8A80 {
        Some(Command(w, Instruction::Incb))
    } else if w == 0x0AC0 {
        Some(Command(w, Instruction::Dec))
    } else if w == 0x8AC0 {
        Some(Command(w, Instruction::Decb))
    } else if w == 0x0B40 {
        Some(Command(w, Instruction::Adc))
    } else if w == 0x8B40 {
        Some(Command(w, Instruction::Adcb))
    } else if w == 0x0B80 {
        Some(Command(w, Instruction::Sbc))
    } else if w == 0x8B80 {
        Some(Command(w, Instruction::Sbcb))
    } else if w == 0x0BC0 {
        Some(Command(w, Instruction::Tst))
    } else if w == 0x8BC0 {
        Some(Command(w, Instruction::Tstb))
    } else if w == 0x0B00 {
        Some(Command(w, Instruction::Neg))
    } else if w == 0x8B00 {
        Some(Command(w, Instruction::Negb))
    } else if w == 0x0A40 {
        Some(Command(w, Instruction::Com))
    } else if w == 0x8A40 {
        Some(Command(w, Instruction::Comb))
    } else if w == 0x0C00 {
        Some(Command(w, Instruction::Ror))
    } else if w == 0x8C00 {
        Some(Command(w, Instruction::Rorb))
    } else if w == 0x0C40 {
        Some(Command(w, Instruction::Rol))
    } else if w == 0x8C40 {
        Some(Command(w, Instruction::Rolb))
    } else if w == 0x0C80 {
        Some(Command(w, Instruction::Asr))
    } else if w == 0x8C80 {
        Some(Command(w, Instruction::Asrb))
    } else if w == 0x0CC0 {
        Some(Command(w, Instruction::Asl))
    } else if w == 0x8CC0 {
        Some(Command(w, Instruction::Aslb))
    } else if w == 0x00C0 {
        Some(Command(w, Instruction::Swab))
    } else if w == 0x0DC0 {
        Some(Command(w, Instruction::Sxt))
    } else if w == 0x0D00 {
        Some(Command(w, Instruction::Mark))
    } else {
        None
    }
}

pub open spec fn register_operand_group(w: Word) -> Option<Command> {
    if w == 0x7000 {
        Some(Command(w, Instruction::Mul))
    } else if w == 0x7200 {
        Some(Command(w, Instruction::Div))
    } else if w == 0x7400 {
        Some(Command(w, Instruction::Ash))
    } else if w == 0x7600 {
        Some(Command(w, Instruction::Ashc))
    } else if w == 0x7800 {
        Some(Command(w, Instruction::Xor))
    } else if w == 0x7E00 {
        Some(Command(w, Instruction::Sob))
    } else if w == 0x0800 {
        Some(Command(w, Instruction::Jsr))
    } else {
        None
    }
}

pub open spec fn two_operand_group(w: Word) -> Option<Command> {
    if w == 0x1000 {
        Some(Command(w, Instruction::Mov))
    } else if w == 0x9000 {
        Some(Command(w, Instruction::Movb))
    } else if w == 0x2000 {
        Some(Command(w, Instruction::Cmp))
    } else if w == 0xA000 {
        Some(Command(w, Instruction::Cmpb))
    } else if w == 0x3000 {
        Some(Command(w, Instruction::Bit))
    } else if w == 0xB000 {
        Some(Command(w, Instruction::Bitb))
    } else if w == 0x4000 {
        Some(Command(w, Instruction::Bic))
    } else if w == 0xC000 {
        Some(Command(w, Instruction::Bicb))
    } else if w == 0x5000 {
        Some(Command(w, Instruction::Bis))
    } else if w == 0xD000 {
        Some(Command(w, Instruction::Bisb))
    } else if w == 0x6000 {
        Some(Command(w, Instruction::Add))
    } else if w == 0xE000 {
        Some(Command(w, Instruction::Sub))
    } else {
        None
    }
}

pub open spec fn branch_group(w: Word) -> Option<Command> {
    if w == 0x0100 {
        Some(Command(w, Instruction::Br))
    } else if w == 0x0200 {
        Some(Command(w, Instruction::Bne))
    } else if w == 0x0300 {
        Some(Command(w, Instruction::Beq))
    } else if w == 0x0400 {
        Some(Command(w, Instruction::Bge))
    } else if w == 0x0500 {
        Some(Command(w, Instruction::Blt))
    } else if w == 0x0600 {
        Some(Command(w, Instruction::Bgt))
    } else if w == 0x0700 {
        Some(Command(w, Instruction::Ble))
    } else if w == 0x8000 {
        Some(Command(w, Instruction::Bpl))
    } else if w == 0x8100 {
        Some(Command(w, Instruction::Bmi))
    } else if w == 0x8200 {
        Some(Command(w, Instruction::Bhi))
    } else if w == 0x8300 {
        Some(Command(w, Instruction::Blos))
    } else if w == 0x8400 {
        Some(Command(w, Instruction::Bvc))
    } else if w == 0x8500 {
        Some(Command(w, Instruction::Bvs))
    } else if w == 0x8600 {
        Some(Command(w, Instruction::Bcc))
    } else if w == 0x8700 {
        Some(Command(w, Instruction::Bcs))
    } else if w == 0x8900 {
        Some(Command(w, Instruction::Trap))
    } else if w == 0x8800 {
        Some(Command(w, Instruction::Emt))
    } else {
        None
    }
}

/// The opcode groups, tried in this order; the first that holds the masked word decides.
pub open spec fn decode(w: Word) -> Command {
    if zero_operand(w & O_0_MASK) is Some {
        zero_operand(w & O_0_MASK)->Some_0
    } else if priority_group(w & P_MASK) is Some {
        priority_group(w & P_MASK)->Some_0
    } else if condition_group(w & C_MASK) is Some {
        condition_group(w & C_MASK)->Some_0
    } else if one_operand_group(w & O_1_MASK) is Some {
        one_operand_group(w & O_1_MASK)->Some_0
    } else if register_operand_group(w & O_1_5_MASK) is Some {
        register_operand_group(w & O_1_5_MASK)->Some_0
    } else if two_operand_group(w & O_2_MASK) is Some {
        two_operand_group(w & O_2_MASK)->Some_0
    } else if branch_group(w & B_MASK) is Some {
        branch_group(w & B_MASK)->Some_0
    } else {
        Command(0xFFFF, Instruction::Unknown)
    }
}

fn lookup_zero_operand(w: Word) -> (r: Option<Command>)
    ensures
        r == zero_operand(w),
{
    match w {
        0x0000 => Some(Command(w, Instruction::Halt)),
        0x0001 => Some(Command(w, Instruction::Wait)),
        0x0005 => Some(Command(w, Instruction::Reset)),
        0x00A0 => Some(Command(w, Instruction::Nop)),
        0x0002 => Some(Command(w, Instruction::Rti)),
        0x0003 => Some(Command(w, Instruction::Bpt)),
        0x0004 => Some(Command(w, Instruction::Iot)),
        0x0006 => Some(Command(w, Instruction::Rtt)),
        _ => None,
    }
}

fn lookup_priority_group(w: Word) -> (r: Option<Command>)
    ensures
        r == priority_group(w),
{
    match w {
        0x0098 => Some(Command(w, Instruction::Spl)),
        0x0080 => Some(Command(w, Instruction::Rts)),
        0x7A00 => Some(Command(w, Instruction::Fadd)),
        0x7A08 => Some(Command(w, Instruction::Fsub)),
        0x7A10 => Some(Command(w, Instruction::Fmul)),
        0x7A18 => Some(Command(w, Instruction::Fdiv)),
        _ => None,
    }
}

fn lookup_condition_group(w: Word) -> (r: Option<Command>)
    ensures
        r == condition_group(w),
{
    match w {
        0x00B0 => Some(Command(w, Instruction::Se)),
        0x00A0 => Some(Command(w, Instruction::Cl)),
        _ => None,
    }
}

fn lookup_one_operand_group(w: Word) -> (r: Option<Command>)
    ensures
        r == one_operand_group(w),
{
    match w {
        0x0040 => Some(Command(w, Instruction::Jmp)),
        0x0A00 => Some(Command(w, Instruction::Clr)),
        0x8A00 => Some(Command(w, Instruction::Clrb)),
        0x0A80 => Some(Command(w, Instruction::Inc)),
        0x8A80 => Some(Command(w, Instruction::Incb)),
        0x0AC0 => Some(Command(w, Instruction::Dec)),
        0x8AC0 => Some(Command(w, Instruction::Decb)),
        0x0B40 => Some(Command(w, Instruction::Adc)),
        0x8B40 => Some(Command(w, Instruction::Adcb)),
        0x0B80 => Some(Command(w, Instruction::Sbc)),
        0x8B80 => Some(Command(w, Instruction::Sbcb)),
        0x0BC0 => Some(Command(w, Instruction::Tst)),
        0x8BC0 => Some(Command(w, Instruction::Tstb)),
        0x0B00 => Some(Command(w, Instruction::Neg)),
        0x8B00 => Some(Command(w, Instruction::Negb)),
        0x0A40 => Some(Command(w, Instruction::Com)),
        0x8A40 => Some(Command(w, Instruction::Comb)),
        0x0C00 => Some(Command(w, Instruction::Ror)),
        0x8C00 => Some(Command(w, Instruction::Rorb)),
        0x0C40 => Some(Command(w, Instruction::Rol)),
        0x8C40 => Some(Command(w, Instruction::Rolb)),
        0x0C80 => Some(Command(w, Instruction::Asr)),
        0x8C80 => Some(Command(w, Instruction::Asrb)),
        0x0CC0 => Some(Command(w, Instruction::Asl)),
        0x8CC0 => Some(Command(w, Instruction::Aslb)),
        0x00C0 => Some(Command(w, Instruction::Swab)),
        0x0DC0 => Some(Command(w, Instruction::Sxt)),
        0x0D00 => Some(Command(w, Instruction::Mark)),
        _ => None,
    }
}

fn lookup_register_operand_group(w: Word) -> (r: Option<Command>)
    ensures
        r == register_operand_group(w),
{
    match w {
        0x7000 => Some(Command(w, Instruction::Mul)),
        0x7200 => Some(Command(w, Instruction::Div)),
        0x7400 => Some(Command(w, Instruction::Ash)),
        0x7600 => Some(Command(w, Instruction::Ashc)),
        0x7800 => Some(Command(w, Instruction::Xor)),
        0x7E00 => Some(Command(w, Instruction::Sob)),
        0x0800 => Some(Command(w, Instruction::Jsr)),
        _ => None,
    }
}

fn lookup_two_operand_group(w: Word) -> (r: Option<Command>)
    ensures
        r == two_operand_group(w),
{
    match w {
        0x1000 => Some(Command(w, Instruction::Mov)),
        0x9000 => Some(Command(w, Instruction::Movb)),
        0x2000 => Some(Command(w, Instruction::Cmp)),
        0xA000 => Some(Command(w, Instruction::Cmpb)),
        0x3000 => Some(Command(w, Instruction::Bit)),
        0xB000 => Some(Command(w, Instruction::Bitb)),
        0x4000 => Some(Command(w, Instruction::Bic)),
        0xC000 => Some(Command(w, Instruction::Bicb)),
        0x5000 => Some(Command(w, Instruction::Bis)),
        0xD000 => Some(Command(w, Instruction::Bisb)),
        0x6000 => Some(Command(w, Instruction::Add)),
        0xE000 => Some(Command(w, Instruction::Sub)),
        _ => None,
    }
}

fn lookup_branch_group(w: Word) -> (r: Option<Command>)
    ensures
        r == branch_group(w),
{
    match w {
        0x0100 => Some(Command(w, Instruction::Br)),
        0x0200 => Some(Command(w, Instruction::Bne)),
        0x0300 => Some(Command(w, Instruction::Beq)),
        0x0400 => Some(Command(w, Instruction::Bge)),
        0x0500 => Some(Command(w, Instruction::Blt)),
        0x0600 => Some(Command(w, Instruction::Bgt)),
        0x0700 => Some(Command(w, Instruction::Ble)),
        0x8000 => Some(Command(w, Instruction::Bpl)),
        0x8100 => Some(Command(w, Instruction::Bmi)),
        0x8200 => Some(Command(w, Instruction::Bhi)),
        0x8300 => Some(Command(w, Instruction::Blos)),
        0x8400 => Some(Command(w, Instruction::Bvc)),
        0x8500 => Some(Command(w, Instruction::Bvs)),
        0x8600 => Some(Command(w, Instruction::Bcc)),
        0x8700 => Some(Command(w, Instruction::Bcs)),
        0x8900 => Some(Command(w, Instruction::Trap)),
        0x8800 => Some(Command(w, Instruction::Emt)),
        _ => None,
    }
}

/// Decodes an instruction word by matching the opcode groups in order.
pub fn command(command_word: Word) -> (r: Command)
    ensures
        r == decode(command_word),
{
    if let Some(c) = lookup_zero_operand(command_word & O_0_MASK) {
        return c;
    }
    if let Some(c) = lookup_priority_group(command_word & P_MASK) {
        return c;
    }
    if let Some(c) = lookup_condition_group(command_word & C_MASK) {
        return c;
    }
    if let Some(c) = lookup_one_operand_group(command_word & O_1_MASK) {
        return c;
    }
    if let Some(c) = lookup_register_operand_group(command_word & O_1_5_MASK) {
        return c;
    }
    if let Some(c) = lookup_two_operand_group(command_word & O_2_MASK) {
        return c;
    }
    if let Some(c) = lookup_branch_group(command_word & B_MASK) {
        return c;
    }
    Command(0xFFFF, Instruction::Unknown)
}

} // verus!
