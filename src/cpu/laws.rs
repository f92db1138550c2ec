use vstd::prelude::*;

use crate::mem::{high_of, lemma_halves, low_of, put_word, word_at};
use crate::utils::{Byte, Number, Word};

use super::commands::{dst_of, low_reg_of, reg_of, src_of, Instruction};
use super::state::{wrap_add, with_nzvc, Location, MachineState, PROGRAM_COUNTER_INDEX};

verus! {

/// How many extension words follow the instruction word for the operand `operand`:
/// one for the index modes and for immediate and absolute operands.
pub open spec fn extension_words(operand: Byte) -> int {
    let mode = operand / 8;
    if mode == 6 || mode == 7 || (operand % 8 == 7 && (mode == 2 || mode == 3)) {
        1
    } else {
        0
    }
}

/// The operand does not step PC backwards.
pub open spec fn keeps_pc_forward(operand: Byte) -> bool {
    operand % 8 == 7 ==> operand / 8 != 4 && operand / 8 != 5
}

/// The operand is not PC itself, so storing to it leaves PC alone.
pub open spec fn not_pc_register(operand: Byte) -> bool {
    !(operand % 8 == 7 && operand / 8 == 0)
}

/// The machine has its eight registers and its full address space.
pub open spec fn well_formed(s: MachineState) -> bool {
    &&& s.regs.len() == 8
    &&& s.mem.len() == 0x10000
}

proof fn lemma_resolve_pc(s: MachineState, operand: Byte, width: Word)
    requires
        s.regs.len() == 8,
        operand < 64,
        keeps_pc_forward(operand),
    ensures
        s.resolve(operand, width).1.pc() == wrap_add(s.pc(), 2 * extension_words(operand)),
        s.resolve(operand, width).1.regs.len() == 8,
        s.resolve(operand, width).0 is Register ==> s.resolve(operand, width).0 == Location::Register(
            (operand % 8) as Byte,
        ) && operand / 8 == 0,
{
}

proof fn lemma_store_keeps_pc(s: MachineState, loc: Location, w: Word)
    requires
        s.regs.len() == 8,
        loc != Location::Register(PROGRAM_COUNTER_INDEX),
        loc is Register ==> loc->Register_0 < 8,
    ensures
        s.store_word(loc, w).pc() == s.pc(),
        s.store_word(loc, w).regs.len() == 8,
{
}

proof fn lemma_store_byte_keeps_pc(s: MachineState, loc: Location, b: Byte)
    requires
        s.regs.len() == 8,
        loc != Location::Register(PROGRAM_COUNTER_INDEX),
        loc is Register ==> loc->Register_0 < 8,
    ensures
        s.store_byte(loc, b).pc() == s.pc(),
        s.store_byte(loc, b).regs.len() == 8,
{
}

/// Fetching the instruction word moves PC past it.
pub proof fn lemma_fetch_advances(s: MachineState)
    requires
        well_formed(s),
    ensures
        s.fetch().1.pc() == wrap_add(s.pc(), 2),
        well_formed(s.fetch().1),
{
}

/// PC after execution: a two-operand word instruction that neither writes PC nor steps it
/// back moves PC past the extension words of its two operands, and no further.
#[verifier::rlimit(40)]
pub proof fn lemma_pc_advances_by_width(s: MachineState, i: Instruction, w: Word)
    requires
        well_formed(s),
        i == Instruction::Mov || i == Instruction::Add || i == Instruction::Sub || i
            == Instruction::Cmp || i == Instruction::Bit || i == Instruction::Bic || i
            == Instruction::Bis,
        keeps_pc_forward(src_of(w)),
        keeps_pc_forward(dst_of(w)),
        not_pc_register(dst_of(w)),
    ensures
        s.execute(i, w).pc() == wrap_add(
            s.pc(),
            2 * extension_words(src_of(w)) + 2 * extension_words(dst_of(w)),
        ),
{
    let (sl, s2) = s.resolve(src_of(w), 2);
    lemma_resolve_pc(s, src_of(w), 2);
    let (dl, s3) = s2.resolve(dst_of(w), 2);
    lemma_resolve_pc(s2, dst_of(w), 2);
    let target = wrap_add(s.pc(), 2 * extension_words(src_of(w)) + 2 * extension_words(dst_of(w)));
    assert(s3.pc() == target);
    assert forall|v: Word| #[trigger] s3.store_word(dl, v).pc() == target by {
        lemma_store_keeps_pc(s3, dl, v);
    }
    if i == Instruction::Mov {
        assert(s.execute(i, w) == s.do_mov(w));
    } else if i == Instruction::Add {
        assert(s.execute(i, w) == s.do_add(w));
    } else if i == Instruction::Sub {
        assert(s.execute(i, w) == s.do_sub(w));
    } else if i == Instruction::Cmp {
        assert(s.execute(i, w) == s.do_cmp(w));
    } else if i == Instruction::Bit {
        assert(s.execute(i, w) == s.do_bit(w));
    } else if i == Instruction::Bic {
        assert(s.execute(i, w) == s.do_bic(w));
    } else {
        assert(s.execute(i, w) == s.do_bis(w));
    }
}

/// PC after execution: a one-operand word instruction whose operand is neither PC itself nor
/// steps it back moves PC past the extension word of its operand, if it has one, and no further.
#[verifier::rlimit(40)]
pub proof fn lemma_pc_advances_one_operand(s: MachineState, i: Instruction, w: Word)
    requires
        well_formed(s),
        i == Instruction::Clr || i == Instruction::Inc || i == Instruction::Dec || i
            == Instruction::Adc || i == Instruction::Sbc || i == Instruction::Tst || i
            == Instruction::Neg || i == Instruction::Com || i == Instruction::Ror || i
            == Instruction::Rol || i == Instruction::Asr || i == Instruction::Asl || i
            == Instruction::Swab || i == Instruction::Sxt,
        keeps_pc_forward(dst_of(w)),
        not_pc_register(dst_of(w)),
    ensures
        s.execute(i, w).pc() == wrap_add(s.pc(), 2 * extension_words(dst_of(w))),
{
    let (dl, s1) = s.resolve(dst_of(w), 2);
    lemma_resolve_pc(s, dst_of(w), 2);
    let target = wrap_add(s.pc(), 2 * extension_words(dst_of(w)));
    assert(s1.pc() == target);
    assert forall|v: Word| #[trigger] s1.store_word(dl, v).pc() == target by {
        lemma_store_keeps_pc(s1, dl, v);
    }
    if i == Instruction::Clr {
        assert(s.execute(i, w) == s.do_clr(w));
    } else if i == Instruction::Inc {
        assert(s.execute(i, w) == s.do_inc(w));
    } else if i == Instruction::Dec {
        assert(s.execute(i, w) == s.do_dec(w));
    } else if i == Instruction::Adc {
        assert(s.execute(i, w) == s.do_adc(w));
    } else if i == Instruction::Sbc {
        assert(s.execute(i, w) == s.do_sbc(w));
    } else if i == Instruction::Tst {
        assert(s.execute(i, w) == s.do_tst(w));
    } else if i == Instruction::Neg {
        assert(s.execute(i, w) == s.do_neg(w));
    } else if i == Instruction::Com {
        assert(s.execute(i, w) == s.do_com(w));
    } else if i == Instruction::Ror {
        assert(s.execute(i, w) == s.do_ror(w));
    } else if i == Instruction::Rol {
        assert(s.execute(i, w) == s.do_rol(w));
    } else if i == Instruction::Asr {
        assert(s.execute(i, w) == s.do_asr(w));
    } else if i == Instruction::Asl {
        assert(s.execute(i, w) == s.do_asl(w));
    } else if i == Instruction::Swab {
        assert(s.execute(i, w) == s.do_swab(w));
    } else {
        assert(s.execute(i, w) == s.do_sxt(w));
    }
}

/// PC after execution, byte forms: a byte instruction whose operands neither write PC nor
/// step it back moves PC past the extension words of its operands, and no further.
#[verifier::rlimit(60)]
pub proof fn lemma_pc_advances_bytes(s: MachineState, i: Instruction, w: Word)
    requires
        well_formed(s),
        i == Instruction::Movb || i == Instruction::Cmpb || i == Instruction::Bitb || i
            == Instruction::Bicb || i == Instruction::Bisb || i == Instruction::Clrb || i
            == Instruction::Incb || i == Instruction::Decb || i == Instruction::Adcb || i
            == Instruction::Sbcb || i == Instruction::Tstb || i == Instruction::Negb || i
            == Instruction::Comb || i == Instruction::Rorb || i == Instruction::Rolb || i
            == Instruction::Asrb || i == Instruction::Aslb,
        keeps_pc_forward(src_of(w)),
        keeps_pc_forward(dst_of(w)),
        not_pc_register(dst_of(w)),
    ensures
        s.execute(i, w).pc() == wrap_add(
            s.pc(),
            if i == Instruction::Movb || i == Instruction::Cmpb || i == Instruction::Bitb || i
                == Instruction::Bicb || i == Instruction::Bisb {
                2 * extension_words(src_of(w)) + 2 * extension_words(dst_of(w))
            } else {
                2 * extension_words(dst_of(w))
            },
        ),
{
    let (sl, s2) = s.resolve(src_of(w), 1);
    lemma_resolve_pc(s, src_of(w), 1);
    let (dl, s3) = s2.resolve(dst_of(w), 1);
    lemma_resolve_pc(s2, dst_of(w), 1);
    let two = wrap_add(s.pc(), 2 * extension_words(src_of(w)) + 2 * extension_words(dst_of(w)));
    assert(s3.pc() == two);
    assert forall|v: Byte| #[trigger] s3.store_byte(dl, v).pc() == two by {
        lemma_store_byte_keeps_pc(s3, dl, v);
    }
    let (ol, s1) = s.resolve(dst_of(w), 1);
    lemma_resolve_pc(s, dst_of(w), 1);
    let one = wrap_add(s.pc(), 2 * extension_words(dst_of(w)));
    assert(s1.pc() == one);
    assert forall|v: Byte| #[trigger] s1.store_byte(ol, v).pc() == one by {
        lemma_store_byte_keeps_pc(s1, ol, v);
    }
    if i == Instruction::Movb {
        assert(s.execute(i, w) == s.do_movb(w));
    } else if i == Instruction::Cmpb {
        assert(s.execute(i, w) == s.do_cmpb(w));
    } else if i == Instruction::Bitb {
        assert(s.execute(i, w) == s.do_bitb(w));
    } else if i == Instruction::Bicb {
        assert(s.execute(i, w) == s.do_bicb(w));
    } else if i == Instruction::Bisb {
        assert(s.execute(i, w) == s.do_bisb(w));
    } else if i == Instruction::Clrb {
        assert(s.execute(i, w) == s.do_clrb(w));
    } else if i == Instruction::Incb {
        assert(s.execute(i, w) == s.do_incb(w));
    } else if i == Instruction::Decb {
        assert(s.execute(i, w) == s.do_decb(w));
    } else if i == Instruction::Adcb {
        assert(s.execute(i, w) == s.do_adcb(w));
    } else if i == Instruction::Sbcb {
        assert(s.execute(i, w) == s.do_sbcb(w));
    } else if i == Instruction::Tstb {
        assert(s.execute(i, w) == s.do_tstb(w));
    } else if i == Instruction::Negb {
        assert(s.execute(i, w) == s.do_negb(w));
    } else if i == Instruction::Comb {
        assert(s.execute(i, w) == s.do_comb(w));
    } else if i == Instruction::Rorb {
        assert(s.execute(i, w) == s.do_rorb(w));
    } else if i == Instruction::Rolb {
        assert(s.execute(i, w) == s.do_rolb(w));
    } else if i == Instruction::Asrb {
        assert(s.execute(i, w) == s.do_asrb(w));
    } else {
        assert(s.execute(i, w) == s.do_aslb(w));
    }
}

/// PC after execution, register-and-operand instructions: XOR, MUL, DIV, ASH and ASHC whose
/// operand does not step PC back and whose register (and its pair) is not PC move PC past
/// the extension word of the operand, and no further.
#[verifier::rlimit(60)]
pub proof fn lemma_pc_advances_register_group(s: MachineState, i: Instruction, w: Word)
    requires
        well_formed(s),
        i == Instruction::Xor || i == Instruction::Mul || i == Instruction::Div || i
            == Instruction::Ash || i == Instruction::Ashc,
        keeps_pc_forward(dst_of(w)),
        i == Instruction::Xor ==> not_pc_register(dst_of(w)),
        reg_of(w) < 6,
    ensures
        s.execute(i, w).pc() == wrap_add(s.pc(), 2 * extension_words(dst_of(w))),
{
    let (dl, s1) = s.resolve(dst_of(w), 2);
    lemma_resolve_pc(s, dst_of(w), 2);
    let one = wrap_add(s.pc(), 2 * extension_words(dst_of(w)));
    assert(s1.pc() == one);
    if i == Instruction::Xor {
        assert forall|v: Word| #[trigger] s1.store_word(dl, v).pc() == one by {
            lemma_store_keeps_pc(s1, dl, v);
        }
        assert(s.execute(i, w) == s.do_xor(w));
    } else if i == Instruction::Mul {
        assert(s.execute(i, w) == s.do_mul(w));
    } else if i == Instruction::Div {
        assert(s.execute(i, w) == s.do_div(w));
    } else if i == Instruction::Ash {
        assert(s.execute(i, w) == s.do_ash(w));
    } else {
        assert(s.execute(i, w) == s.do_ashc(w));
    }
}

/// Pushing a word and popping it again gives the word back and restores SP.
pub proof fn lemma_push_pop(s: MachineState, v: Word)
    requires
        well_formed(s),
    ensures
        s.push(v).pop().0 == v,
        s.push(v).pop().1.sp() == s.sp(),
        s.push(v).pop().1.regs == s.regs,
{
    let sp = wrap_add(s.sp(), -2);
    let a = sp - sp % 2;
    lemma_halves(v);
    assert(put_word(s.mem, a, v)[a] == low_of(v));
    assert(put_word(s.mem, a, v)[a + 1] == high_of(v));
    assert(s.push(v).pop().1.regs =~= s.regs);
}

/// JSR Rn then RTS Rn: RTS gives Rn back its value from before JSR, restores SP, and
/// returns to the instruction after JSR, when the JSR operand steps no register but PC and
/// Rn is neither SP nor PC.
pub proof fn lemma_jsr_rts(s: MachineState, jsr: Word, rts: Word)
    requires
        well_formed(s),
        reg_of(jsr) < 6,
        low_reg_of(rts) == reg_of(jsr),
        dst_of(jsr) / 8 == 1 || dst_of(jsr) / 8 == 6 || dst_of(jsr) / 8 == 7,
    ensures
        s.do_jsr(jsr).do_rts(rts).reg(reg_of(jsr) as int) == s.reg(reg_of(jsr) as int),
        s.do_jsr(jsr).do_rts(rts).sp() == s.sp(),
        s.do_jsr(jsr).do_rts(rts).pc() == s.resolve(dst_of(jsr), 2).1.pc(),
{
    let n = reg_of(jsr) as int;
    let (loc, s1) = s.resolve(dst_of(jsr), 2);
    assert(s1.reg(n) == s.reg(n));
    assert(s1.sp() == s.sp());
    let v = s1.reg(n);
    let sp = wrap_add(s1.sp(), -2);
    let a = sp - sp % 2;
    lemma_halves(v);
    assert(put_word(s1.mem, a, v)[a] == low_of(v));
    assert(put_word(s1.mem, a, v)[a + 1] == high_of(v));
}

/// A word written at an even address reads back as its low byte there and its high byte
/// at the next address.
pub proof fn lemma_word_endian(m: Seq<Byte>, a: int, w: Word)
    requires
        m.len() == 0x10000,
        0 <= a < 0x10000,
        a % 2 == 0,
    ensures
        put_word(m, a, w)[a] == w.spec_low(),
        put_word(m, a, w)[a + 1] == w.spec_high(),
        word_at(put_word(m, a, w), a) == w,
{
    lemma_halves(w);
}

proof fn lemma_nzvc_idempotent(p: Word, n: bool, z: bool, v: bool, c: bool)
    ensures
        with_nzvc(with_nzvc(p, n, z, v, c), n, z, v, c) == with_nzvc(p, n, z, v, c),
{
    let nb: u16 = if n { 1 } else { 0 };
    let zb: u16 = if z { 1 } else { 0 };
    let vb: u16 = if v { 1 } else { 0 };
    let cb: u16 = if c { 1 } else { 0 };
    lemma_set_bits_idempotent(p, nb, zb, vb, cb);
}

/// The four condition-code bits `nb`, `zb`, `vb`, `cb` set into `p`.
spec fn set_four(p: u16, nb: u16, zb: u16, vb: u16, cb: u16) -> u16 {
    let p3 = if nb == 1 { p | 8 } else { p & !8u16 };
    let p2 = if zb == 1 { p3 | 4 } else { p3 & !4u16 };
    let p1 = if vb == 1 { p2 | 2 } else { p2 & !2u16 };
    if cb == 1 { p1 | 1 } else { p1 & !1u16 }
}

proof fn lemma_set_bits_idempotent(p: u16, nb: u16, zb: u16, vb: u16, cb: u16)
    requires
        nb <= 1,
        zb <= 1,
        vb <= 1,
        cb <= 1,
    ensures
        with_nzvc(with_nzvc(p, nb == 1, zb == 1, vb == 1, cb == 1), nb == 1, zb == 1, vb == 1, cb == 1)
            == with_nzvc(p, nb == 1, zb == 1, vb == 1, cb == 1),
{
    lemma_shift_constants();
    assert(set_four(set_four(p, nb, zb, vb, cb), nb, zb, vb, cb) == set_four(p, nb, zb, vb, cb))
        by (bit_vector)
        requires
            nb <= 1,
            zb <= 1,
            vb <= 1,
            cb <= 1,
    ;
}

proof fn lemma_shift_constants()
    by (bit_vector)
    ensures
        (1u16 << 3u8) == 8,
        (1u16 << 2u8) == 4,
        (1u16 << 1u8) == 2,
        (1u16 << 0u8) == 1,
{
}

proof fn lemma_psw_after_flags(s: MachineState, n: bool, z: bool, v: bool, c: bool)
    requires
        well_formed(s),
    ensures
        s.with_flags(n, z, v, c).psw() == with_nzvc(s.psw(), n, z, v, c),
        s.with_flags(n, z, v, c).regs == s.regs,
        well_formed(s.with_flags(n, z, v, c)),
{
    lemma_halves(with_nzvc(s.psw(), n, z, v, c));
}

/// Flag idempotence: executing CMP, BIT or TST with register operands a second time
/// leaves the status word as the first execution left it.
pub proof fn lemma_flags_idempotent(s: MachineState, i: Instruction, w: Word)
    requires
        well_formed(s),
        i == Instruction::Cmp || i == Instruction::Bit || i == Instruction::Tst,
        src_of(w) / 8 == 0,
        dst_of(w) / 8 == 0,
    ensures
        s.execute(i, w).execute(i, w).psw() == s.execute(i, w).psw(),
{
    let once = s.execute(i, w);
    if i == Instruction::Cmp {
        let a = s.reg((src_of(w) % 8) as int);
        let b = s.reg((dst_of(w) % 8) as int);
        let r = wrap_add(a, -b);
        let n = r.spec_is_negative();
        let z = r.spec_is_zero();
        let v = a.spec_is_negative() != b.spec_is_negative() && r.spec_is_negative()
            == b.spec_is_negative();
        let c = a < b;
        lemma_psw_after_flags(s, n, z, v, c);
        lemma_psw_after_flags(once, n, z, v, c);
        lemma_nzvc_idempotent(s.psw(), n, z, v, c);
    } else if i == Instruction::Bit {
        let r = s.reg((src_of(w) % 8) as int) & s.reg((dst_of(w) % 8) as int);
        let n = r.spec_is_negative();
        let z = r.spec_is_zero();
        let c = s.carry();
        lemma_psw_after_flags(s, n, z, false, c);
        lemma_psw_after_flags(once, n, z, false, c);
        lemma_nzvc_idempotent(s.psw(), n, z, false, c);
        assert(once.carry() == c) by {
            lemma_carry_kept(s.psw(), n, z, false, c);
        }
    } else {
        let r = s.reg((dst_of(w) % 8) as int);
        let n = r.spec_is_negative();
        let z = r.spec_is_zero();
        lemma_psw_after_flags(s, n, z, false, false);
        lemma_psw_after_flags(once, n, z, false, false);
        lemma_nzvc_idempotent(s.psw(), n, z, false, false);
    }
}

proof fn lemma_carry_kept(p: Word, n: bool, z: bool, v: bool, c: bool)
    ensures
        with_nzvc(p, n, z, v, c).spec_get_n_bit(0) == c,
{
    let nb: u16 = if n { 1 } else { 0 };
    let zb: u16 = if z { 1 } else { 0 };
    let vb: u16 = if v { 1 } else { 0 };
    let cb: u16 = if c { 1 } else { 0 };
    lemma_shift_constants();
    assert((set_four(p, nb, zb, vb, cb) >> 0u8) & 1 == cb) by (bit_vector)
        requires
            nb <= 1,
            zb <= 1,
            vb <= 1,
            cb <= 1,
    ;
}

} // verus!
