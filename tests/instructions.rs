use pdp11::cpu::commands::{command, Instruction};
use pdp11::cpu::state::FIRST_COMMAND;
use pdp11::cpu::CPU;
use pdp11::mem::Memory;

const C: u16 = 1 << 0;
const V: u16 = 1 << 1;
const Z: u16 = 1 << 2;
const N: u16 = 1 << 3;

fn load(memory: &mut Memory, at: usize, words: &[u16]) {
    let mut address = at;
    for w in words {
        address = memory.write_word(address, *w);
    }
}

/// Runs `words` from the reset address until HALT; the CPU, the memory and the status word.
fn exec(words: &[u16], setup: &[(usize, &[u16])]) -> (CPU, Memory, u16) {
    let mut memory = Memory::new();
    load(&mut memory, FIRST_COMMAND, words);
    for (at, ws) in setup {
        load(&mut memory, *at, ws);
    }
    let mut cpu = CPU::new();
    assert!(cpu.run(&mut memory, 10_000).is_ok());
    assert!(!cpu.running_flag());
    let psw = cpu.dump_state(&memory).status;
    (cpu, memory, psw)
}

fn flags(psw: u16) -> u16 {
    psw & (N | Z | V | C)
}

#[test]
fn inc_overflows_into_sign() {
    let (cpu, _, psw) = exec(&[0x15C0, 0x7FFF, 0x0A80, 0], &[]);
    assert_eq!(cpu.registers[0], 0x8000);
    assert_eq!(flags(psw), N | V);
}

#[test]
fn inc_wraps_with_carry() {
    let (cpu, _, psw) = exec(&[0x15C0, 0xFFFF, 0x0A80, 0], &[]);
    assert_eq!(cpu.registers[0], 0);
    assert_eq!(flags(psw), Z | C);
}

#[test]
fn dec_of_zero_borrows() {
    let (cpu, _, psw) = exec(&[0x15C0, 0, 0x0AC0, 0], &[]);
    assert_eq!(cpu.registers[0], 0xFFFF);
    assert_eq!(flags(psw), N | C);
}

#[test]
fn neg_of_one_and_of_most_negative() {
    let (cpu, _, psw) = exec(&[0x15C0, 1, 0x0B00, 0], &[]);
    assert_eq!(cpu.registers[0], 0xFFFF);
    assert_eq!(flags(psw), N | C);
    let (cpu, _, psw) = exec(&[0x15C0, 0x8000, 0x0B00, 0], &[]);
    assert_eq!(cpu.registers[0], 0x8000);
    assert_eq!(flags(psw), N | V | C);
}

#[test]
fn com_sets_carry() {
    let (cpu, _, psw) = exec(&[0x15C0, 0, 0x0A40, 0], &[]);
    assert_eq!(cpu.registers[0], 0xFFFF);
    assert_eq!(flags(psw), N | C);
}

#[test]
fn ror_through_carry() {
    // MOV #1, R0; CLC; ROR R0
    let (cpu, _, psw) = exec(&[0x15C0, 1, 0x00A1, 0x0C00, 0], &[]);
    assert_eq!(cpu.registers[0], 0);
    assert_eq!(flags(psw), Z | V | C);
}

#[test]
fn rol_through_carry() {
    // MOV #100000, R0; SEC; ROL R0
    let (cpu, _, psw) = exec(&[0x15C0, 0x8000, 0x00B1, 0x0C40, 0], &[]);
    assert_eq!(cpu.registers[0], 1);
    assert_eq!(flags(psw), V | C);
}

#[test]
fn asr_keeps_sign() {
    let (cpu, _, psw) = exec(&[0x15C0, 0x8001, 0x0C80, 0], &[]);
    assert_eq!(cpu.registers[0], 0xC000);
    assert_eq!(flags(psw), N | C);
}

#[test]
fn asl_into_sign() {
    let (cpu, _, psw) = exec(&[0x15C0, 0x4000, 0x0CC0, 0], &[]);
    assert_eq!(cpu.registers[0], 0x8000);
    assert_eq!(flags(psw), N | V);
}

#[test]
fn swab_swaps_bytes() {
    let (cpu, _, psw) = exec(&[0x15C0, 0x1234, 0x00C0, 0], &[]);
    assert_eq!(cpu.registers[0], 0x3412);
    assert_eq!(flags(psw), 0);
}

#[test]
fn sxt_fills_from_n() {
    // SEN; SXT R0
    let (cpu, _, psw) = exec(&[0x00B8, 0x0DC0, 0], &[]);
    assert_eq!(cpu.registers[0], 0xFFFF);
    assert_eq!(psw & Z, 0);
}

#[test]
fn mul_signed_product() {
    // MOV #-3, R0; MOV #5, R2; MUL R2, R0
    let (cpu, _, psw) = exec(&[0x15C0, 0xFFFD, 0x15C2, 5, 0x7002, 0], &[]);
    assert_eq!(cpu.registers[0], 0xFFFF);
    assert_eq!(cpu.registers[1], 0xFFF1);
    assert_eq!(flags(psw), N);
}

#[test]
fn mul_wide_product_sets_carry() {
    let (cpu, _, psw) = exec(&[0x15C0, 0x100, 0x15C2, 0x100, 0x7002, 0], &[]);
    assert_eq!(cpu.registers[0], 1);
    assert_eq!(cpu.registers[1], 0);
    assert_eq!(flags(psw), C);
}

#[test]
fn mul_into_odd_register_keeps_low_word() {
    // MOV #7, R1; MOV #6, R2; MUL R2, R1
    let (cpu, _, _) = exec(&[0x15C1, 7, 0x15C2, 6, 0x7042, 0], &[]);
    assert_eq!(cpu.registers[1], 42);
}

#[test]
fn div_quotient_and_remainder() {
    // MOV #0, R0; MOV #7, R1; MOV #2, R2; DIV R2, R0
    let (cpu, _, psw) = exec(&[0x15C0, 0, 0x15C1, 7, 0x15C2, 2, 0x7202, 0], &[]);
    assert_eq!(cpu.registers[0], 3);
    assert_eq!(cpu.registers[1], 1);
    assert_eq!(flags(psw), 0);
}

#[test]
fn div_rounds_toward_zero() {
    let (cpu, _, psw) = exec(&[0x15C0, 0xFFFF, 0x15C1, 0xFFF9, 0x15C2, 2, 0x7202, 0], &[]);
    assert_eq!(cpu.registers[0], 0xFFFD);
    assert_eq!(cpu.registers[1], 0xFFFF);
    assert_eq!(flags(psw), N);
}

#[test]
fn div_quotient_too_large_sets_overflow() {
    let (cpu, _, psw) = exec(&[0x15C0, 1, 0x15C1, 0, 0x15C2, 1, 0x7202, 0], &[]);
    assert_eq!(cpu.registers[0], 1);
    assert_eq!(cpu.registers[1], 0);
    assert_eq!(psw & (V | C), V);
}

#[test]
fn ash_left_and_right() {
    // MOV #1, R0; ASH #3, R0
    let (cpu, _, psw) = exec(&[0x15C0, 1, 0x7417, 3, 0], &[]);
    assert_eq!(cpu.registers[0], 8);
    assert_eq!(flags(psw), 0);
    // MOV #-16, R0; ASH #-2, R0
    let (cpu, _, psw) = exec(&[0x15C0, 0xFFF0, 0x7417, 0x003E, 0], &[]);
    assert_eq!(cpu.registers[0], 0xFFFC);
    assert_eq!(flags(psw), N);
    // MOV #3, R0; ASH #-1, R0
    let (cpu, _, psw) = exec(&[0x15C0, 3, 0x7417, 0x003F, 0], &[]);
    assert_eq!(cpu.registers[0], 1);
    assert_eq!(flags(psw), C);
}

#[test]
fn ash_sign_change_sets_overflow() {
    let (cpu, _, psw) = exec(&[0x15C0, 0x4000, 0x7417, 1, 0], &[]);
    assert_eq!(cpu.registers[0], 0x8000);
    assert_eq!(flags(psw), N | V);
}

#[test]
fn ash_by_zero_leaves_register() {
    let (cpu, _, psw) = exec(&[0x15C0, 0x8000, 0x00B3, 0x7417, 0x0040, 0], &[]);
    assert_eq!(cpu.registers[0], 0x8000);
    assert_eq!(flags(psw), N);
}

#[test]
fn ashc_shifts_the_register_pair() {
    // MOV #100000, R0; MOV #0, R1; ASHC #1, R0
    let (cpu, _, psw) = exec(&[0x15C0, 0x8000, 0x15C1, 0, 0x7617, 1, 0], &[]);
    assert_eq!(cpu.registers[0], 0);
    assert_eq!(cpu.registers[1], 1);
    assert_eq!(flags(psw), 0);
}

#[test]
fn xor_with_register() {
    let (cpu, _, _) = exec(&[0x15C1, 0x00FF, 0x15C0, 0x0F0F, 0x7840, 0], &[]);
    assert_eq!(cpu.registers[0], 0x0FF0);
}

#[test]
fn sob_loops() {
    // MOV #3, R0; MOV #0, R1; INC R1; SOB R0, back to INC
    let (cpu, _, _) = exec(&[0x15C0, 3, 0x15C1, 0, 0x0A81, 0x7E02, 0], &[]);
    assert_eq!(cpu.registers[0], 0);
    assert_eq!(cpu.registers[1], 3);
}

#[test]
fn cmp_sets_flags_of_source_minus_destination() {
    let (_, _, psw) = exec(&[0x15C0, 5, 0x25C0, 5, 0], &[]);
    assert_eq!(flags(psw), Z);
    let (cpu, _, psw) = exec(&[0x15C0, 5, 0x25C0, 3, 0], &[]);
    assert_eq!(cpu.registers[0], 5);
    assert_eq!(flags(psw), N | C);
}

#[test]
fn bic_bis_bit() {
    let (cpu, _, psw) = exec(&[0x15C0, 0x00FF, 0x45C0, 0x000F, 0x55C0, 0x0F00, 0x35C0, 0x8000, 0], &[]);
    assert_eq!(cpu.registers[0], 0x0FF0);
    assert_eq!(flags(psw), Z);
}

#[test]
fn movb_sign_extends_into_register() {
    let (cpu, _, psw) = exec(&[0x95C0, 0x0080, 0], &[]);
    assert_eq!(cpu.registers[0], 0xFF80);
    assert_eq!(flags(psw), N);
}

#[test]
fn movb_to_odd_address_keeps_other_half() {
    let (_, mut memory, _) = exec(&[0x95DF, 0x0012, 0x1001, 0], &[(0x1000, &[0x00AB])]);
    assert_eq!(memory.read_word(0x1000), 0x12AB);
}

#[test]
fn bcs_branches_on_carry_set() {
    // SEC; BCS +1 word; HALT; MOV #1, R0; HALT
    let (cpu, _, _) = exec(&[0x00B1, 0x8701, 0, 0x15C0, 1, 0], &[]);
    assert_eq!(cpu.registers[0], 1);
    // CLC; BCS +1 word; HALT
    let (cpu, _, _) = exec(&[0x00A1, 0x8701, 0, 0x15C0, 1, 0], &[]);
    assert_eq!(cpu.registers[0], 0);
}

#[test]
fn trap_and_rti() {
    // TRAP; HALT, with the handler MOV #167, R0; RTI at 0x300
    let (cpu, _, _) = exec(&[0x8900, 0], &[(0x001C, &[0x0300, 0]), (0x0300, &[0x15C0, 0x77, 0x0002])]);
    assert_eq!(cpu.registers[0], 0x77);
    assert_eq!(cpu.registers[6], 0x0200);
    assert_eq!(cpu.registers[7], 0x0204);
}

#[test]
fn emt_uses_its_own_vector() {
    let (cpu, _, _) = exec(&[0x8800, 0], &[(0x0018, &[0x0300, 0]), (0x0300, &[0x15C0, 0x66, 0x0002])]);
    assert_eq!(cpu.registers[0], 0x66);
}

#[test]
fn jmp_absolute() {
    let (cpu, _, _) = exec(&[0x005F, 0x0300, 0], &[(0x0300, &[0x15C0, 9, 0])]);
    assert_eq!(cpu.registers[0], 9);
}

#[test]
fn spl_sets_priority_bits() {
    // SPL 7; MOV @#177776, R0
    let (cpu, _, _) = exec(&[0x009F, 0x17C0, 0xFFFE, 0], &[]);
    assert_eq!(cpu.registers[0] & 0x00E0, 0x00E0);
}

#[test]
fn t_bit_traps_after_the_instruction() {
    // MOV #20, @#177776 sets T; the BPT handler at 0x300 halts.
    let (cpu, memory, _) = exec(&[0x15DF, 0x0010, 0xFFFE, 0x00A0, 0], &[(0x000C, &[0x0300, 0]), (0x0300, &[0])]);
    assert_eq!(cpu.registers[7], 0x0302);
    assert_eq!(cpu.registers[6], 0x01FC);
    assert_eq!(memory.peek_word(0x01FC), 0x0206);
    assert_eq!(memory.peek_word(0x01FE) & 0x0010, 0x0010);
}

#[test]
fn wait_then_interrupt() {
    let mut memory = Memory::new();
    load(&mut memory, FIRST_COMMAND, &[0x0001, 0]);
    load(&mut memory, 0x0030, &[0x0300, 0x00E0]);
    load(&mut memory, 0x0300, &[0]);
    let mut cpu = CPU::new();
    cpu.interruption_bus().interrupt(0x0030, 4);
    assert!(cpu.run(&mut memory, 100).is_ok());
    assert!(!cpu.running_flag());
    assert!(!cpu.waiting);
    assert_eq!(cpu.registers[7], 0x0302);
    assert_eq!(cpu.registers[6], 0x01FC);
}

#[test]
fn decoder_groups() {
    assert_eq!(command(0x6040).1, Instruction::Add);
    assert_eq!(command(0x00A0).1, Instruction::Nop);
    assert_eq!(command(0x00A1).1, Instruction::Cl);
    assert_eq!(command(0x00B4).1, Instruction::Se);
    assert_eq!(command(0x009D).1, Instruction::Spl);
    assert_eq!(command(0x0087).1, Instruction::Rts);
    assert_eq!(command(0x7A08).1, Instruction::Fsub);
    assert_eq!(command(0x0A80).1, Instruction::Inc);
    assert_eq!(command(0x8A80).1, Instruction::Incb);
    assert_eq!(command(0x7E05).1, Instruction::Sob);
    assert_eq!(command(0x09DF).1, Instruction::Jsr);
    assert_eq!(command(0x8905).1, Instruction::Trap);
    assert_eq!(command(0x8805).1, Instruction::Emt);
    assert_eq!(command(0x87FF).1, Instruction::Bcs);
    assert_eq!(command(0xFFFF).1, Instruction::Unknown);
    assert_eq!(command(0x6040).0, 0x6000);
}

#[test]
fn rtt_defers_the_t_bit_trap() {
    // Push PSW with T and PC 0x300, then RTT; at 0x300 MOV #1, R0; HALT. BPT handler at 0x400 halts.
    let program = [0x15E6, 0x0010, 0x15E6, 0x0300, 0x0006];
    let setup: [(usize, &[u16]); 3] = [(0x000C, &[0x0400, 0]), (0x0300, &[0x15C0, 1, 0]), (0x0400, &[0])];
    let (cpu, memory, _) = exec(&program, &setup);
    assert_eq!(cpu.registers[0], 1);
    assert_eq!(cpu.registers[7], 0x0402);
    assert_eq!(memory.peek_word(cpu.registers[6] as usize), 0x0304);
}

#[test]
fn rti_traps_on_t_bit_at_once() {
    let program = [0x15E6, 0x0010, 0x15E6, 0x0300, 0x0002];
    let setup: [(usize, &[u16]); 3] = [(0x000C, &[0x0400, 0]), (0x0300, &[0x15C0, 1, 0]), (0x0400, &[0])];
    let (cpu, memory, _) = exec(&program, &setup);
    assert_eq!(cpu.registers[0], 0);
    assert_eq!(cpu.registers[7], 0x0402);
    assert_eq!(memory.peek_word(cpu.registers[6] as usize), 0x0300);
}

#[test]
fn mark_unwinds_a_frame() {
    // MOV #0x300, R5; MARK 0; then the word 0x4321 that MARK pops into R5.
    let (cpu, _, _) = exec(&[0x15C5, 0x0300, 0x0D00, 0x4321], &[(0x0300, &[0])]);
    assert_eq!(cpu.registers[5], 0x4321);
    assert_eq!(cpu.registers[6], 0x0208);
    assert_eq!(cpu.registers[7], 0x0302);
}
