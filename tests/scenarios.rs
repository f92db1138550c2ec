use pdp11::assembly::Pdp11;
use pdp11::cpu::state::FIRST_COMMAND;
use pdp11::cpu::{CpuFault, CPU};
use pdp11::mem::Memory;

const C: u16 = 1 << 0;
const V: u16 = 1 << 1;
const Z: u16 = 1 << 2;
const N: u16 = 1 << 3;

fn load(memory: &mut Memory, at: usize, words: &[u16]) {
    let mut address = at;
    for w in words {
        address = memory.write_word(address, *w);
    }
}

fn run_program(words: &[u16]) -> (CPU, Memory) {
    let mut memory = Memory::new();
    load(&mut memory, FIRST_COMMAND, words);
    let mut cpu = CPU::new();
    let r = cpu.run(&mut memory, 10_000);
    assert!(r.is_ok());
    assert!(!cpu.running_flag());
    (cpu, memory)
}

fn mov_const(reg: u8) -> u16 {
    0x15C0 | (reg as u16)
}

fn make_two_cmd(opcode: u16, src: u8, dst: u8) -> u16 {
    opcode | ((src as u16) << 6) | dst as u16
}

#[test]
fn add_scenario() {
    let (cpu, memory) = run_program(&[0x15C0, 3, 0x15C1, 4, 0x6040, 0x0000]);
    let dump = cpu.dump_state(&memory);
    assert_eq!(dump.registers[0], 7);
    assert_eq!(dump.status & (N | Z | V | C), 0);
}

#[test]
fn sub_underflow_scenario() {
    let (cpu, memory) = run_program(&[0x15C0, 1, 0x15C1, 2, 0xE040, 0x0000]);
    let dump = cpu.dump_state(&memory);
    assert_eq!(dump.registers[0], 0xFFFF);
    assert_eq!(dump.status & N, N);
    assert_eq!(dump.status & Z, 0);
    assert_eq!(dump.status & C, C);
    assert_eq!(dump.status & V, 0);
}

#[test]
fn branch_taken_scenario() {
    let (cpu, _) = run_program(&[0x15C0, 0, 0x0BC0, 0x0301, 0x0000, 0x15C0, 1, 0x0000]);
    assert_eq!(cpu.registers[0], 1);
}

#[test]
fn jsr_rts_scenario() {
    let mut memory = Memory::new();
    load(&mut memory, 0x0200, &[0x15C0, 0, 0x09DF, 0x0300, 0x0000]);
    load(&mut memory, 0x0300, &[0x15C0, 0x55, 0x0087]);
    let mut cpu = CPU::new();
    assert!(cpu.run(&mut memory, 1000).is_ok());
    assert_eq!(cpu.registers[0], 0x55);
    assert_eq!(cpu.registers[6], 0x0200);
}

#[test]
fn divide_by_zero_scenario() {
    let (cpu, memory) = run_program(&[0x15C0, 10, 0x15C1, 0, 0x7201, 0x0000]);
    let dump = cpu.dump_state(&memory);
    assert_eq!(dump.registers[0], 10);
    assert_eq!(dump.status & C, C);
    assert_eq!(dump.status & V, V);
}

#[test]
fn console_echo_scenario() {
    let mut pdp = Pdp11::new();
    load(
        &mut pdp.memory,
        0x0200,
        &[
            0x15DF, 0x0040, 0xFF70, // MOV #100, @#RCSR: receiver interrupts on
            0x8BDF, 0xFF70, // TSTB @#RCSR
            0x80FD, // BPL back to the TSTB
            0x97C0, 0xFF72, // MOVB @#RBUF, R0
            0x901F, 0xFF76, // MOVB R0, @#XBUF
            0xA017, 0x000A, // CMPB R0, #12
            0x02F6, // BNE back to the TSTB
            0x0000, // HALT
        ],
    );
    load(&mut pdp.memory, 0x0030, &[0x0300, 0x00E0]);
    load(&mut pdp.memory, 0x0300, &[0x0002]);
    pdp.push_key(b'A');
    pdp.push_key(b'\n');
    let (output, r) = pdp.run(100_000);
    assert!(r.is_ok());
    assert!(!pdp.cpu.running_flag());
    assert_eq!(output, b"A\n".to_vec());
}

#[test]
fn test_mov_add() {
    let (a, b) = (3u16, 3u16);
    let (cpu, _) = run_program(&[mov_const(0), a, mov_const(1), b, make_two_cmd(0x6000, 1, 0)]);
    assert_eq!(cpu.registers[0], a + b);
}

#[test]
fn test_mov_sub() {
    let (a, b) = (3u16, 3u16);
    let (cpu, _) = run_program(&[mov_const(0), a, mov_const(1), b, make_two_cmd(0xE000, 1, 0)]);
    assert_eq!(cpu.registers[0], a - b);
}

#[test]
fn unknown_opcode_faults() {
    let mut memory = Memory::new();
    load(&mut memory, FIRST_COMMAND, &[0x0007]);
    let mut cpu = CPU::new();
    assert_eq!(cpu.run(&mut memory, 10), Err(CpuFault::UnknownOpcode(0x0007)));
}

#[test]
fn jump_to_register_faults() {
    let mut memory = Memory::new();
    load(&mut memory, FIRST_COMMAND, &[0x0040]);
    let mut cpu = CPU::new();
    assert_eq!(cpu.run(&mut memory, 10), Err(CpuFault::IllegalInstruction(0x0040)));
}

#[test]
fn floating_point_faults() {
    let mut memory = Memory::new();
    load(&mut memory, FIRST_COMMAND, &[0x7A01]);
    let mut cpu = CPU::new();
    assert_eq!(cpu.run(&mut memory, 10), Err(CpuFault::FloatingPoint(0x7A01)));
}

#[test]
fn budget_exhausted_keeps_running() {
    let mut memory = Memory::new();
    // BR to itself
    load(&mut memory, FIRST_COMMAND, &[0x01FF]);
    let mut cpu = CPU::new();
    assert_eq!(cpu.run(&mut memory, 50), Ok(50));
    assert!(cpu.running_flag());
}

#[test]
fn psw_mirrored_in_memory_while_running() {
    // SEC, MOV @#177776, R0, HALT
    let (cpu, memory) = run_program(&[0x00B1, 0x17C0, 0xFFFE, 0x0000]);
    assert_eq!(cpu.registers[0] & C, C);
    assert_eq!(memory.peek_word(0xFFFE) & C, C);
}

#[test]
fn odd_word_address_faults() {
    let mut memory = Memory::new();
    // MOV @#1001, R0
    load(&mut memory, FIRST_COMMAND, &[0x17C0, 0x1001, 0x0000]);
    let mut cpu = CPU::new();
    assert_eq!(cpu.run(&mut memory, 10), Err(CpuFault::OddAddress(0x17C0)));
}

#[test]
fn odd_stack_pointer_faults() {
    let mut memory = Memory::new();
    // MOV #777, SP; MOV R0, -(SP)
    load(&mut memory, FIRST_COMMAND, &[0x15C6, 0x01FF, 0x1026, 0x0000]);
    let mut cpu = CPU::new();
    assert_eq!(cpu.run(&mut memory, 10), Err(CpuFault::OddAddress(0x1026)));
}

#[test]
fn byte_access_at_odd_address_is_fine() {
    // MOVB @#1001, R0
    let (cpu, _) = {
        let mut memory = Memory::new();
        load(&mut memory, FIRST_COMMAND, &[0x97C0, 0x1001, 0x0000]);
        load(&mut memory, 0x1000, &[0x4200]);
        let mut cpu = CPU::new();
        assert!(cpu.run(&mut memory, 10).is_ok());
        (cpu, memory)
    };
    assert_eq!(cpu.registers[0], 0x0042);
}

#[test]
fn start_and_shut_down_keep_what_addresses_read() {
    let mut pdp = Pdp11::new();
    pdp.start();
    assert!(pdp.cpu.running_flag());
    assert_eq!(pdp.cpu.registers[7], 0x0200);
    assert_eq!(pdp.memory.peek_word(0xFF74) & 0x80, 0x80);
    pdp.shut_down();
    assert!(!pdp.cpu.status_mapped);
    assert_eq!(pdp.memory.peek_word(0xFF74) & 0x80, 0x80);
}
