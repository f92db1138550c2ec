use vstd::prelude::*;

use crate::mem::{put_word, MappedCell, Memory, SimpleMappedMemoryWord};
use crate::utils::{Address, Byte, Number, Word};

use self::addressing::{add_wrapping, read_memory_word};
use self::commands::{command, decode, dst_operand, reg_operand, Command, Instruction};
use self::interruptions::{deliver, pending_level_of, InterruptionBus};
use self::semantics::{executable, is_trap, BPT_VECTOR};
use self::state::{
    priority_of, MachineState, CARRY_FLAG_INDEX, FIRST_COMMAND, FLAGS_IN_MEMORY,
    NEGATIVE_FLAG_INDEX, OVERFLOW_FLAG_INDEX, PRIORITY_HIGH_BIT_INDEX, PRIORITY_LOW_BIT_INDEX,
    PRIORITY_MIDDLE_BIT_INDEX, PROGRAM_COUNTER_INDEX, REG_COUNT, STACK_POINTER_INDEX, STACK_START,
    TRAP_FLAG_INDEX, ZERO_FLAG_INDEX,
};

pub mod addressing;
pub mod commands;
pub mod debug;
pub mod interpreter;
pub mod interruptions;
pub mod laws;
pub mod semantics;
pub mod state;

verus! {

/// The processor: eight registers, the status word, and its run state.
pub struct CPU {
    /// The status word while it is not mapped into memory.
    pub status: SimpleMappedMemoryWord,
    /// Whether the status word lives at `FLAGS_IN_MEMORY`.
    pub status_mapped: bool,
    pub registers: [Word; REG_COUNT],
    pub running: bool,
    pub waiting: bool,
    /// Whether the instruction under way made a word access at an odd address.
    pub odd_access: bool,
    pub interruption_bus: InterruptionBus,
}

/// `after` is `before` with the same words bound, still well formed.
pub open spec fn memory_kept(after: Memory, before: Memory) -> bool {
    &&& after.wf()
    &&& after.mapped_set() == before.mapped_set()
}

impl CPU {
    /// The machine that this CPU and `memory` make up.
    pub open spec fn state(&self, memory: Memory) -> MachineState {
        MachineState {
            regs: self.registers@,
            mem: memory@,
            status: self.status.word,
            psw_mapped: self.status_mapped,
            running: self.running,
            waiting: self.waiting,
            odd_access: self.odd_access,
        }
    }

    /// This CPU with `memory` became `after` with `after_memory`, which make up `next`;
    /// the interrupt bus and the bound words are untouched.
    pub open spec fn performs(
        &self,
        memory: Memory,
        after: CPU,
        after_memory: Memory,
        next: MachineState,
    ) -> bool {
        &&& memory_kept(after_memory, memory)
        &&& after.state(after_memory) == next
        &&& after.interruption_bus == self.interruption_bus
        &&& after.status_mapped == self.status_mapped
    }

    /// Every field but the registers is the same in `self` and `other`.
    pub open spec fn same_but_registers(&self, other: &CPU) -> bool {
        &&& self.status == other.status
        &&& self.status_mapped == other.status_mapped
        &&& self.running == other.running
        &&& self.waiting == other.waiting
        &&& self.odd_access == other.odd_access
        &&& self.interruption_bus == other.interruption_bus
    }

    pub fn new() -> (r: Self)
        ensures
            r.registers@ == seq![0u16, 0, 0, 0, 0, 0, 0, 0],
            r.status.word == 0,
            !r.status_mapped,
            !r.running,
            !r.waiting,
            !r.odd_access,
            r.interruption_bus.wf(),
            forall|l: int| #[trigger] r.interruption_bus.queue(l) == Seq::<usize>::empty(),
    {
        let r = CPU {
            status: SimpleMappedMemoryWord::new(),
            status_mapped: false,
            registers: [0, 0, 0, 0, 0, 0, 0, 0],
            running: false,
            waiting: false,
            odd_access: false,
            interruption_bus: InterruptionBus::new(),
        };
        assert(r.registers@ =~= seq![0u16, 0, 0, 0, 0, 0, 0, 0]);
        r
    }

    pub fn running_flag(&self) -> (r: bool)
        ensures
            r == self.running,
    {
        self.running
    }

    /// The bus on which devices raise interrupt requests.
    pub fn interruption_bus(&mut self) -> (r: &mut InterruptionBus)
        ensures
            *r == old(self).interruption_bus,
            final(self).interruption_bus == *final(r),
            final(self).registers == old(self).registers,
            final(self).status == old(self).status,
            final(self).status_mapped == old(self).status_mapped,
            final(self).running == old(self).running,
            final(self).waiting == old(self).waiting,
            final(self).odd_access == old(self).odd_access,
    {
        &mut self.interruption_bus
    }
}

// Registers
impl CPU {
    pub fn get_word_from_reg(&self, reg_index: Byte) -> (r: Word)
        requires
            reg_index < 8,
        ensures
            r == self.registers@[reg_index as int],
    {
        self.registers[reg_index as usize]
    }

    pub fn get_byte_from_reg(&self, reg_index: Byte) -> (r: Byte)
        requires
            reg_index < 8,
        ensures
            r == self.registers@[reg_index as int].spec_low(),
    {
        self.get_word_from_reg(reg_index).low()
    }

    pub fn set_word_reg(&mut self, reg_index: Byte, value: Word)
        requires
            reg_index < 8,
        ensures
            final(self).registers@ == old(self).registers@.update(reg_index as int, value),
            final(self).same_but_registers(old(self)),
    {
        self.registers[reg_index as usize] = value;
    }

    /// Stores a byte in a register, sign-extended to the whole word.
    pub fn set_byte_reg(&mut self, reg_index: Byte, value: Byte)
        requires
            reg_index < 8,
        ensures
            final(self).registers@ == old(self).registers@.update(
                reg_index as int,
                value.spec_register(),
            ),
            final(self).same_but_registers(old(self)),
    {
        self.registers[reg_index as usize] = value.register();
    }
}

// Status word
impl CPU {
    pub fn status_word(&self, memory: &Memory) -> (r: Word)
        requires
            memory.wf(),
        ensures
            r == self.state(*memory).psw(),
    {
        if self.status_mapped {
            memory.peek_word(FLAGS_IN_MEMORY)
        } else {
            self.status.word
        }
    }

    pub fn set_status_word(&mut self, memory: &mut Memory, new_psw: Word)
        requires
            old(memory).wf(),
        ensures
            old(self).performs(
                *old(memory),
                *final(self),
                *final(memory),
                old(self).state(*old(memory)).with_psw(new_psw),
            ),
    {
        if self.status_mapped {
            memory.write_word(FLAGS_IN_MEMORY, new_psw);
        } else {
            self.status.word = new_psw;
        }
    }

    pub fn get_flag(&self, memory: &Memory, n: Byte) -> (r: bool)
        requires
            memory.wf(),
            n < 16,
        ensures
            r == self.state(*memory).flag(n),
    {
        self.status_word(memory).get_n_bit(n)
    }

    pub fn set_flag(&mut self, memory: &mut Memory, n: Byte, value: bool)
        requires
            old(memory).wf(),
            n < 16,
        ensures
            old(self).performs(
                *old(memory),
                *final(self),
                *final(memory),
                old(self).state(*old(memory)).with_psw(
                    old(self).state(*old(memory)).psw().spec_set_n_bit(n, value),
                ),
            ),
    {
        let status_flags = self.status_word(memory);
        self.set_status_word(memory, status_flags.set_n_bit(n, value));
    }

    pub fn carry_flag(&self, memory: &Memory) -> (r: bool)
        requires
            memory.wf(),
        ensures
            r == self.state(*memory).carry(),
    {
        self.get_flag(memory, CARRY_FLAG_INDEX)
    }

    pub fn overflow_flag(&self, memory: &Memory) -> (r: bool)
        requires
            memory.wf(),
        ensures
            r == self.state(*memory).overflow(),
    {
        self.get_flag(memory, OVERFLOW_FLAG_INDEX)
    }

    pub fn zero_flag(&self, memory: &Memory) -> (r: bool)
        requires
            memory.wf(),
        ensures
            r == self.state(*memory).zero(),
    {
        self.get_flag(memory, ZERO_FLAG_INDEX)
    }

    pub fn negative_flag(&self, memory: &Memory) -> (r: bool)
        requires
            memory.wf(),
        ensures
            r == self.state(*memory).negative(),
    {
        self.get_flag(memory, NEGATIVE_FLAG_INDEX)
    }

    pub fn trap_flag(&self, memory: &Memory) -> (r: bool)
        requires
            memory.wf(),
        ensures
            r == self.state(*memory).flag(TRAP_FLAG_INDEX),
    {
        self.get_flag(memory, TRAP_FLAG_INDEX)
    }

    /// The processor priority, bits 5 to 7 of the status word.
    pub fn current_priority(&self, memory: &Memory) -> (r: Byte)
        requires
            memory.wf(),
        ensures
            r == priority_of(self.state(*memory).psw()),
            r <= 7,
    {
        let psw = self.status_word(memory);
        let low = psw.get_n_bit(PRIORITY_LOW_BIT_INDEX);
        let middle = psw.get_n_bit(PRIORITY_MIDDLE_BIT_INDEX);
        let high = psw.get_n_bit(PRIORITY_HIGH_BIT_INDEX);
        let r = 0x00u8.set_n_bit(0, low).set_n_bit(1, middle).set_n_bit(2, high);
        proof {
            lemma_three_bits(low, middle, high);
        }
        r
    }

    /// Sets the processor priority to the low three bits of `priority`.
    pub fn update_priority(&mut self, memory: &mut Memory, priority: Byte)
        requires
            old(memory).wf(),
        ensures
            old(self).performs(
                *old(memory),
                *final(self),
                *final(memory),
                old(self).state(*old(memory)).with_psw(
                    old(self).state(*old(memory)).psw().spec_set_n_bit(
                        PRIORITY_LOW_BIT_INDEX,
                        priority.spec_get_n_bit(0),
                    ).spec_set_n_bit(PRIORITY_MIDDLE_BIT_INDEX, priority.spec_get_n_bit(1)).spec_set_n_bit(
                        PRIORITY_HIGH_BIT_INDEX,
                        priority.spec_get_n_bit(2),
                    ),
                ),
            ),
    {
        let psw = self.status_word(memory);
        let new_psw = psw.set_n_bit(PRIORITY_LOW_BIT_INDEX, priority.get_n_bit(0)).set_n_bit(
            PRIORITY_MIDDLE_BIT_INDEX,
            priority.get_n_bit(1),
        ).set_n_bit(PRIORITY_HIGH_BIT_INDEX, priority.get_n_bit(2));
        self.set_status_word(memory, new_psw);
    }

    /// Sets the four condition codes.
    pub fn update_flags(&mut self, memory: &mut Memory, n: bool, z: bool, v: bool, c: bool)
        requires
            old(memory).wf(),
        ensures
            old(self).performs(
                *old(memory),
                *final(self),
                *final(memory),
                old(self).state(*old(memory)).with_flags(n, z, v, c),
            ),
    {
        let psw = self.status_word(memory);
        let new_psw = psw.set_n_bit(NEGATIVE_FLAG_INDEX, n).set_n_bit(ZERO_FLAG_INDEX, z).set_n_bit(
            OVERFLOW_FLAG_INDEX,
            v,
        ).set_n_bit(CARRY_FLAG_INDEX, c);
        self.set_status_word(memory, new_psw);
    }

    /// Sets N and Z from `result`, and V and C as given.
    pub fn update_status_flags<T, N: Number<T>>(
        &mut self,
        memory: &mut Memory,
        result: N,
        carry_bit: bool,
        overflow_bit: bool,
    )
        requires
            old(memory).wf(),
        ensures
            old(self).performs(
                *old(memory),
                *final(self),
                *final(memory),
                old(self).state(*old(memory)).with_flags(
                    result.spec_is_negative(),
                    result.spec_is_zero(),
                    overflow_bit,
                    carry_bit,
                ),
            ),
    {
        self.update_flags(memory, result.is_negative(), result.is_zero(), overflow_bit, carry_bit);
    }

    /// Sets N and Z from `result`, clears V and keeps C.
    pub fn update_status_flags_bitwise<T, N: Number<T>>(&mut self, memory: &mut Memory, result: N)
        requires
            old(memory).wf(),
        ensures
            old(self).performs(
                *old(memory),
                *final(self),
                *final(memory),
                old(self).state(*old(memory)).with_flags(
                    result.spec_is_negative(),
                    result.spec_is_zero(),
                    false,
                    old(self).state(*old(memory)).carry(),
                ),
            ),
    {
        let carry = self.carry_flag(memory);
        self.update_status_flags(memory, result, carry, false);
    }
}

/// Why the CPU could not carry out an instruction word.
#[derive(Clone, Copy, Debug, PartialEq, Eq, Structural)]
pub enum CpuFault {
    /// No opcode group holds the word.
    UnknownOpcode(Word),
    /// JMP or JSR to a register, or DIV or ASHC on an odd register.
    IllegalInstruction(Word),
    /// A floating-point instruction, which this processor model does not carry out.
    FloatingPoint(Word),
    /// The instruction made a word access at an odd address.
    OddAddress(Word),
}

/// The fault that an instruction word that cannot be executed raises.
pub open spec fn fault_of(i: Instruction, w: Word) -> CpuFault {
    match i {
        Instruction::Unknown => CpuFault::UnknownOpcode(w),
        Instruction::Fadd | Instruction::Fsub | Instruction::Fmul | Instruction::Fdiv => CpuFault::FloatingPoint(w),
        _ => CpuFault::IllegalInstruction(w),
    }
}

/// One turn of the CPU loop on `s` with the pending requests `queues`: the instruction unless
/// the CPU waits, then the oldest request of the highest level above the processor priority.
/// The machine, the queues, and the fault, if any.
#[verifier::opaque]
pub open spec fn tick_spec(s: MachineState, queues: Seq<Seq<Address>>) -> (
    MachineState,
    Seq<Seq<Address>>,
    Option<CpuFault>,
) {
    let (s1, bad) = if s.waiting {
        (s, None)
    } else {
        s.step()
    };
    if bad is Some {
        (s1, queues, bad)
    } else {
        let level = pending_level_of(queues, priority_of(s1.psw()) as int);
        if level == 0 {
            (s1, queues, None)
        } else {
            (
                s1.with_waiting(false).trap(queues[level - 4][0] as Word),
                deliver(queues, level),
                None,
            )
        }
    }
}

/// Up to `n` turns of the CPU loop, stopping after HALT or a fault: the machine, the queues,
/// the fault if there was one, and the number of turns taken.
pub open spec fn run_spec(s: MachineState, queues: Seq<Seq<Address>>, n: nat) -> (
    MachineState,
    Seq<Seq<Address>>,
    Option<CpuFault>,
    nat,
)
    decreases n,
{
    if n == 0 || !s.running {
        (s, queues, None, 0)
    } else {
        let (s1, q1, bad) = tick_spec(s, queues);
        if bad is Some {
            (s1, q1, bad, 1)
        } else {
            let (s2, q2, bad2, k) = run_spec(s1, q1, (n - 1) as nat);
            (s2, q2, bad2, k + 1)
        }
    }
}

/// The machine once started: PC and SP at their reset values, the status word mapped at
/// `FLAGS_IN_MEMORY`, running.
pub open spec fn started(s: MachineState) -> MachineState {
    MachineState {
        regs: s.regs.update(PROGRAM_COUNTER_INDEX as int, FIRST_COMMAND as Word).update(
            STACK_POINTER_INDEX as int,
            STACK_START as Word,
        ),
        mem: put_word(s.mem, FLAGS_IN_MEMORY as int, s.psw()),
        psw_mapped: true,
        running: true,
        ..s
    }
}

/// The machine once the status word is released back to the CPU.
pub open spec fn released(s: MachineState) -> MachineState {
    MachineState { psw_mapped: false, status: s.psw(), ..s }
}

fn can_execute(i: Instruction, w: Word) -> (r: bool)
    ensures
        r == executable(i, w),
{
    match i {
        Instruction::Jmp | Instruction::Jsr => dst_operand(w) / 8 != 0,
        Instruction::Div | Instruction::Ashc => reg_operand(w) % 2 == 0,
        Instruction::Fadd | Instruction::Fsub | Instruction::Fmul | Instruction::Fdiv
        | Instruction::Unknown => false,
        _ => true,
    }
}

fn is_trap_instruction(i: Instruction) -> (r: bool)
    ensures
        r == is_trap(i),
{
    match i {
        Instruction::Bpt | Instruction::Iot | Instruction::Trap | Instruction::Emt => true,
        _ => false,
    }
}

fn fault(i: Instruction, w: Word) -> (r: CpuFault)
    ensures
        r == fault_of(i, w),
{
    match i {
        Instruction::Unknown => CpuFault::UnknownOpcode(w),
        Instruction::Fadd | Instruction::Fsub | Instruction::Fmul | Instruction::Fdiv => CpuFault::FloatingPoint(w),
        _ => CpuFault::IllegalInstruction(w),
    }
}

// Execution
impl CPU {
    /// Carries out the decoded instruction `instruction` of the word `command_word`.
    pub fn execute(&mut self, memory: &mut Memory, instruction: Instruction, command_word: Word)
        requires
            old(memory).wf(),
            executable(instruction, command_word),
        ensures
            old(self).performs(
                *old(memory),
                *final(self),
                *final(memory),
                old(self).state(*old(memory)).execute(instruction, command_word),
            ),
    {
        match instruction {
            Instruction::Halt => self.do_halt(memory, command_word),
            Instruction::Wait => self.do_wait(memory, command_word),
            Instruction::Reset => self.do_nop(memory, command_word),
            Instruction::Nop => self.do_nop(memory, command_word),
            Instruction::Rti => self.do_rti(memory, command_word),
            Instruction::Bpt => self.do_bpt(memory, command_word),
            Instruction::Iot => self.do_iot(memory, command_word),
            Instruction::Rtt => self.do_rtt(memory, command_word),
            Instruction::Spl => self.do_spl(memory, command_word),
            Instruction::Rts => self.do_rts(memory, command_word),
            Instruction::Se => self.do_se(memory, command_word),
            Instruction::Cl => self.do_cl(memory, command_word),
            Instruction::Jmp => self.do_jmp(memory, command_word),
            Instruction::Clr => self.do_clr(memory, command_word),
            Instruction::Clrb => self.do_clrb(memory, command_word),
            Instruction::Inc => self.do_inc(memory, command_word),
            Instruction::Incb => self.do_incb(memory, command_word),
            Instruction::Dec => self.do_dec(memory, command_word),
            Instruction::Decb => self.do_decb(memory, command_word),
            Instruction::Adc => self.do_adc(memory, command_word),
            Instruction::Adcb => self.do_adcb(memory, command_word),
            Instruction::Sbc => self.do_sdc(memory, command_word),
            Instruction::Sbcb => self.do_sdcb(memory, command_word),
            Instruction::Tst => self.do_tst(memory, command_word),
            Instruction::Tstb => self.do_tstb(memory, command_word),
            Instruction::Neg => self.do_neg(memory, command_word),
            Instruction::Negb => self.do_negb(memory, command_word),
            Instruction::Com => self.do_com(memory, command_word),
            Instruction::Comb => self.do_comb(memory, command_word),
            Instruction::Ror => self.do_ror(memory, command_word),
            Instruction::Rorb => self.do_rorb(memory, command_word),
            Instruction::Rol => self.do_rol(memory, command_word),
            Instruction::Rolb => self.do_rolb(memory, command_word),
            Instruction::Asr => self.do_asr(memory, command_word),
            Instruction::Asrb => self.do_asrb(memory, command_word),
            Instruction::Asl => self.do_asl(memory, command_word),
            Instruction::Aslb => self.do_aslb(memory, command_word),
            Instruction::Swab => self.do_swab(memory, command_word),
            Instruction::Sxt => self.do_sxt(memory, command_word),
            Instruction::Mark => self.do_mark(memory, command_word),
            Instruction::Mul => self.do_mul(memory, command_word),
            Instruction::Div => self.do_div(memory, command_word),
            Instruction::Ash => self.do_ash(memory, command_word),
            Instruction::Ashc => self.do_ashc(memory, command_word),
            Instruction::Xor => self.do_xor(memory, command_word),
            Instruction::Sob => self.do_sob(memory, command_word),
            Instruction::Jsr => self.do_jsr(memory, command_word),
            Instruction::Mov => self.do_mov(memory, command_word),
            Instruction::Movb => self.do_movb(memory, command_word),
            Instruction::Cmp => self.do_cmp(memory, command_word),
            Instruction::Cmpb => self.do_cmpb(memory, command_word),
            Instruction::Bit => self.do_bit(memory, command_word),
            Instruction::Bitb => self.do_bitb(memory, command_word),
            Instruction::Bic => self.do_bic(memory, command_word),
            Instruction::Bicb => self.do_bicb(memory, command_word),
            Instruction::Bis => self.do_bis(memory, command_word),
            Instruction::Bisb => self.do_bisb(memory, command_word),
            Instruction::Add => self.do_add(memory, command_word),
            Instruction::Sub => self.do_sub(memory, command_word),
            Instruction::Br => self.do_br(memory, command_word),
            Instruction::Bne => self.do_bne(memory, command_word),
            Instruction::Beq => self.do_beq(memory, command_word),
            Instruction::Bge => self.do_bge(memory, command_word),
            Instruction::Blt => self.do_blt(memory, command_word),
            Instruction::Bgt => self.do_bgt(memory, command_word),
            Instruction::Ble => self.do_ble(memory, command_word),
            Instruction::Bpl => self.do_bpl(memory, command_word),
            Instruction::Bmi => self.do_bmi(memory, command_word),
            Instruction::Bhi => self.do_bhi(memory, command_word),
            Instruction::Blos => self.do_blos(memory, command_word),
            Instruction::Bvc => self.do_bvc(memory, command_word),
            Instruction::Bvs => self.do_bvs(memory, command_word),
            Instruction::Bcc => self.do_bcc(memory, command_word),
            Instruction::Bcs => self.do_bcs(memory, command_word),
            Instruction::Trap => self.do_trap(memory, command_word),
            Instruction::Emt => self.do_emt(memory, command_word),
            _ => {},
        }
    }

    /// Reads the word at PC and moves PC past it.
    pub fn next_command(&mut self, memory: &mut Memory) -> (r: (Address, Word))
        requires
            old(memory).wf(),
        ensures
            r.0 == old(self).registers@[PROGRAM_COUNTER_INDEX as int],
            r.1 == old(self).state(*old(memory)).fetch().0,
            old(self).performs(
                *old(memory),
                *final(self),
                *final(memory),
                old(self).state(*old(memory)).fetch().1,
            ),
    {
        let address = self.registers[PROGRAM_COUNTER_INDEX as usize];
        self.registers[PROGRAM_COUNTER_INDEX as usize] = add_wrapping(address, 2);
        let command = self.read_word_at(memory, address);
        (address as Address, command)
    }

    /// Fetches, decodes and executes one instruction, then takes the T-bit trap when due.
    pub fn step(&mut self, memory: &mut Memory) -> (r: Result<(), CpuFault>)
        requires
            old(memory).wf(),
        ensures
            ({
                let (next, bad) = old(self).state(*old(memory)).step();
                &&& old(self).performs(*old(memory), *final(self), *final(memory), next)
                &&& bad is None ==> r is Ok
                &&& bad is Some ==> r == Err::<(), CpuFault>(bad->Some_0)
            }),
    {
        self.odd_access = false;
        let (address, command_word) = self.next_command(memory);
        if self.odd_access {
            return Err(CpuFault::OddAddress(command_word));
        }
        let Command(opcode, instruction) = command(command_word);
        if !can_execute(instruction, command_word) {
            return Err(fault(instruction, command_word));
        }
        self.execute(memory, instruction, command_word);
        if !is_trap_instruction(instruction) && instruction != Instruction::Rtt && self.trap_flag(memory) {
            self.perform_trap(memory, BPT_VECTOR as Address);
        }
        if self.odd_access {
            return Err(CpuFault::OddAddress(command_word));
        }
        Ok(())
    }

    /// Accepts the oldest request of the highest bus level above the processor priority, if any.
    pub fn process_interruption_if_needed(&mut self, memory: &mut Memory)
        requires
            old(memory).wf(),
            old(self).interruption_bus.wf(),
        ensures
            memory_kept(*final(memory), *old(memory)),
            final(self).interruption_bus.wf(),
            final(self).status_mapped == old(self).status_mapped,
            ({
                let s = old(self).state(*old(memory));
                let bus = old(self).interruption_bus;
                let level = bus.pending_level(priority_of(s.psw()) as int);
                &&& level == 0 ==> final(self).state(*final(memory)) == s && final(self).interruption_bus == bus
                &&& level != 0 ==> final(self).state(*final(memory)) == s.with_waiting(false).trap(
                    bus.queue(level)[0] as Word,
                ) && final(self).interruption_bus@ == deliver(bus@, level)
            }),
    {
        let priority = self.current_priority(memory);
        if let Some(interruption_address) = self.interruption_bus.next_interruption_if_any(priority) {
            self.waiting = false;
            self.perform_trap(memory, interruption_address);
        }
    }

    /// One turn of the CPU loop: an instruction unless the CPU waits, then interrupt acceptance.
    pub fn tick(&mut self, memory: &mut Memory) -> (r: Result<(), CpuFault>)
        requires
            old(memory).wf(),
            old(self).interruption_bus.wf(),
        ensures
            memory_kept(*final(memory), *old(memory)),
            final(self).interruption_bus.wf(),
            final(self).status_mapped == old(self).status_mapped,
            ({
                let (s1, q1, bad) = tick_spec(
                    old(self).state(*old(memory)),
                    old(self).interruption_bus@,
                );
                &&& final(self).state(*final(memory)) == s1
                &&& final(self).interruption_bus@ == q1
                &&& bad is None ==> r is Ok
                &&& bad is Some ==> r == Err::<(), CpuFault>(bad->Some_0)
            }),
    {
        proof {
            reveal(tick_spec);
        }
        if !self.waiting {
            let r = self.step(memory);
            if r.is_err() {
                return r;
            }
        }
        self.process_interruption_if_needed(memory);
        Ok(())
    }

    /// Binds the status word at `FLAGS_IN_MEMORY`.
    pub fn map_status_word(&mut self, memory: &mut Memory)
        requires
            old(memory).wf(),
            !old(self).status_mapped,
        ensures
            final(memory).wf(),
            final(memory).mapped_set() == old(memory).mapped_set().insert(FLAGS_IN_MEMORY as int),
            final(self).state(*final(memory)) == (MachineState {
                mem: put_word(old(memory)@, FLAGS_IN_MEMORY as int, old(self).status.word),
                psw_mapped: true,
                ..old(self).state(*old(memory))
            }),
            final(self).interruption_bus == old(self).interruption_bus,
            forall|a: int| #![trigger final(memory).cell(a)]
                0 <= a < FLAGS_IN_MEMORY ==> final(memory).cell(a) == old(memory).cell(a),
    {
        memory.map_word(FLAGS_IN_MEMORY, MappedCell::Simple(self.status));
        self.status_mapped = true;
    }

    /// Releases the status word: the CPU holds it again, and memory keeps its last value.
    pub fn unmap_status_word(&mut self, memory: &mut Memory)
        requires
            old(memory).wf(),
            old(self).status_mapped,
        ensures
            final(memory).wf(),
            final(memory).mapped_set() == old(memory).mapped_set().remove(FLAGS_IN_MEMORY as int),
            final(self).state(*final(memory)) == (MachineState {
                psw_mapped: false,
                status: old(self).state(*old(memory)).psw(),
                ..old(self).state(*old(memory))
            }),
            final(self).interruption_bus == old(self).interruption_bus,
    {
        let psw = memory.peek_word(FLAGS_IN_MEMORY);
        memory.unmap_word(FLAGS_IN_MEMORY);
        self.status.word = psw;
        self.status_mapped = false;
    }

    /// Resets PC and SP and maps the status word: the CPU is then running.
    pub fn start(&mut self, memory: &mut Memory)
        requires
            old(memory).wf(),
            !old(self).status_mapped,
        ensures
            final(memory).wf(),
            final(memory).mapped_set() == old(memory).mapped_set().insert(FLAGS_IN_MEMORY as int),
            final(self).status_mapped,
            final(self).state(*final(memory)) == started(old(self).state(*old(memory))),
            final(self).interruption_bus == old(self).interruption_bus,
            forall|a: int| #![trigger final(memory).cell(a)]
                0 <= a < FLAGS_IN_MEMORY ==> final(memory).cell(a) == old(memory).cell(a),
    {
        self.map_status_word(memory);
        self.running = true;
        self.set_word_reg(PROGRAM_COUNTER_INDEX, FIRST_COMMAND as Word);
        self.set_word_reg(STACK_POINTER_INDEX, STACK_START as Word);
    }

    /// Starts the CPU and runs it until HALT, a fault, or `max_ticks` turns of its loop;
    /// after HALT the status word is released back to the CPU. The number of turns taken
    /// comes back, or the fault.
    pub fn run(&mut self, memory: &mut Memory, max_ticks: u64) -> (r: Result<u64, CpuFault>)
        requires
            old(memory).wf(),
            !old(self).status_mapped,
            old(self).interruption_bus.wf(),
        ensures
            final(memory).wf(),
            final(self).interruption_bus.wf(),
            !final(self).running ==> !final(self).status_mapped,
            final(self).running ==> final(self).status_mapped,
            ({
                let (s_end, q_end, bad, n) = run_spec(
                    started(old(self).state(*old(memory))),
                    old(self).interruption_bus@,
                    max_ticks as nat,
                );
                &&& bad is None ==> r == Ok::<u64, CpuFault>(n as u64)
                &&& bad is Some ==> r == Err::<u64, CpuFault>(bad->Some_0)
                &&& final(self).state(*final(memory)) == if s_end.running {
                    s_end
                } else {
                    released(s_end)
                }
                &&& final(self).interruption_bus@ == q_end
            }),
    {
        self.start(memory);
        let ghost s0 = self.state(*memory);
        let ghost q0 = self.interruption_bus@;
        let mut ticks: u64 = 0;
        while self.running && ticks < max_ticks
            invariant
                memory.wf(),
                self.interruption_bus.wf(),
                self.status_mapped,
                ticks <= max_ticks,
                s0 == started(old(self).state(*old(memory))),
                q0 == old(self).interruption_bus@,
                ({
                    let (s_end, q_end, bad, n) = run_spec(
                        self.state(*memory),
                        self.interruption_bus@,
                        (max_ticks - ticks) as nat,
                    );
                    run_spec(s0, q0, max_ticks as nat) == (s_end, q_end, bad, (n + ticks) as nat)
                }),
            decreases max_ticks - ticks,
        {
            let ghost before = self.state(*memory);
            let ghost queues_before = self.interruption_bus@;
            let r = self.tick(memory);
            ticks = ticks + 1;
            if let Err(e) = r {
                assert(run_spec(before, queues_before, (max_ticks - ticks + 1) as nat) == (
                    self.state(*memory),
                    self.interruption_bus@,
                    tick_spec(before, queues_before).2,
                    1nat,
                ));
                if !self.running {
                    self.unmap_status_word(memory);
                }
                return Err(e);
            }
        }
        if !self.running {
            self.unmap_status_word(memory);
        }
        Ok(ticks)
    }
}

proof fn lemma_set_bit_below(x: u8, n: u8)
    by (bit_vector)
    requires
        n < 7,
        x < (1u8 << n),
    ensures
        (x | (1u8 << n)) < (1u8 << ((n + 1) as u8)),
        (x & !(1u8 << n)) < (1u8 << ((n + 1) as u8)),
{
}

proof fn lemma_small_powers()
    by (bit_vector)
    ensures
        (1u8 << 0u8) == 1,
        (1u8 << 1u8) == 2,
        (1u8 << 2u8) == 4,
        (1u8 << 3u8) == 8,
{
}

proof fn lemma_three_bits(low: bool, middle: bool, high: bool)
    ensures
        (0u8).spec_set_n_bit(0, low).spec_set_n_bit(1, middle).spec_set_n_bit(2, high) <= 7,
{
    lemma_small_powers();
    let x1 = (0u8).spec_set_n_bit(0, low);
    lemma_set_bit_below(0u8, 0u8);
    let x2 = x1.spec_set_n_bit(1, middle);
    lemma_set_bit_below(x1, 1u8);
    lemma_set_bit_below(x2, 2u8);
}

} // verus!
