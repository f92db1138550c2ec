use vstd::prelude::*;

use crate::cpu::state::{MachineState, FLAGS_IN_MEMORY};
use crate::cpu::{released, started, tick_spec, CpuFault, CPU};
use crate::mem::{put_word, word_at, Memory};
use crate::tty::{
    console_step, fresh, with_console_words, Dl11Tty, RDY_STATUS_BIT, RECEIVER_BUFFER_ADDRESS,
    RECEIVER_STATUS_ADDRESS, TRANSMITTER_BUFFER_ADDRESS, TRANSMITTER_STATUS_ADDRESS,
};
use crate::utils::{Byte, Number};

verus! {

/// How many CPU loop turns pass between two polls of the console.
pub const TTY_PERIOD: u64 = 64;

/// The machine: memory, the CPU and the console.
pub struct Pdp11 {
    pub memory: Memory,
    pub cpu: CPU,
    pub dl11tty: Dl11Tty,
}

impl Pdp11 {
    pub open spec fn wf(&self) -> bool {
        &&& self.memory.wf()
        &&& self.cpu.interruption_bus.wf()
    }

    pub fn new() -> (r: Self)
        ensures
            r.wf(),
            !r.cpu.running,
            !r.cpu.status_mapped,
            r.memory@ == Seq::new(0x10000, |a: int| 0u8),
            r.dl11tty.keys() == Seq::<Byte>::empty(),
    {
        Pdp11 { memory: Memory::new(), cpu: CPU::new(), dl11tty: Dl11Tty::new() }
    }

    /// Queues a keystroke for the console.
    pub fn push_key(&mut self, key: Byte)
        ensures
            final(self).dl11tty.keys() == old(self).dl11tty.keys().push(key),
            final(self).memory == old(self).memory,
            final(self).cpu == old(self).cpu,
    {
        self.dl11tty.push_key(key);
    }

    /// Binds the console registers with the transmitter ready, and starts the CPU.
    pub fn start(&mut self)
        requires
            old(self).wf(),
            !old(self).cpu.status_mapped,
        ensures
            start_turn(*old(self), *final(self)),
    {
        self.dl11tty.map_registers(&mut self.memory);
        self.dl11tty.set_printing(&mut self.memory, false);
        self.cpu.start(&mut self.memory);
    }

    /// One turn of the CPU loop.
    pub fn run_cpu(&mut self) -> (r: Result<(), CpuFault>)
        requires
            old(self).wf(),
        ensures
            cpu_turn(
                *old(self),
                *final(self),
                match r {
                    Ok(_) => None,
                    Err(e) => Some(e),
                },
            ),
    {
        self.cpu.tick(&mut self.memory)
    }

    /// One poll of the console; the byte for the host, if any, comes back.
    pub fn run_tty(&mut self) -> (r: Option<Byte>)
        requires
            old(self).wf(),
        ensures
            tty_turn(*old(self), *final(self), r),
    {
        self.dl11tty.tick(&mut self.memory, &mut self.cpu.interruption_bus)
    }

    /// Releases the console registers, and the status word if the CPU still holds it mapped.
    pub fn shut_down(&mut self)
        requires
            old(self).wf(),
        ensures
            shut_turn(*old(self), *final(self)),
    {
        if self.cpu.status_mapped {
            self.cpu.unmap_status_word(&mut self.memory);
        }
        self.dl11tty.unmap_registers(&mut self.memory);
    }

    /// Runs the machine until HALT, a fault, or `max_ticks` turns of the CPU loop, polling the
    /// console after every `TTY_PERIOD`-th turn and once more at the end, then releases the
    /// bound words. What the console sent to the host comes back, with the turns taken or
    /// the fault.
    pub fn run(&mut self, max_ticks: u64) -> (r: (Vec<Byte>, Result<u64, CpuFault>))
        requires
            old(self).wf(),
            !old(self).cpu.status_mapped,
        ensures
            final(self).wf(),
            !final(self).cpu.status_mapped,
            exists|t: RunTrace| #[trigger] runs(*old(self), max_ticks as int, t, *final(self), r.0@, r.1),
    {
        let mut output: Vec<Byte> = Vec::new();
        self.start();
        let ghost start = *self;
        let ghost mut cpu_states: Seq<Pdp11> = Seq::empty();
        let ghost mut iter_states: Seq<Pdp11> = Seq::empty();
        let ghost mut faults: Seq<Option<CpuFault>> = Seq::empty();
        let ghost mut outs: Seq<Option<Byte>> = Seq::empty();
        let mut ticks: u64 = 0;
        let mut fault: Option<CpuFault> = None;
        while self.cpu.running && ticks < max_ticks && fault.is_none()
            invariant
                self.wf(),
                self.cpu.status_mapped,
                ticks <= max_ticks,
                start_turn(*old(self), start),
                cpu_states.len() == ticks,
                iter_states.len() == ticks,
                faults.len() == ticks,
                outs.len() == ticks,
                *self == last_state(start, iter_states),
                fault == last_fault(faults),
                output@ == sent(outs),
                forall|k: int|
                    0 <= k < ticks ==> #[trigger] iteration_ok(
                        start,
                        cpu_states,
                        iter_states,
                        faults,
                        outs,
                        k,
                    ),
            decreases max_ticks - ticks,
        {
            let ghost before = *self;
            let r = self.run_cpu();
            let ghost after_cpu = *self;
            let ghost this_fault = match r {
                Ok(_) => None,
                Err(e) => Some(e),
            };
            ticks = ticks + 1;
            let mut out: Option<Byte> = None;
            if let Err(e) = r {
                fault = Some(e);
            } else if ticks % TTY_PERIOD == 0 {
                out = self.run_tty();
                if let Some(c) = out {
                    output.push(c);
                }
            }
            proof {
                let old_cpu = cpu_states;
                let old_iter = iter_states;
                let old_faults = faults;
                let old_outs = outs;
                cpu_states = cpu_states.push(after_cpu);
                iter_states = iter_states.push(*self);
                faults = faults.push(this_fault);
                outs = outs.push(out);
                assert(sent(outs) == sent(old_outs) + opt_seq(out)) by {
                    assert(outs.drop_last() =~= old_outs);
                }
                assert forall|k: int| 0 <= k < ticks implies #[trigger] iteration_ok(
                    start,
                    cpu_states,
                    iter_states,
                    faults,
                    outs,
                    k,
                ) by {
                    if k < ticks - 1 {
                        assert(iteration_ok(start, old_cpu, old_iter, old_faults, old_outs, k));
                    } else {
                        assert(before == last_state(start, old_iter));
                    }
                }
            }
        }
        let flush = self.run_tty();
        let ghost flushed = *self;
        if let Some(c) = flush {
            output.push(c);
        }
        self.shut_down();
        let result = match fault {
            Some(e) => Err(e),
            None => Ok(ticks),
        };
        let ghost t = RunTrace {
            start,
            after_cpu: cpu_states,
            after_turn: iter_states,
            faults,
            outs,
            flushed,
            flush_out: flush,
        };
        let r = (output, result);
        proof {
            let n = t.after_cpu.len() as int;
            let last = last_state(t.start, t.after_turn);
            assert(forall|k: int|
                0 <= k < n ==> #[trigger] iteration_ok(
                    t.start,
                    t.after_cpu,
                    t.after_turn,
                    t.faults,
                    t.outs,
                    k,
                ));
            assert(n == max_ticks || !last.cpu.running || last_fault(t.faults) is Some);
            assert(r.0@ == sent(t.outs) + opt_seq(t.flush_out));
        }
        assert(runs(*old(self), max_ticks as int, t, *self, r.0@, r.1));
        r
    }
}

/// The record of one run of the machine: the machine once started, after the CPU part of
/// each turn, and after each whole turn (a console poll follows every `TTY_PERIOD`-th CPU
/// turn); the fault of each turn and what each poll sent; the machine after the last poll,
/// and what that poll sent.
pub struct RunTrace {
    pub start: Pdp11,
    pub after_cpu: Seq<Pdp11>,
    pub after_turn: Seq<Pdp11>,
    pub faults: Seq<Option<CpuFault>>,
    pub outs: Seq<Option<Byte>>,
    pub flushed: Pdp11,
    pub flush_out: Option<Byte>,
}

/// `start` binds the console registers with XRDY set and the status word, and starts the CPU.
pub open spec fn start_turn(before: Pdp11, after: Pdp11) -> bool {
    let bound = with_console_words(before.memory@, before.dl11tty.registers());
    let ready = put_word(
        bound,
        TRANSMITTER_STATUS_ADDRESS as int,
        word_at(bound, TRANSMITTER_STATUS_ADDRESS as int).spec_set_n_bit(RDY_STATUS_BIT, true),
    );
    &&& after.wf()
    &&& after.cpu.status_mapped
    &&& after.memory.mapped_set() == before.memory.mapped_set().insert(
        RECEIVER_STATUS_ADDRESS as int,
    ).insert(RECEIVER_BUFFER_ADDRESS as int).insert(TRANSMITTER_STATUS_ADDRESS as int).insert(
        TRANSMITTER_BUFFER_ADDRESS as int,
    ).insert(FLAGS_IN_MEMORY as int)
    &&& after.cpu.state(after.memory) == started(
        MachineState { mem: ready, ..before.cpu.state(before.memory) },
    )
    &&& after.cpu.interruption_bus == before.cpu.interruption_bus
    &&& after.dl11tty == before.dl11tty
    &&& fresh(after.memory, RECEIVER_BUFFER_ADDRESS) == before.dl11tty.registers()[1].has_new_data
    &&& fresh(after.memory, TRANSMITTER_BUFFER_ADDRESS)
        == before.dl11tty.registers()[3].has_new_data
}

/// One turn of the CPU loop, as `tick_spec` gives it, with `fault` the fault it reports.
pub open spec fn cpu_turn(before: Pdp11, after: Pdp11, fault: Option<CpuFault>) -> bool {
    let (s1, q1, bad) = tick_spec(before.cpu.state(before.memory), before.cpu.interruption_bus@);
    &&& after.wf()
    &&& after.cpu.state(after.memory) == s1
    &&& after.cpu.interruption_bus@ == q1
    &&& fault == bad
    &&& after.cpu.status_mapped == before.cpu.status_mapped
    &&& after.memory.mapped_set() == before.memory.mapped_set()
    &&& after.dl11tty == before.dl11tty
}

/// One poll of the console, as `console_step` gives it, sending `out` to the host; the CPU's
/// registers and status are untouched.
pub open spec fn tty_turn(before: Pdp11, after: Pdp11, out: Option<Byte>) -> bool {
    let (o, m, keys, queues, buffer_fresh) = console_step(
        before.memory,
        before.dl11tty.keys(),
        before.cpu.interruption_bus@,
    );
    &&& after.wf()
    &&& out == o
    &&& after.memory@ == m
    &&& after.dl11tty.keys() == keys
    &&& after.cpu.interruption_bus@ == queues
    &&& fresh(after.memory, RECEIVER_BUFFER_ADDRESS) == buffer_fresh
    &&& !fresh(after.memory, TRANSMITTER_BUFFER_ADDRESS)
    &&& after.memory.mapped_set() == before.memory.mapped_set()
    &&& after.cpu.registers == before.cpu.registers
    &&& after.cpu.status == before.cpu.status
    &&& after.cpu.status_mapped == before.cpu.status_mapped
    &&& after.cpu.running == before.cpu.running
    &&& after.cpu.waiting == before.cpu.waiting
    &&& after.cpu.odd_access == before.cpu.odd_access
    &&& after.dl11tty.registers() == before.dl11tty.registers()
}

/// `shut_down` releases the console registers and, if the CPU holds it, the status word;
/// every address reads as before.
pub open spec fn shut_turn(before: Pdp11, after: Pdp11) -> bool {
    let kept = if before.cpu.status_mapped {
        before.memory.mapped_set().remove(FLAGS_IN_MEMORY as int)
    } else {
        before.memory.mapped_set()
    };
    &&& after.wf()
    &&& !after.cpu.status_mapped
    &&& after.memory@ == before.memory@
    &&& after.memory.mapped_set() == kept.remove(RECEIVER_STATUS_ADDRESS as int).remove(
        RECEIVER_BUFFER_ADDRESS as int,
    ).remove(TRANSMITTER_STATUS_ADDRESS as int).remove(TRANSMITTER_BUFFER_ADDRESS as int)
    &&& after.cpu.state(after.memory) == if before.cpu.status_mapped {
        released(before.cpu.state(before.memory))
    } else {
        before.cpu.state(before.memory)
    }
    &&& after.cpu.interruption_bus == before.cpu.interruption_bus
    &&& after.dl11tty.keys() == before.dl11tty.keys()
}

/// The bytes that the polls in `outs` sent, in order.
pub open spec fn sent(outs: Seq<Option<Byte>>) -> Seq<Byte>
    decreases outs.len(),
{
    if outs.len() == 0 {
        Seq::empty()
    } else {
        sent(outs.drop_last()) + opt_seq(outs.last())
    }
}

pub open spec fn opt_seq(o: Option<Byte>) -> Seq<Byte> {
    match o {
        Some(b) => seq![b],
        None => Seq::empty(),
    }
}

/// The machine after the last whole turn of `turns`, or `start` when there was none.
pub open spec fn last_state(start: Pdp11, turns: Seq<Pdp11>) -> Pdp11 {
    if turns.len() == 0 {
        start
    } else {
        turns.last()
    }
}

pub open spec fn last_fault(faults: Seq<Option<CpuFault>>) -> Option<CpuFault> {
    if faults.len() == 0 {
        None
    } else {
        faults.last()
    }
}

/// Turn `k` of a run: the CPU was running and no earlier turn faulted; the CPU turn, then a
/// console poll when the turn did not fault and its number is a multiple of `TTY_PERIOD`.
pub open spec fn iteration_ok(
    start: Pdp11,
    after_cpu: Seq<Pdp11>,
    after_turn: Seq<Pdp11>,
    faults: Seq<Option<CpuFault>>,
    outs: Seq<Option<Byte>>,
    k: int,
) -> bool {
    let before = if k == 0 {
        start
    } else {
        after_turn[k - 1]
    };
    &&& before.cpu.running
    &&& k > 0 ==> faults[k - 1] is None
    &&& cpu_turn(before, after_cpu[k], faults[k])
    &&& if faults[k] is None && (k + 1) % (TTY_PERIOD as int) == 0 {
        tty_turn(after_cpu[k], after_turn[k], outs[k])
    } else {
        after_turn[k] == after_cpu[k] && outs[k] is None
    }
}

/// `after` and `output` with `result` are what running `before` for at most `max_ticks` turns
/// gives, as the trace `t` records it.
pub open spec fn runs(
    before: Pdp11,
    max_ticks: int,
    t: RunTrace,
    after: Pdp11,
    output: Seq<Byte>,
    result: Result<u64, CpuFault>,
) -> bool {
    let n = t.after_cpu.len() as int;
    let last = last_state(t.start, t.after_turn);
    let fault = last_fault(t.faults);
    &&& start_turn(before, t.start)
    &&& t.after_turn.len() == n && t.faults.len() == n && t.outs.len() == n
    &&& n <= max_ticks
    &&& forall|k: int|
        0 <= k < n ==> #[trigger] iteration_ok(t.start, t.after_cpu, t.after_turn, t.faults, t.outs, k)
    &&& n == max_ticks || !last.cpu.running || fault is Some
    &&& tty_turn(last, t.flushed, t.flush_out)
    &&& shut_turn(t.flushed, after)
    &&& output == sent(t.outs) + opt_seq(t.flush_out)
    &&& result == match fault {
        Some(e) => Err(e),
        None => Ok(n as u64),
    }
}

} // verus!
