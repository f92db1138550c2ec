use vstd::prelude::*;

use crate::mem::Memory;
use crate::utils::Word;

use super::state::REG_COUNT;
use super::CPU;

verus! {

/// A snapshot of the CPU.
#[derive(Clone, Copy, Debug)]
pub struct CPUStateDump {
    pub status: Word,
    pub registers: [Word; REG_COUNT],
    pub running: bool,
    pub waiting: bool,
}

impl CPU {
    pub fn dump_state(&self, memory: &Memory) -> (r: CPUStateDump)
        requires
            memory.wf(),
        ensures
            r.status == self.state(*memory).psw(),
            r.registers == self.registers,
            r.running == self.running,
            r.waiting == self.waiting,
    {
        CPUStateDump {
            status: self.status_word(memory),
            registers: self.registers,
            running: self.running,
            waiting: self.waiting,
        }
    }
}

} // verus!
