use vstd::prelude::*;

use crate::cpu::interruptions::InterruptionBus;
use crate::mem::{lemma_memory_len, put_word, word_at, MappedCell, MappedMemoryWord, Memory, SimpleMappedMemoryWord};
use crate::utils::blocking_queue::BlockingQueue;
use crate::utils::{word, Address, Byte, Number, Word};

verus! {

pub const RECEIVER_STATUS_ADDRESS: Address = 0xFF70;

pub const RECEIVER_BUFFER_ADDRESS: Address = 0xFF72;

pub const TRANSMITTER_STATUS_ADDRESS: Address = 0xFF74;

pub const TRANSMITTER_BUFFER_ADDRESS: Address = 0xFF76;

/// RDY in the receiver status, XRDY in the transmitter status.
pub const RDY_STATUS_BIT: Byte = 0x07;

/// RIE in the receiver status, TIE in the transmitter status.
pub const INT_STATUS_BIT: Byte = 0x06;

pub const INT_PRIORITY: Byte = 0x04;

pub const RECEIVER_INT: Address = 0x0030;

pub const TRANSMITTER_INT: Address = 0x0034;

/// A console register: a word that remembers whether it was written since it was last read.
#[derive(Clone, Copy, Debug)]
pub struct TtyMappedMemoryWord {
    pub has_new_data: bool,
    pub word: SimpleMappedMemoryWord,
}

impl TtyMappedMemoryWord {
    pub fn new() -> (r: Self)
        ensures
            r.word.word == 0,
            !r.has_new_data,
    {
        TtyMappedMemoryWord { has_new_data: false, word: SimpleMappedMemoryWord::new() }
    }

    pub fn has_new_data(&self) -> (r: bool)
        ensures
            r == self.has_new_data,
    {
        self.has_new_data
    }
}

impl MappedMemoryWord for TtyMappedMemoryWord {
    open spec fn value(&self) -> Word {
        self.word.word
    }

    fn read_word(&mut self) -> (r: Word)
        ensures
            !final(self).has_new_data,
    {
        let r = self.word.word;
        assert(r == self.value());
        self.has_new_data = false;
        assert(r == self.value());
        r
    }

    fn write_word(&mut self, word: Word)
        ensures
            final(self).has_new_data,
    {
        self.word.word = word;
        self.has_new_data = true;
    }

    fn read_byte(&mut self, high: bool) -> (r: Byte)
        ensures
            !final(self).has_new_data,
    {
        let w = self.read_word();
        if high {
            w.high()
        } else {
            w.low()
        }
    }

    fn write_byte(&mut self, byte: Byte, high: bool)
        ensures
            final(self).has_new_data,
    {
        let w = self.read_word();
        let new_word = if high {
            word(w.low(), byte)
        } else {
            word(byte, w.high())
        };
        self.write_word(new_word);
    }
}

/// Whether the word bound at `address` was written since it was last read.
pub open spec fn fresh(memory: Memory, address: Address) -> bool {
    memory.cell(address as int) is Some && memory.cell(address as int)->Some_0.spec_has_new_data()
}

/// The DL11 console: four registers bound into memory, and the keystrokes not yet received.
pub struct Dl11Tty {
    receiver_queue: BlockingQueue<Byte>,
    receiver_status: TtyMappedMemoryWord,
    receiver_buffer: TtyMappedMemoryWord,
    transmitter_status: TtyMappedMemoryWord,
    transmitter_buffer: TtyMappedMemoryWord,
}

impl Dl11Tty {
    /// The keystrokes waiting to be received, oldest first.
    pub closed spec fn keys(&self) -> Seq<Byte> {
        self.receiver_queue@
    }

    /// The four registers as the console holds them while they are not bound:
    /// receiver status and buffer, transmitter status and buffer.
    pub closed spec fn registers(&self) -> Seq<TtyMappedMemoryWord> {
        seq![
            self.receiver_status,
            self.receiver_buffer,
            self.transmitter_status,
            self.transmitter_buffer,
        ]
    }

    pub fn new() -> (r: Self)
        ensures
            r.keys() == Seq::<Byte>::empty(),
    {
        Dl11Tty {
            receiver_queue: BlockingQueue::new(),
            receiver_status: TtyMappedMemoryWord::new(),
            receiver_buffer: TtyMappedMemoryWord::new(),
            transmitter_status: TtyMappedMemoryWord::new(),
            transmitter_buffer: TtyMappedMemoryWord::new(),
        }
    }

    /// Queues a keystroke from the host.
    pub fn push_key(&mut self, key: Byte)
        ensures
            final(self).keys() == old(self).keys().push(key),
    {
        self.receiver_queue.push(key);
    }

    /// Binds the four registers into memory.
    pub fn map_registers(&mut self, memory: &mut Memory)
        requires
            old(memory).wf(),
        ensures
            final(memory).wf(),
            final(self).keys() == old(self).keys(),
            final(memory).mapped_set() == old(memory).mapped_set().insert(
                RECEIVER_STATUS_ADDRESS as int,
            ).insert(RECEIVER_BUFFER_ADDRESS as int).insert(TRANSMITTER_STATUS_ADDRESS as int).insert(
                TRANSMITTER_BUFFER_ADDRESS as int,
            ),
            final(memory).cell(RECEIVER_STATUS_ADDRESS as int) == Some(
                MappedCell::Tty(old(self).registers()[0]),
            ),
            final(memory).cell(RECEIVER_BUFFER_ADDRESS as int) == Some(
                MappedCell::Tty(old(self).registers()[1]),
            ),
            final(memory).cell(TRANSMITTER_STATUS_ADDRESS as int) == Some(
                MappedCell::Tty(old(self).registers()[2]),
            ),
            final(memory).cell(TRANSMITTER_BUFFER_ADDRESS as int) == Some(
                MappedCell::Tty(old(self).registers()[3]),
            ),
            final(memory)@ == with_console_words(old(memory)@, old(self).registers()),
            *final(self) == *old(self),
            forall|a: int| #![trigger final(memory).cell(a)]
                0 <= a < RECEIVER_STATUS_ADDRESS ==> final(memory).cell(a) == old(memory).cell(a),
    {
        memory.map_word(RECEIVER_STATUS_ADDRESS, MappedCell::Tty(self.receiver_status));
        memory.map_word(RECEIVER_BUFFER_ADDRESS, MappedCell::Tty(self.receiver_buffer));
        memory.map_word(TRANSMITTER_STATUS_ADDRESS, MappedCell::Tty(self.transmitter_status));
        memory.map_word(TRANSMITTER_BUFFER_ADDRESS, MappedCell::Tty(self.transmitter_buffer));
    }

    /// Releases the four registers: memory keeps their last words, and so does the console.
    pub fn unmap_registers(&mut self, memory: &mut Memory)
        requires
            old(memory).wf(),
        ensures
            final(memory).wf(),
            final(memory)@ == old(memory)@,
            final(self).keys() == old(self).keys(),
            final(self).registers()[0].word.word == word_at(old(memory)@, RECEIVER_STATUS_ADDRESS as int),
            final(self).registers()[1].word.word == word_at(old(memory)@, RECEIVER_BUFFER_ADDRESS as int),
            final(self).registers()[2].word.word == word_at(old(memory)@, TRANSMITTER_STATUS_ADDRESS as int),
            final(self).registers()[3].word.word == word_at(old(memory)@, TRANSMITTER_BUFFER_ADDRESS as int),
            forall|i: int| 0 <= i < 4 ==> #[trigger] final(self).registers()[i].has_new_data
                == old(self).registers()[i].has_new_data,
            final(memory).mapped_set() == old(memory).mapped_set().remove(
                RECEIVER_STATUS_ADDRESS as int,
            ).remove(RECEIVER_BUFFER_ADDRESS as int).remove(TRANSMITTER_STATUS_ADDRESS as int).remove(
                TRANSMITTER_BUFFER_ADDRESS as int,
            ),
    {
        self.receiver_status.word.word = memory.peek_word(RECEIVER_STATUS_ADDRESS);
        self.receiver_buffer.word.word = memory.peek_word(RECEIVER_BUFFER_ADDRESS);
        self.transmitter_status.word.word = memory.peek_word(TRANSMITTER_STATUS_ADDRESS);
        self.transmitter_buffer.word.word = memory.peek_word(TRANSMITTER_BUFFER_ADDRESS);
        memory.unmap_word(RECEIVER_STATUS_ADDRESS);
        memory.unmap_word(RECEIVER_BUFFER_ADDRESS);
        memory.unmap_word(TRANSMITTER_STATUS_ADDRESS);
        memory.unmap_word(TRANSMITTER_BUFFER_ADDRESS);
    }

    /// Sets XRDY while the transmitter is idle, clears it while it prints.
    pub fn set_printing(&mut self, memory: &mut Memory, printing: bool)
        requires
            old(memory).wf(),
        ensures
            final(memory).wf(),
            final(memory).mapped_set() == old(memory).mapped_set(),
            final(memory)@ == put_word(
                old(memory)@,
                TRANSMITTER_STATUS_ADDRESS as int,
                word_at(old(memory)@, TRANSMITTER_STATUS_ADDRESS as int).spec_set_n_bit(
                    RDY_STATUS_BIT,
                    !printing,
                ),
            ),
            forall|a: int| #![trigger final(memory).cell(a)]
                0 <= a < 0x10000 && a / 2 != TRANSMITTER_STATUS_ADDRESS / 2 ==> final(memory).cell(a)
                    == old(memory).cell(a),
            *final(self) == *old(self),
    {
        let current = memory.read_word(TRANSMITTER_STATUS_ADDRESS);
        memory.write_word(TRANSMITTER_STATUS_ADDRESS, current.set_n_bit(RDY_STATUS_BIT, !printing));
    }

    /// Sets or clears RDY in the receiver status.
    pub fn set_received(&mut self, memory: &mut Memory, received: bool)
        requires
            old(memory).wf(),
        ensures
            final(memory).wf(),
            final(memory).mapped_set() == old(memory).mapped_set(),
            final(memory)@ == put_word(
                old(memory)@,
                RECEIVER_STATUS_ADDRESS as int,
                word_at(old(memory)@, RECEIVER_STATUS_ADDRESS as int).spec_set_n_bit(
                    RDY_STATUS_BIT,
                    received,
                ),
            ),
            forall|a: int| #![trigger final(memory).cell(a)]
                0 <= a < 0x10000 && a / 2 != RECEIVER_STATUS_ADDRESS / 2 ==> final(memory).cell(a)
                    == old(memory).cell(a),
            *final(self) == *old(self),
    {
        let current = memory.read_word(RECEIVER_STATUS_ADDRESS);
        memory.write_word(RECEIVER_STATUS_ADDRESS, current.set_n_bit(RDY_STATUS_BIT, received));
    }

    /// Whether the program has written the transmitter buffer since it was last sent.
    pub fn is_empty_transmitter(&self, memory: &Memory) -> (r: bool)
        requires
            memory.wf(),
        ensures
            r == !fresh(*memory, TRANSMITTER_BUFFER_ADDRESS),
    {
        !memory.has_new_data(TRANSMITTER_BUFFER_ADDRESS)
    }

    /// Raises the transmitter interrupt when TIE is set.
    pub fn notify_ready_to_print(&self, memory: &Memory, interruption_bus: &mut InterruptionBus)
        requires
            memory.wf(),
            old(interruption_bus).wf(),
        ensures
            final(interruption_bus).wf(),
            final(interruption_bus)@ == raise_if(
                old(interruption_bus)@,
                word_at(memory@, TRANSMITTER_STATUS_ADDRESS as int).spec_get_n_bit(INT_STATUS_BIT),
                TRANSMITTER_INT,
            ),
    {
        if memory.peek_word(TRANSMITTER_STATUS_ADDRESS).get_n_bit(INT_STATUS_BIT) {
            interruption_bus.interrupt(TRANSMITTER_INT, INT_PRIORITY);
        }
    }

    /// Sends the byte that the program wrote to the transmitter buffer, if it wrote one:
    /// the byte for the host comes back.
    pub fn try_print(&mut self, memory: &mut Memory, interruption_bus: &mut InterruptionBus) -> (r:
        Option<Byte>)
        requires
            old(memory).wf(),
            old(interruption_bus).wf(),
        ensures
            final(memory).wf(),
            final(interruption_bus).wf(),
            final(memory).mapped_set() == old(memory).mapped_set(),
            *final(self) == *old(self),
            ({
                let sent = fresh(*old(memory), TRANSMITTER_BUFFER_ADDRESS);
                &&& r == if sent {
                    Some(old(memory)@[TRANSMITTER_BUFFER_ADDRESS as int])
                } else {
                    None
                }
                &&& final(memory)@ == after_print(old(memory)@, sent)
                &&& final(interruption_bus)@ == raise_if(
                    old(interruption_bus)@,
                    print_announces(old(memory)@, sent),
                    TRANSMITTER_INT,
                )
            }),
            !fresh(*final(memory), TRANSMITTER_BUFFER_ADDRESS),
            forall|a: int| #![trigger final(memory).cell(a)]
                0 <= a < 0x10000 && a / 2 != TRANSMITTER_STATUS_ADDRESS / 2 && a / 2
                    != TRANSMITTER_BUFFER_ADDRESS / 2 ==> final(memory).cell(a) == old(memory).cell(a),
    {
        if self.is_empty_transmitter(memory) {
            return None;
        }
        self.set_printing(memory, true);
        let c = memory.read_byte(TRANSMITTER_BUFFER_ADDRESS);
        self.set_printing(memory, false);
        self.notify_ready_to_print(memory, interruption_bus);
        proof {
            lemma_memory_len(*old(memory));
            let m0 = old(memory)@;
            let w0 = word_at(m0, TRANSMITTER_STATUS_ADDRESS as int).spec_set_n_bit(RDY_STATUS_BIT, false);
            assert(put_word(put_word(m0, TRANSMITTER_STATUS_ADDRESS as int, w0), TRANSMITTER_STATUS_ADDRESS as int, w0.spec_set_n_bit(RDY_STATUS_BIT, true))
                =~= put_word(m0, TRANSMITTER_STATUS_ADDRESS as int, w0.spec_set_n_bit(RDY_STATUS_BIT, true)));
        }
        Some(c)
    }

    /// Whether RIE is set and RDY is clear: a byte that arrived has not been announced yet.
    pub fn should_notify_received(&self, memory: &Memory) -> (r: bool)
        requires
            memory.wf(),
        ensures
            r == (word_at(memory@, RECEIVER_STATUS_ADDRESS as int).spec_get_n_bit(INT_STATUS_BIT)
                && !word_at(memory@, RECEIVER_STATUS_ADDRESS as int).spec_get_n_bit(RDY_STATUS_BIT)),
    {
        let status = memory.peek_word(RECEIVER_STATUS_ADDRESS);
        status.get_n_bit(INT_STATUS_BIT) && !status.get_n_bit(RDY_STATUS_BIT)
    }

    /// Keeps RDY set while the receiver buffer holds a byte the program has not read, and
    /// announces it once; otherwise clears RDY and moves the next keystroke into the buffer.
    pub fn try_receive(&mut self, memory: &mut Memory, interruption_bus: &mut InterruptionBus)
        requires
            old(memory).wf(),
            old(interruption_bus).wf(),
        ensures
            final(memory).wf(),
            final(interruption_bus).wf(),
            final(memory).mapped_set() == old(memory).mapped_set(),
            final(self).registers() == old(self).registers(),
            ({
                let waiting = fresh(*old(memory), RECEIVER_BUFFER_ADDRESS);
                &&& final(memory)@ == after_receive(old(memory)@, waiting, old(self).keys())
                &&& final(self).keys() == keys_after_receive(waiting, old(self).keys())
                &&& final(interruption_bus)@ == raise_if(
                    old(interruption_bus)@,
                    receive_announces(old(memory)@, waiting),
                    RECEIVER_INT,
                )
                &&& fresh(*final(memory), RECEIVER_BUFFER_ADDRESS) == if waiting {
                    true
                } else if old(self).keys().len() > 0 {
                    old(memory).cell(RECEIVER_BUFFER_ADDRESS as int) is Some && old(memory).cell(
                        RECEIVER_BUFFER_ADDRESS as int,
                    )->Some_0 is Tty
                } else {
                    false
                }
            }),
            forall|a: int| #![trigger final(memory).cell(a)]
                0 <= a < 0x10000 && a / 2 != RECEIVER_STATUS_ADDRESS / 2 && a / 2
                    != RECEIVER_BUFFER_ADDRESS / 2 ==> final(memory).cell(a) == old(memory).cell(a),
    {
        if memory.has_new_data(RECEIVER_BUFFER_ADDRESS) {
            let should_notify = self.should_notify_received(memory);
            self.set_received(memory, true);
            if should_notify {
                interruption_bus.interrupt(RECEIVER_INT, INT_PRIORITY);
            }
            return;
        }
        self.set_received(memory, false);
        if let Some(c) = self.receiver_queue.pop() {
            memory.write_byte(RECEIVER_BUFFER_ADDRESS, c);
        }
    }

    /// One poll of the console: transmit, then receive. The byte for the host, if any, comes back.
    pub fn tick(&mut self, memory: &mut Memory, interruption_bus: &mut InterruptionBus) -> (r:
        Option<Byte>)
        requires
            old(memory).wf(),
            old(interruption_bus).wf(),
        ensures
            final(memory).wf(),
            final(interruption_bus).wf(),
            final(memory).mapped_set() == old(memory).mapped_set(),
            final(self).registers() == old(self).registers(),
            ({
                let (out, m, keys, queues, buffer_fresh) = console_step(
                    *old(memory),
                    old(self).keys(),
                    old(interruption_bus)@,
                );
                &&& r == out
                &&& final(memory)@ == m
                &&& final(self).keys() == keys
                &&& final(interruption_bus)@ == queues
                &&& fresh(*final(memory), RECEIVER_BUFFER_ADDRESS) == buffer_fresh
            }),
            !fresh(*final(memory), TRANSMITTER_BUFFER_ADDRESS),
            forall|a: int| #![trigger final(memory).cell(a)]
                0 <= a < RECEIVER_STATUS_ADDRESS ==> final(memory).cell(a) == old(memory).cell(a),
    {
        let r = self.try_print(memory, interruption_bus);
        self.try_receive(memory, interruption_bus);
        r
    }
}

/// `m` with the words of the console registers `regs` (receiver status and buffer,
/// transmitter status and buffer) at their addresses.
pub open spec fn with_console_words(m: Seq<Byte>, regs: Seq<TtyMappedMemoryWord>) -> Seq<Byte> {
    put_word(
        put_word(
            put_word(
                put_word(m, RECEIVER_STATUS_ADDRESS as int, regs[0].word.word),
                RECEIVER_BUFFER_ADDRESS as int,
                regs[1].word.word,
            ),
            TRANSMITTER_STATUS_ADDRESS as int,
            regs[2].word.word,
        ),
        TRANSMITTER_BUFFER_ADDRESS as int,
        regs[3].word.word,
    )
}

/// `queues` with `vector` added at the back of level 4 when `raise` holds.
pub open spec fn raise_if(queues: Seq<Seq<Address>>, raise: bool, vector: Address) -> Seq<
    Seq<Address>,
> {
    if raise {
        queues.update(INT_PRIORITY - 4, queues[INT_PRIORITY - 4].push(vector))
    } else {
        queues
    }
}

/// What addresses read after the transmitter step: XRDY cleared and set again when a byte
/// was `sent`.
pub open spec fn after_print(m: Seq<Byte>, sent: bool) -> Seq<Byte> {
    if sent {
        put_word(
            m,
            TRANSMITTER_STATUS_ADDRESS as int,
            word_at(m, TRANSMITTER_STATUS_ADDRESS as int).spec_set_n_bit(
                RDY_STATUS_BIT,
                false,
            ).spec_set_n_bit(RDY_STATUS_BIT, true),
        )
    } else {
        m
    }
}

/// Whether the transmitter step raises its interrupt: a byte was sent and TIE is set.
pub open spec fn print_announces(m: Seq<Byte>, sent: bool) -> bool {
    sent && word_at(after_print(m, sent), TRANSMITTER_STATUS_ADDRESS as int).spec_get_n_bit(
        INT_STATUS_BIT,
    )
}

/// What addresses read after the receiver step, with `waiting` telling whether the receiver
/// buffer holds a byte the program has not read, and `keys` the keystrokes queued.
pub open spec fn after_receive(m: Seq<Byte>, waiting: bool, keys: Seq<Byte>) -> Seq<Byte> {
    let rcsr = word_at(m, RECEIVER_STATUS_ADDRESS as int);
    if waiting {
        put_word(m, RECEIVER_STATUS_ADDRESS as int, rcsr.spec_set_n_bit(RDY_STATUS_BIT, true))
    } else {
        let cleared = put_word(
            m,
            RECEIVER_STATUS_ADDRESS as int,
            rcsr.spec_set_n_bit(RDY_STATUS_BIT, false),
        );
        if keys.len() > 0 {
            cleared.update(RECEIVER_BUFFER_ADDRESS as int, keys[0])
        } else {
            cleared
        }
    }
}

pub open spec fn keys_after_receive(waiting: bool, keys: Seq<Byte>) -> Seq<Byte> {
    if !waiting && keys.len() > 0 {
        keys.drop_first()
    } else {
        keys
    }
}

/// Whether the receiver step raises its interrupt: a byte waits, RIE is set and RDY was clear.
pub open spec fn receive_announces(m: Seq<Byte>, waiting: bool) -> bool {
    let rcsr = word_at(m, RECEIVER_STATUS_ADDRESS as int);
    waiting && rcsr.spec_get_n_bit(INT_STATUS_BIT) && !rcsr.spec_get_n_bit(RDY_STATUS_BIT)
}

/// One poll of the console on `memory` with the keystrokes `keys` and the pending requests
/// `queues`: the byte for the host, what addresses read after, the keystrokes left, the
/// requests, and whether the receiver buffer then holds a byte the program has not read.
pub open spec fn console_step(memory: Memory, keys: Seq<Byte>, queues: Seq<Seq<Address>>) -> (
    Option<Byte>,
    Seq<Byte>,
    Seq<Byte>,
    Seq<Seq<Address>>,
    bool,
) {
    let sent = fresh(memory, TRANSMITTER_BUFFER_ADDRESS);
    let waiting = fresh(memory, RECEIVER_BUFFER_ADDRESS);
    let m1 = after_print(memory@, sent);
    (
        if sent {
            Some(memory@[TRANSMITTER_BUFFER_ADDRESS as int])
        } else {
            None
        },
        after_receive(m1, waiting, keys),
        keys_after_receive(waiting, keys),
        raise_if(
            raise_if(queues, print_announces(memory@, sent), TRANSMITTER_INT),
            receive_announces(m1, waiting),
            RECEIVER_INT,
        ),
        if waiting {
            true
        } else if keys.len() > 0 {
            memory.cell(RECEIVER_BUFFER_ADDRESS as int) is Some && memory.cell(
                RECEIVER_BUFFER_ADDRESS as int,
            )->Some_0 is Tty
        } else {
            false
        },
    )
}

} // verus!
