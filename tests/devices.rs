use pdp11::assembly::Pdp11;
use pdp11::cpu::interruptions::InterruptionBus;
use pdp11::mem::{MappedCell, MappedMemoryWord, Memory, SimpleMappedMemoryWord};
use pdp11::tty::{Dl11Tty, TtyMappedMemoryWord, TRANSMITTER_BUFFER_ADDRESS, TRANSMITTER_STATUS_ADDRESS};
use pdp11::utils::blocking_queue::BlockingQueue;
use pdp11::utils::{has_carry, long_word, word, word_has_carry, Number};

#[test]
fn word_endian_round_trip() {
    let mut memory = Memory::new();
    assert_eq!(memory.write_word(0x0100, 0x1234), 0x0102);
    assert_eq!(memory.read_byte(0x0100), 0x34);
    assert_eq!(memory.read_byte(0x0101), 0x12);
    assert_eq!(memory.write_byte(0x0101, 0xAB), 0x0102);
    assert_eq!(memory.read_word(0x0100), 0xAB34);
}

#[test]
fn top_of_memory_is_addressable() {
    let mut memory = Memory::new();
    memory.write_word(0xFFFE, 0xCAFE);
    assert_eq!(memory.read_word(0xFFFE), 0xCAFE);
    assert_eq!(memory.read_byte(0xFFFF), 0xCA);
}

#[test]
fn mapped_cell_coherence() {
    let mut memory = Memory::new();
    memory.write_word(0x0200, 0x1111);
    memory.map_word(0x0200, MappedCell::Simple(SimpleMappedMemoryWord { word: 0xBEEF }));
    assert_eq!(memory.read_word(0x0200), 0xBEEF);
    assert_eq!(memory.read_byte(0x0201), 0xBE);
    memory.write_byte(0x0201, 0x12);
    assert_eq!(memory.read_word(0x0200), 0x12EF);
    memory.unmap_word(0x0200);
    assert_eq!(memory.read_word(0x0200), 0x12EF);
    memory.write_word(0x0200, 0x0001);
    assert_eq!(memory.read_word(0x0200), 0x0001);
}

#[test]
fn mapping_replaces_earlier_binding() {
    let mut memory = Memory::new();
    memory.map_word(0x0300, MappedCell::Simple(SimpleMappedMemoryWord { word: 1 }));
    memory.map_word(0x0300, MappedCell::Simple(SimpleMappedMemoryWord { word: 2 }));
    assert_eq!(memory.read_word(0x0300), 2);
}

#[test]
fn console_register_tracks_new_data() {
    let mut memory = Memory::new();
    memory.map_word(0x0400, MappedCell::Tty(TtyMappedMemoryWord::new()));
    assert!(!memory.has_new_data(0x0400));
    memory.write_byte(0x0400, 7);
    assert!(memory.has_new_data(0x0400));
    assert_eq!(memory.read_word(0x0400), 7);
    assert!(!memory.has_new_data(0x0400));
}

#[test]
fn cell_byte_access() {
    let mut cell = SimpleMappedMemoryWord::new();
    cell.write_word(0x1234);
    assert_eq!(cell.read_byte(true), 0x12);
    cell.write_byte(0xFF, false);
    assert_eq!(cell.read_word(), 0x12FF);
}

#[test]
fn interrupt_priority_and_fifo() {
    let mut bus = InterruptionBus::new();
    bus.interrupt(0x0030, 4);
    bus.interrupt(0x0040, 6);
    bus.interrupt(0x0050, 6);
    assert_eq!(bus.next_interruption_if_any(6), None);
    assert_eq!(bus.next_interruption_if_any(0), Some(0x0040));
    assert_eq!(bus.next_interruption_if_any(0), Some(0x0050));
    assert_eq!(bus.next_interruption_if_any(4), None);
    assert_eq!(bus.next_interruption_if_any(3), Some(0x0030));
    assert_eq!(bus.next_interruption_if_any(0), None);
    bus.interrupt(0x0060, 7);
    assert_eq!(bus.next_interruption_if_any(7), None);
    assert_eq!(bus.next_interruption_if_any(6), Some(0x0060));
}

#[test]
fn queue_is_fifo() {
    let mut q = BlockingQueue::new();
    assert_eq!(q.pop(), None);
    q.push(1u8);
    q.push(2u8);
    assert_eq!(q.len(), 2);
    assert_eq!(q.pop(), Some(1));
    assert_eq!(q.pop(), Some(2));
    assert_eq!(q.pop(), None);
}

#[test]
fn number_helpers() {
    assert_eq!(0x80u8.register(), 0xFF80);
    assert_eq!(0x7Fu8.register(), 0x007F);
    assert_eq!(0x1234u16.high(), 0x12);
    assert_eq!(0x1234u16.low(), 0x34);
    assert_eq!(0x1234_5678u32.high(), 0x1234);
    assert_eq!(0x1234_5678u32.low(), 0x5678);
    assert_eq!(0u16.two_complement(), 0);
    assert_eq!(1u16.two_complement(), 0xFFFF);
    assert_eq!(1u8.two_complement(), 0xFF);
    assert_eq!(0x0F0Fu16.one_complement(), 0xF0F0);
    assert_eq!(0u16.set_n_bit(15, true), 0x8000);
    assert_eq!(0xFFFFu16.set_n_bit(0, false), 0xFFFE);
    assert!(0x0010u16.get_n_bit(4));
    assert!(!0x0010u16.get_n_bit(3));
    assert!(0x8000u16.is_negative());
    assert!(0u32.is_zero());
    assert_eq!(<u32 as Number<u16>>::size_bits(), 32);
    assert_eq!(word(0x34, 0x12), 0x1234);
    assert_eq!(long_word(0x5678, 0x1234), 0x1234_5678);
    assert!(has_carry(0x1_0000));
    assert!(!has_carry(0xFFFF));
    assert!(word_has_carry(0x100));
    assert!(!word_has_carry(0xFF));
}

#[test]
fn console_transmits_written_byte_once() {
    let mut pdp = Pdp11::new();
    pdp.dl11tty.map_registers(&mut pdp.memory);
    pdp.dl11tty.set_printing(&mut pdp.memory, false);
    assert_eq!(pdp.run_tty(), None);
    pdp.memory.write_byte(TRANSMITTER_BUFFER_ADDRESS, b'x');
    assert_eq!(pdp.run_tty(), Some(b'x'));
    assert_eq!(pdp.run_tty(), None);
    assert_eq!(pdp.memory.read_word(TRANSMITTER_STATUS_ADDRESS) & 0x80, 0x80);
}

#[test]
fn console_transmit_interrupt_when_enabled() {
    let mut pdp = Pdp11::new();
    pdp.dl11tty.map_registers(&mut pdp.memory);
    pdp.memory.write_word(TRANSMITTER_STATUS_ADDRESS, 0x0040);
    pdp.memory.write_byte(TRANSMITTER_BUFFER_ADDRESS, b'y');
    assert_eq!(pdp.run_tty(), Some(b'y'));
    assert_eq!(pdp.cpu.interruption_bus().next_interruption_if_any(0), Some(0x0034));
}

#[test]
fn console_receives_keystrokes_in_order() {
    let mut tty = Dl11Tty::new();
    let mut memory = Memory::new();
    let mut bus = InterruptionBus::new();
    tty.map_registers(&mut memory);
    memory.write_word(0xFF70, 0x0040);
    tty.push_key(b'a');
    tty.push_key(b'b');
    tty.try_receive(&mut memory, &mut bus);
    assert_eq!(memory.read_word(0xFF70) & 0x80, 0);
    tty.try_receive(&mut memory, &mut bus);
    assert_eq!(memory.read_word(0xFF70) & 0x80, 0x80);
    assert_eq!(bus.next_interruption_if_any(0), Some(0x0030));
    assert_eq!(memory.read_byte(0xFF72), b'a');
    tty.try_receive(&mut memory, &mut bus);
    tty.try_receive(&mut memory, &mut bus);
    assert_eq!(memory.read_byte(0xFF72), b'b');
    tty.unmap_registers(&mut memory);
    assert_eq!(memory.read_byte(0xFF72), b'b');
}

#[test]
fn priority_above_seven_takes_nothing() {
    let mut bus = InterruptionBus::new();
    bus.interrupt(0x0060, 7);
    assert_eq!(bus.next_interruption_if_any(7), None);
    assert_eq!(bus.next_interruption_if_any(9), None);
    assert_eq!(bus.next_interruption_if_any(5), Some(0x0060));
}
