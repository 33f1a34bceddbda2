use smallos_hal::idt::Idt;
use smallos_hal::pic::end_of_interrupt;
use smallos_hal::pic::initialize_pic;
use smallos_hal::pic::PicPair;
use smallos_hal::pic::PortWrite;
use smallos_hal::pic::SetupStage;
use smallos_hal::pit::initialize_pit;
use smallos_hal::pit::pit_divisor;
use smallos_hal::pit::TickCounter;

#[test]
fn pic_handshake_is_the_exact_four_word_sequence() {
    let writes = initialize_pic();
    let expected = vec![
        PortWrite { port: 0x20, value: 0b00010001 },
        PortWrite { port: 0xA0, value: 0b00010001 },
        PortWrite { port: 0x21, value: 0x20 },
        PortWrite { port: 0xA1, value: 0x28 },
        PortWrite { port: 0x21, value: 0b00000100 },
        PortWrite { port: 0xA1, value: 0x02 },
        PortWrite { port: 0x21, value: 0x01 },
        PortWrite { port: 0xA1, value: 0x01 },
    ];
    assert_eq!(writes, expected);
}

#[test]
fn pic_initialization_remaps_both_controllers() {
    let mut pair = PicPair::powered_on();
    let writes = initialize_pic();
    pair.apply_writes(&writes);
    assert_eq!(pair.master.stage, SetupStage::Ready);
    assert_eq!(pair.slave.stage, SetupStage::Ready);
    assert_eq!(pair.master.vector_base, 0x20);
    assert_eq!(pair.slave.vector_base, 0x28);
    assert_eq!(pair.slave.vector_base, pair.master.vector_base + 8);
    assert_eq!(pair.master.mode, 0x01);
    assert_eq!(pair.slave.mode, 0x01);
}

#[test]
fn only_the_cascade_line_carries_the_selector_bit() {
    let mut pair = PicPair::powered_on();
    let writes = initialize_pic();
    pair.apply_writes(&writes);
    assert_eq!(pair.master.cascade, 0b00000100);
    for line in 0..8u8 {
        if line != 2 {
            assert_eq!(pair.master.cascade & (1u8 << line), 0);
        }
    }
    assert_eq!(pair.slave.cascade, 2);
}

#[test]
fn acknowledgment_goes_to_the_master_command_port() {
    let write = end_of_interrupt();
    assert_eq!(write.port, 0x20);
    assert_eq!(write.value, 0x20);
}

#[test]
fn acknowledgment_leaves_a_ready_controller_configured() {
    let mut pair = PicPair::powered_on();
    let writes = initialize_pic();
    pair.apply_writes(&writes);
    let configured = pair;
    pair.apply_write(end_of_interrupt());
    assert_eq!(pair, configured);
}

#[test]
fn divisor_for_the_tick_frequency_is_the_rounded_quotient() {
    assert_eq!(pit_divisor(100), 11932);
    assert_eq!(pit_divisor(1193180), 1);
    assert_eq!(pit_divisor(19), 62799);
}

#[test]
fn pit_initialization_programs_channel_zero_low_byte_first() {
    let mut idt = Idt::new(0x10C350);
    let (writes, _counter) = initialize_pit(&mut idt, 0x10D000);
    let expected = vec![
        PortWrite { port: 0x43, value: 0b00110100 },
        PortWrite { port: 0x40, value: 0x9C },
        PortWrite { port: 0x40, value: 0x2E },
    ];
    assert_eq!(writes, expected);
}

#[test]
fn pit_initialization_registers_the_timer_vector() {
    let mut idt = Idt::new(0x10C350);
    let (_writes, _counter) = initialize_pit(&mut idt, 0x10D000);
    assert_eq!(idt.entries[32].handler_address(), 0x10D000);
    assert!(idt.entries[32].is_present());
    assert_eq!(idt.entries[31].handler_address(), 0x10C350);
    assert_eq!(idt.entries[33].handler_address(), 0x10C350);
}

#[test]
fn tick_counter_starts_at_zero() {
    let mut idt = Idt::new(0x10C350);
    let (_writes, counter) = initialize_pit(&mut idt, 0x10D000);
    assert_eq!(counter.get_ticks_amount(), 0);
}

#[test]
fn n_serviced_interrupts_count_exactly_n_ticks() {
    let mut counter = TickCounter::new();
    assert_eq!(counter.get_ticks_amount(), 0);
    for serviced in 1..=1000u32 {
        let acknowledge = counter.on_timer_interrupt();
        assert_eq!(acknowledge.port, 0x20);
        assert_eq!(acknowledge.value, 0x20);
        assert_eq!(counter.get_ticks_amount(), serviced);
    }
}
