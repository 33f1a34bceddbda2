//! Periodic-interval-timer driver and the monotonic tick counter.
//!
//! Initialization registers the tick handler at the vector immediately
//! following the remapped master-controller block, programs the timer's
//! control word (binary counting, low-byte-then-high-byte access, periodic
//! rate-generator mode, channel 0), writes the 16-bit divisor low byte
//! first, and resets the tick counter to zero.  On every timer interrupt
//! the handler increments the counter by exactly one and acknowledges the
//! master controller; the machine-facing shell wraps that in the register
//! save/restore and the interrupt-return instruction.

use vstd::prelude::*;

use crate::idt::Idt;
use crate::idt::spec_gate_descriptor;
use crate::pic::END_OF_INTERRUPT_COMMAND;
use crate::pic::MASTER_PIC_COMMAND_PORT;
use crate::pic::PortWrite;

verus! {

/// Control-word port of the timer.
pub const PIT_COMMAND_PORT: u16 = 0x43;

/// Data port of counter channel 0, the channel driving the interrupt line.
pub const PIT_CHANNEL0_DATA_PORT: u16 = 0x40;

/// Control word programmed here: binary counting, rate-generator mode,
/// low-byte-then-high-byte access, counter channel 0.
pub const PIT_ICW: u8 = 0b00110100;

/// Frequency in hertz of the timer's fixed hardware oscillator.
pub const PIT_OSCILLATOR_HZ: u32 = 1193180;

/// Desired tick frequency in hertz: one interrupt every 10 milliseconds.
pub const TICK_FREQUENCY_HZ: u32 = 100;

/// The divisor programmed for `TICK_FREQUENCY_HZ`: the oscillator
/// frequency divided by the tick frequency, rounded to nearest.
pub const PIT_DIVISOR: u16 = 11932;

/// Interrupt vector of the timer: the first line of the remapped
/// master-controller block.
pub const TIMER_INTERRUPT_VECTOR: usize = 32;

/// The divisor that makes the timer fire `frequency` times per second:
/// the oscillator frequency divided by `frequency`, rounded to nearest.
/// Frequencies below 19 hertz would need a divisor beyond the counter's
/// 16-bit width.
pub fn pit_divisor(frequency: u32) -> (divisor: u16)
    requires
        19 <= frequency,
    ensures
        divisor == ((PIT_OSCILLATOR_HZ + frequency / 2) as int) / (frequency as int),
{
    let half: u32 = frequency / 2;
    proof {
        vstd::arithmetic::div_mod::lemma_div_nonincreasing(frequency as int, 2);
        assert(PIT_OSCILLATOR_HZ + half < frequency * 65536);
        vstd::arithmetic::div_mod::lemma_multiply_divide_lt(
            PIT_OSCILLATOR_HZ + half,
            frequency as int,
            65536,
        );
    }
    ((PIT_OSCILLATOR_HZ + half) / frequency) as u16
}

/// The port writes that program the timer: the control word, then the
/// divisor's low byte, then its high byte.
pub open spec fn spec_pit_initialization_writes() -> Seq<PortWrite> {
    seq![
        PortWrite { port: PIT_COMMAND_PORT, value: PIT_ICW },
        PortWrite { port: PIT_CHANNEL0_DATA_PORT, value: (PIT_DIVISOR & 0xFF) as u8 },
        PortWrite { port: PIT_CHANNEL0_DATA_PORT, value: (PIT_DIVISOR >> 8) as u8 },
    ]
}

/// The tick counter: incremented exactly once per timer interrupt, read by
/// polling.  Only the timer interrupt handler ever writes it.
pub struct TickCounter {
    ticks: u32,
}

/// The counter value after one more serviced interrupt: one higher,
/// wrapping silently at the 32-bit limit.
pub open spec fn spec_next_tick(ticks: u32) -> u32 {
    if ticks == u32::MAX {
        0
    } else {
        (ticks + 1) as u32
    }
}

impl TickCounter {
    /// The counter's value.
    pub closed spec fn spec_ticks(&self) -> u32 {
        self.ticks
    }

    /// A counter reset to zero, as timer initialization leaves it.
    pub fn new() -> (counter: TickCounter)
        ensures
            counter.spec_ticks() == 0,
    {
        TickCounter { ticks: 0 }
    }

    /// Services one timer interrupt: the counter grows by exactly one
    /// (wrapping silently at the 32-bit limit) and the returned
    /// end-of-interrupt acknowledgment must be written to the master
    /// controller's command port before the handler returns.
    pub fn on_timer_interrupt(&mut self) -> (acknowledge: PortWrite)
        ensures
            final(self).spec_ticks() == spec_next_tick(old(self).spec_ticks()),
            acknowledge == (PortWrite {
                port: MASTER_PIC_COMMAND_PORT,
                value: END_OF_INTERRUPT_COMMAND,
            }),
    {
        self.ticks = if self.ticks == u32::MAX {
            0
        } else {
            self.ticks + 1
        };
        crate::pic::end_of_interrupt()
    }

    /// The current tick amount: a plain snapshot, no blocking, no error
    /// path.
    pub fn get_ticks_amount(&self) -> (ticks: u32)
        ensures
            ticks == self.spec_ticks(),
    {
        self.ticks
    }
}

/// The counter value after `interrupts` serviced timer interrupts,
/// starting from the reset state.
pub open spec fn spec_ticks_after(interrupts: nat) -> u32
    decreases interrupts,
{
    if interrupts == 0 {
        0
    } else {
        spec_next_tick(spec_ticks_after((interrupts - 1) as nat))
    }
}

/// For any number of serviced interrupts below the counter's wrapping
/// point, the counter equals exactly that number: no double counting, no
/// lost ticks.
pub proof fn lemma_ticks_count_interrupts(interrupts: nat)
    requires
        interrupts <= u32::MAX,
    ensures
        spec_ticks_after(interrupts) == interrupts,
    decreases interrupts,
{
    if interrupts > 0 {
        lemma_ticks_count_interrupts((interrupts - 1) as nat);
    }
}

/// Initializes the timer: registers the tick handler (at `handler_address`)
/// for the timer vector, hands back the control-word and divisor writes for
/// the shell to perform in order, and a tick counter reset to zero.
pub fn initialize_pit(idt: &mut Idt, handler_address: u32) -> (setup: (Vec<PortWrite>, TickCounter))
    requires
        old(idt).wf(),
    ensures
        final(idt).wf(),
        final(idt).entries@ == old(idt).entries@.update(
            TIMER_INTERRUPT_VECTOR as int,
            spec_gate_descriptor(handler_address),
        ),
        setup.0@ == spec_pit_initialization_writes(),
        setup.1.spec_ticks() == 0,
{
    idt.install_descriptor(TIMER_INTERRUPT_VECTOR, handler_address);
    let mut writes: Vec<PortWrite> = Vec::new();
    writes.push(PortWrite { port: PIT_COMMAND_PORT, value: PIT_ICW });
    let divisor = pit_divisor(TICK_FREQUENCY_HZ);
    proof {
        assert(divisor == PIT_DIVISOR);
    }
    writes.push(PortWrite { port: PIT_CHANNEL0_DATA_PORT, value: (divisor & 0xFF) as u8 });
    writes.push(PortWrite { port: PIT_CHANNEL0_DATA_PORT, value: (divisor >> 8) as u8 });
    proof {
        assert(writes@ =~= spec_pit_initialization_writes());
    }
    (writes, TickCounter::new())
}

} // verus!
