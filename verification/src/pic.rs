//! Programmable-interrupt-controller driver: the four-word initialization
//! handshake of the cascaded master/slave pair, and its companion
//! primitives.
//!
//! The driver itself is a fixed sequence of byte writes to the two
//! controllers' command and data ports.  `initialize_pic` produces that
//! exact sequence; the machine-facing shell performs each write with a port
//! output instruction, in order.  The module also models how a controller
//! consumes the handshake, word by word, so that the effect of the sequence
//! on the pair — the remapped vector bases and the cascade wiring — is
//! stated and proved, not just emitted.

use vstd::prelude::*;

verus! {

/// Command port of the master controller; ICW1 and operational commands.
pub const MASTER_PIC_COMMAND_PORT: u16 = 0x20;

/// Data port of the master controller; ICW2..ICW4 and the interrupt mask.
pub const MASTER_PIC_DATA_PORT: u16 = 0x21;

/// Command port of the slave controller.
pub const SLAVE_PIC_COMMAND_PORT: u16 = 0xA0;

/// Data port of the slave controller.
pub const SLAVE_PIC_DATA_PORT: u16 = 0xA1;

/// ICW1 sent to both controllers: initialize, cascaded mode, edge-triggered
/// sensing, a fourth control word will follow.
pub const PIC_FIRST_ICW: u8 = 0b00010001;

/// Bit of an ICW1 that marks it as an initialization request.
pub const ICW1_INIT_BIT: u8 = 0b00010000;

/// Bit of an ICW1 that selects single (non-cascaded) mode.
pub const ICW1_SINGLE_BIT: u8 = 0b00000010;

/// Bit of an ICW1 announcing that a fourth control word follows.
pub const ICW1_EXPECT_ICW4_BIT: u8 = 0b00000001;

/// ICW2 of the master: its eight request lines map to the contiguous vector
/// block starting here, just above the processor's reserved low vectors.
pub const MASTER_PIC_IRQ_BASE_INDEX: u8 = 0x20;

/// ICW2 of the slave: the next contiguous eight-vector block.
pub const SLAVE_PIC_IRQ_BASE_INDEX: u8 = 0x28;

/// ICW3 of the master: one bit per request line, set only on line 2, the
/// line wired to the slave.
pub const MASTER_TO_SECOND_PIC_SELECTOR: u8 = 0b00000100;

/// ICW3 of the slave: its numeric identity on the cascade, line 2.
pub const SECOND_TO_MASTER_PIC_SELECTOR: u8 = 2;

/// ICW4 sent to both controllers: 80x86 vectoring mode, no automatic
/// end-of-interrupt, no buffering, no fully nested mode.
pub const PIC_FOURTH_ICW: u8 = 0b00000001;

/// Operational command acknowledging the interrupt currently in service.
pub const END_OF_INTERRUPT_COMMAND: u8 = 0x20;

/// One byte written to one hardware I/O port.
#[derive(Clone, Copy, PartialEq, Eq, Structural, Debug)]
pub struct PortWrite {
    /// The I/O port written to.
    pub port: u16,
    /// The byte written.
    pub value: u8,
}

/// The full initialization sequence: ICW1 to both controllers before either
/// receives ICW2, then the vector bases, the cascade wiring, and ICW4 to
/// both.  The hardware protocol mandates this order; deviating from it
/// leaves the controllers in an undefined state.
pub open spec fn spec_pic_initialization_writes() -> Seq<PortWrite> {
    seq![
        PortWrite { port: MASTER_PIC_COMMAND_PORT, value: PIC_FIRST_ICW },
        PortWrite { port: SLAVE_PIC_COMMAND_PORT, value: PIC_FIRST_ICW },
        PortWrite { port: MASTER_PIC_DATA_PORT, value: MASTER_PIC_IRQ_BASE_INDEX },
        PortWrite { port: SLAVE_PIC_DATA_PORT, value: SLAVE_PIC_IRQ_BASE_INDEX },
        PortWrite { port: MASTER_PIC_DATA_PORT, value: MASTER_TO_SECOND_PIC_SELECTOR },
        PortWrite { port: SLAVE_PIC_DATA_PORT, value: SECOND_TO_MASTER_PIC_SELECTOR },
        PortWrite { port: MASTER_PIC_DATA_PORT, value: PIC_FOURTH_ICW },
        PortWrite { port: SLAVE_PIC_DATA_PORT, value: PIC_FOURTH_ICW },
    ]
}

/// Produces the initialization handshake, write by write, in the exact
/// order the hardware protocol requires.  The caller performs the writes in
/// sequence order while interrupts are masked.
pub fn initialize_pic() -> (writes: Vec<PortWrite>)
    ensures
        writes@ == spec_pic_initialization_writes(),
{
    let mut writes: Vec<PortWrite> = Vec::new();
    writes.push(PortWrite { port: MASTER_PIC_COMMAND_PORT, value: PIC_FIRST_ICW });
    writes.push(PortWrite { port: SLAVE_PIC_COMMAND_PORT, value: PIC_FIRST_ICW });
    writes.push(PortWrite { port: MASTER_PIC_DATA_PORT, value: MASTER_PIC_IRQ_BASE_INDEX });
    writes.push(PortWrite { port: SLAVE_PIC_DATA_PORT, value: SLAVE_PIC_IRQ_BASE_INDEX });
    writes.push(PortWrite { port: MASTER_PIC_DATA_PORT, value: MASTER_TO_SECOND_PIC_SELECTOR });
    writes.push(PortWrite { port: SLAVE_PIC_DATA_PORT, value: SECOND_TO_MASTER_PIC_SELECTOR });
    writes.push(PortWrite { port: MASTER_PIC_DATA_PORT, value: PIC_FOURTH_ICW });
    writes.push(PortWrite { port: SLAVE_PIC_DATA_PORT, value: PIC_FOURTH_ICW });
    proof {
        assert(writes@ =~= spec_pic_initialization_writes());
    }
    writes
}

/// The end-of-interrupt acknowledgment the timer handler must send to the
/// master controller after servicing each tick; without it the controller
/// never raises the next interrupt of that line.
pub fn end_of_interrupt() -> (write: PortWrite)
    ensures
        write == (PortWrite { port: MASTER_PIC_COMMAND_PORT, value: END_OF_INTERRUPT_COMMAND }),
{
    PortWrite { port: MASTER_PIC_COMMAND_PORT, value: END_OF_INTERRUPT_COMMAND }
}

/// Where a controller stands inside the four-word handshake.
#[derive(Clone, Copy, PartialEq, Eq, Structural, Debug)]
pub enum SetupStage {
    /// No initialization word received since power-on or the last reset.
    WaitingIcw1,
    /// ICW1 received; the next data-port byte is the vector base.
    WaitingIcw2,
    /// Vector base received; the next data-port byte is the cascade word.
    WaitingIcw3,
    /// Cascade word received; the next data-port byte is the mode word.
    WaitingIcw4,
    /// Handshake complete; data-port bytes now set the interrupt mask.
    Ready,
}

/// The configuration state of one controller, as the handshake builds it.
#[derive(Clone, Copy, PartialEq, Eq, Structural, Debug)]
pub struct PicController {
    /// Position inside the handshake.
    pub stage: SetupStage,
    /// The initialization word that started the current handshake.
    pub icw1: u8,
    /// Remapped base: request line `n` raises vector `vector_base + n`.
    pub vector_base: u8,
    /// Cascade word: on the master a bit mask of lines wired to a slave, on
    /// the slave its numeric identity on the cascade.
    pub cascade: u8,
    /// Mode word (ICW4).
    pub mode: u8,
    /// Interrupt mask, one bit per request line.
    pub mask: u8,
}

/// The cascaded pair: one master and one slave controller.
#[derive(Clone, Copy, PartialEq, Eq, Structural, Debug)]
pub struct PicPair {
    /// The controller wired to the processor.
    pub master: PicController,
    /// The controller wired to the master's cascade line.
    pub slave: PicController,
}

/// A controller at power-on: everything cleared, waiting for ICW1.
pub open spec fn spec_powered_on_controller() -> PicController {
    PicController {
        stage: SetupStage::WaitingIcw1,
        icw1: 0,
        vector_base: 0,
        cascade: 0,
        mode: 0,
        mask: 0,
    }
}

/// The pair at power-on.
pub open spec fn spec_powered_on_pair() -> PicPair {
    PicPair { master: spec_powered_on_controller(), slave: spec_powered_on_controller() }
}

/// After ICW1, which word the controller expects on its data port next:
/// the cascade word unless single mode was selected, then the mode word
/// unless ICW1 said none would follow.
pub open spec fn spec_stage_after_icw2(icw1: u8) -> SetupStage {
    if icw1 & ICW1_SINGLE_BIT == 0 {
        SetupStage::WaitingIcw3
    } else if icw1 & ICW1_EXPECT_ICW4_BIT == ICW1_EXPECT_ICW4_BIT {
        SetupStage::WaitingIcw4
    } else {
        SetupStage::Ready
    }
}

/// After the cascade word, whether a mode word is still owed.
pub open spec fn spec_stage_after_icw3(icw1: u8) -> SetupStage {
    if icw1 & ICW1_EXPECT_ICW4_BIT == ICW1_EXPECT_ICW4_BIT {
        SetupStage::WaitingIcw4
    } else {
        SetupStage::Ready
    }
}

/// How a controller consumes a byte on its command port: an initialization
/// word restarts the handshake; operational commands (such as the
/// end-of-interrupt acknowledgment) leave the configuration untouched.
pub open spec fn spec_command_write(controller: PicController, value: u8) -> PicController {
    if value & ICW1_INIT_BIT == ICW1_INIT_BIT {
        PicController { stage: SetupStage::WaitingIcw2, icw1: value, ..controller }
    } else {
        controller
    }
}

/// How a controller consumes a byte on its data port: during the handshake
/// the byte is the next initialization word; once ready it sets the mask.
pub open spec fn spec_data_write(controller: PicController, value: u8) -> PicController {
    match controller.stage {
        SetupStage::WaitingIcw2 => PicController {
            stage: spec_stage_after_icw2(controller.icw1),
            vector_base: value,
            ..controller
        },
        SetupStage::WaitingIcw3 => PicController {
            stage: spec_stage_after_icw3(controller.icw1),
            cascade: value,
            ..controller
        },
        SetupStage::WaitingIcw4 => PicController {
            stage: SetupStage::Ready,
            mode: value,
            ..controller
        },
        _ => PicController { mask: value, ..controller },
    }
}

/// How the pair consumes one port write: each port belongs to one
/// controller; writes to any other port leave the pair untouched.
pub open spec fn spec_pair_step(pair: PicPair, write: PortWrite) -> PicPair {
    if write.port == MASTER_PIC_COMMAND_PORT {
        PicPair { master: spec_command_write(pair.master, write.value), ..pair }
    } else if write.port == MASTER_PIC_DATA_PORT {
        PicPair { master: spec_data_write(pair.master, write.value), ..pair }
    } else if write.port == SLAVE_PIC_COMMAND_PORT {
        PicPair { slave: spec_command_write(pair.slave, write.value), ..pair }
    } else if write.port == SLAVE_PIC_DATA_PORT {
        PicPair { slave: spec_data_write(pair.slave, write.value), ..pair }
    } else {
        pair
    }
}

/// The pair after consuming the writes from position `from` on.
pub open spec fn spec_pair_after(pair: PicPair, writes: Seq<PortWrite>, from: int) -> PicPair
    decreases writes.len() - from,
{
    if 0 <= from < writes.len() {
        spec_pair_after(spec_pair_step(pair, writes[from]), writes, from + 1)
    } else {
        pair
    }
}

/// The pair after consuming a whole write sequence, first write first.
pub open spec fn spec_pair_after_writes(pair: PicPair, writes: Seq<PortWrite>) -> PicPair {
    spec_pair_after(pair, writes, 0)
}

impl PicPair {
    /// The pair at power-on, before any word of the handshake.
    pub fn powered_on() -> (pair: PicPair)
        ensures
            pair == spec_powered_on_pair(),
    {
        let controller = PicController {
            stage: SetupStage::WaitingIcw1,
            icw1: 0,
            vector_base: 0,
            cascade: 0,
            mode: 0,
            mask: 0,
        };
        PicPair { master: controller, slave: controller }
    }

    /// Consumes one port write.
    pub fn apply_write(&mut self, write: PortWrite)
        ensures
            *final(self) == spec_pair_step(*old(self), write),
    {
        if write.port == MASTER_PIC_COMMAND_PORT {
            self.master = Self::command_write(self.master, write.value);
        } else if write.port == MASTER_PIC_DATA_PORT {
            self.master = Self::data_write(self.master, write.value);
        } else if write.port == SLAVE_PIC_COMMAND_PORT {
            self.slave = Self::command_write(self.slave, write.value);
        } else if write.port == SLAVE_PIC_DATA_PORT {
            self.slave = Self::data_write(self.slave, write.value);
        }
    }

    /// Consumes a whole write sequence, first write first.
    pub fn apply_writes(&mut self, writes: &Vec<PortWrite>)
        ensures
            *final(self) == spec_pair_after_writes(*old(self), writes@),
    {
        let mut position: usize = 0;
        while position < writes.len()
            invariant
                position <= writes@.len(),
                spec_pair_after(*self, writes@, position as int) == spec_pair_after_writes(
                    *old(self),
                    writes@,
                ),
            decreases writes@.len() - position,
        {
            self.apply_write(writes[position]);
            position = position + 1;
        }
    }

    /// One command-port byte, as the model describes it.
    fn command_write(controller: PicController, value: u8) -> (stepped: PicController)
        ensures
            stepped == spec_command_write(controller, value),
    {
        if value & ICW1_INIT_BIT == ICW1_INIT_BIT {
            PicController { stage: SetupStage::WaitingIcw2, icw1: value, ..controller }
        } else {
            controller
        }
    }

    /// One data-port byte, as the model describes it.
    fn data_write(controller: PicController, value: u8) -> (stepped: PicController)
        ensures
            stepped == spec_data_write(controller, value),
    {
        match controller.stage {
            SetupStage::WaitingIcw2 => {
                let stage = if controller.icw1 & ICW1_SINGLE_BIT == 0 {
                    SetupStage::WaitingIcw3
                } else if controller.icw1 & ICW1_EXPECT_ICW4_BIT == ICW1_EXPECT_ICW4_BIT {
                    SetupStage::WaitingIcw4
                } else {
                    SetupStage::Ready
                };
                PicController { stage, vector_base: value, ..controller }
            },
            SetupStage::WaitingIcw3 => {
                let stage = if controller.icw1 & ICW1_EXPECT_ICW4_BIT == ICW1_EXPECT_ICW4_BIT {
                    SetupStage::WaitingIcw4
                } else {
                    SetupStage::Ready
                };
                PicController { stage, cascade: value, ..controller }
            },
            SetupStage::WaitingIcw4 => PicController {
                stage: SetupStage::Ready,
                mode: value,
                ..controller
            },
            _ => PicController { mask: value, ..controller },
        }
    }
}

/// The state the initialization handshake leaves the pair in when applied
/// to powered-on controllers: both ready, the master's request lines
/// remapped to the configured base, the slave's to the next eight-vector
/// block, the cascade-selector bit set on line 2 of the master and on no
/// other line, and the slave knowing its identity on that line.
pub proof fn lemma_pic_initialization_remaps()
    ensures
        ({
            let pair = spec_pair_after_writes(
                spec_powered_on_pair(),
                spec_pic_initialization_writes(),
            );
            &&& pair.master.stage is Ready
            &&& pair.slave.stage is Ready
            &&& pair.master.vector_base == MASTER_PIC_IRQ_BASE_INDEX
            &&& pair.slave.vector_base == SLAVE_PIC_IRQ_BASE_INDEX
            &&& pair.slave.vector_base == pair.master.vector_base + 8
            &&& pair.master.cascade == MASTER_TO_SECOND_PIC_SELECTOR
            &&& forall|line: u8|
                line < 8 && line != 2 ==> pair.master.cascade & (1u8 << line) == 0
            &&& pair.slave.cascade == SECOND_TO_MASTER_PIC_SELECTOR
            &&& pair.master.mode == PIC_FOURTH_ICW
            &&& pair.slave.mode == PIC_FOURTH_ICW
        }),
{
    reveal_with_fuel(spec_pair_after, 10);
    assert(PIC_FIRST_ICW & ICW1_INIT_BIT == ICW1_INIT_BIT) by (bit_vector);
    assert(PIC_FIRST_ICW & ICW1_SINGLE_BIT == 0) by (bit_vector);
    assert(PIC_FIRST_ICW & ICW1_EXPECT_ICW4_BIT == ICW1_EXPECT_ICW4_BIT) by (bit_vector);
    assert forall|line: u8| line < 8 && line != 2 implies MASTER_TO_SECOND_PIC_SELECTOR & (1u8
        << line) == 0 by {
        assert(line < 8 && line != 2 ==> 0b00000100u8 & (1u8 << line) == 0) by (bit_vector);
    }
}

} // verus!
