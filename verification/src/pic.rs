//! The pair of chained 8259 interrupt controllers: which vectors each one
//! owns, and the port writes that set them up and that acknowledge an
//! interrupt.
//!
//! ```text
//!                      ____________                          ____________
//! Real Time Clock --> |            |   Timer -------------> |            |
//! ACPI -------------> |            |   Keyboard-----------> |            |      _____
//! Available --------> | Secondary  |----------------------> | Primary    |     |     |
//! Available --------> | Interrupt  |   Serial Port 2 -----> | Interrupt  |---> | CPU |
//! Mouse ------------> | Controller |   Serial Port 1 -----> | Controller |     |_____|
//! Co-Processor -----> |            |   Parallel Port 2/3 -> |            |
//! Primary ATA ------> |            |   Floppy disk -------> |            |
//! Secondary ATA ----> |____________|   Parallel Port 1----> |____________|
//! ```

use vstd::prelude::*;
use crate::port::{PortRead, PortWidth, PortWrite, UnsafePort};

verus! {

/// Command that starts the initialization sequence of a controller.
pub const CMD_INIT: u8 = 0x11;

/// Command that acknowledges an interrupt.
pub const CMD_END_OF_INTERRUPT: u8 = 0x20;

/// Operating mode of the controllers: 8086/88.
pub const MODE_8086: u8 = 0x01;

/// First vector of the primary controller.
pub const PIC1_INTERRUPT_OFFSET: u8 = 32;

/// First vector of the secondary controller.
pub const PIC2_INTERRUPT_OFFSET: u8 = PIC1_INTERRUPT_OFFSET + 8;

/// Command port of the primary controller.
pub const PIC1_COMMAND_PORT: u16 = 0x20;

/// Data port of the primary controller.
pub const PIC1_DATA_PORT: u16 = 0x21;

/// Command port of the secondary controller.
pub const PIC2_COMMAND_PORT: u16 = 0xA0;

/// Data port of the secondary controller.
pub const PIC2_DATA_PORT: u16 = 0xA1;

/// Port that nothing listens on: a write to it takes the time that a
/// controller needs between two bytes.
pub const WAIT_PORT: u16 = 0x80;

/// The write of one byte to a port.
pub open spec fn byte_write(port: u16, value: u8) -> PortWrite {
    PortWrite { port, width: PortWidth::Byte, value: value as u32 }
}

/// The read of one byte from a port.
pub open spec fn byte_read(port: u16) -> PortRead {
    PortRead { port, width: PortWidth::Byte }
}

/// A controller with the first vector `offset` owns `vector`: it owns the
/// eight vectors from `offset` on.
pub open spec fn owns_vector(offset: u8, vector: u8) -> bool {
    offset <= vector < offset + 8
}

/// Two controllers whose ranges of vectors lie side by side own the sixteen
/// vectors from the first vector of the primary controller on, and no vector
/// belongs to both.
pub proof fn lemma_adjacent_controllers(offset1: u8, vector: u8)
    requires
        offset1 + 8 <= u8::MAX,
    ensures
        owns_vector(offset1, vector) || owns_vector((offset1 + 8) as u8, vector) <==> offset1
            <= vector < offset1 + 16,
        !(owns_vector(offset1, vector) && owns_vector((offset1 + 8) as u8, vector)),
{
}

/// The writes that set up a pair of controllers with the given first
/// vectors. Each controller gets the command to initialize, then its first
/// vector, then its place in the chain (the primary has the secondary on
/// line 2, bit 2 of its byte; the secondary has the identity 2), then the
/// operating mode. A write to the wait port follows each of these bytes. At
/// the end each controller gets back the interrupt mask that it had before.
pub open spec fn initialize_writes(offset1: u8, offset2: u8, mask1: u8, mask2: u8) -> Seq<
    PortWrite,
> {
    seq![
        byte_write(PIC1_COMMAND_PORT, CMD_INIT),
        byte_write(WAIT_PORT, 0),
        byte_write(PIC2_COMMAND_PORT, CMD_INIT),
        byte_write(WAIT_PORT, 0),
        byte_write(PIC1_DATA_PORT, offset1),
        byte_write(WAIT_PORT, 0),
        byte_write(PIC2_DATA_PORT, offset2),
        byte_write(WAIT_PORT, 0),
        byte_write(PIC1_DATA_PORT, 4),
        byte_write(WAIT_PORT, 0),
        byte_write(PIC2_DATA_PORT, 2),
        byte_write(WAIT_PORT, 0),
        byte_write(PIC1_DATA_PORT, MODE_8086),
        byte_write(WAIT_PORT, 0),
        byte_write(PIC2_DATA_PORT, MODE_8086),
        byte_write(WAIT_PORT, 0),
        byte_write(PIC1_DATA_PORT, mask1),
        byte_write(PIC2_DATA_PORT, mask2),
    ]
}

/// The writes that acknowledge the interrupt `vector`: none where neither
/// controller owns it; else the acknowledgement to the secondary controller
/// first, where that one owns it, and the acknowledgement to the primary
/// controller in every case, since the secondary reaches the processor
/// through the primary.
pub open spec fn end_of_interrupt_writes(offset1: u8, offset2: u8, vector: u8) -> Seq<PortWrite> {
    if owns_vector(offset2, vector) {
        seq![
            byte_write(PIC2_COMMAND_PORT, CMD_END_OF_INTERRUPT),
            byte_write(PIC1_COMMAND_PORT, CMD_END_OF_INTERRUPT),
        ]
    } else if owns_vector(offset1, vector) {
        seq![byte_write(PIC1_COMMAND_PORT, CMD_END_OF_INTERRUPT)]
    } else {
        seq![]
    }
}

/// One interrupt controller.
struct Pic {
    offset: u8,
    command_port: UnsafePort<u8>,
    data_port: UnsafePort<u8>,
}

impl Pic {
    /// Whether this controller owns the interrupt. Each controller owns
    /// eight interrupts.
    fn handles_interrupt(&self, interrupt_id: u8) -> (handles: bool)
        ensures
            handles == owns_vector(self.offset, interrupt_id),
    {
        self.offset <= interrupt_id && (interrupt_id as u16) < self.offset as u16 + 8
    }

    /// The write that tells this controller that an interrupt has been
    /// handled and that the next one may come.
    fn end_of_interrupt(&self) -> (write: PortWrite)
        ensures
            write == byte_write(self.command_port.number(), CMD_END_OF_INTERRUPT),
    {
        self.command_port.write(CMD_END_OF_INTERRUPT)
    }
}

/// The primary controller and the secondary one that is chained to it.
pub struct ChainedPics {
    pics: [Pic; 2],
}

impl ChainedPics {
    /// First vector of the primary controller.
    pub closed spec fn primary_offset(&self) -> u8 {
        self.pics[0].offset
    }

    /// First vector of the secondary controller.
    pub closed spec fn secondary_offset(&self) -> u8 {
        self.pics[1].offset
    }

    #[verifier::type_invariant]
    spec fn on_ports(&self) -> bool {
        &&& self.pics[0].command_port.number() == PIC1_COMMAND_PORT
        &&& self.pics[0].data_port.number() == PIC1_DATA_PORT
        &&& self.pics[1].command_port.number() == PIC2_COMMAND_PORT
        &&& self.pics[1].data_port.number() == PIC2_DATA_PORT
    }

    /// A pair of controllers with the given first vectors.
    pub fn new(offset1: u8, offset2: u8) -> (made: ChainedPics)
        ensures
            made.primary_offset() == offset1,
            made.secondary_offset() == offset2,
    {
        ChainedPics {
            pics: [
                Pic {
                    offset: offset1,
                    command_port: UnsafePort::new(PIC1_COMMAND_PORT),
                    data_port: UnsafePort::new(PIC1_DATA_PORT),
                },
                Pic {
                    offset: offset2,
                    command_port: UnsafePort::new(PIC2_COMMAND_PORT),
                    data_port: UnsafePort::new(PIC2_DATA_PORT),
                },
            ],
        }
    }

    /// The reads that give the interrupt masks of the two controllers, the
    /// primary's first. `initialize` takes what they return.
    pub fn read_masks(&mut self) -> (reads: [PortRead; 2])
        ensures
            *final(self) == *old(self),
            reads@ == seq![byte_read(PIC1_DATA_PORT), byte_read(PIC2_DATA_PORT)],
    {
        proof {
            use_type_invariant(&*self);
        }
        let saved_mask1: PortRead = self.pics[0].data_port.read();
        let saved_mask2: PortRead = self.pics[1].data_port.read();
        [saved_mask1, saved_mask2]
    }

    /// The writes that set up both controllers and then give each its saved
    /// interrupt mask back, so that no line is unmasked by the way.
    pub fn initialize(&mut self, saved_mask1: u8, saved_mask2: u8) -> (writes: Vec<PortWrite>)
        ensures
            *final(self) == *old(self),
            writes@ == initialize_writes(
                old(self).primary_offset(),
                old(self).secondary_offset(),
                saved_mask1,
                saved_mask2,
            ),
    {
        proof {
            use_type_invariant(&*self);
        }
        let wait_port: UnsafePort<u8> = UnsafePort::new(WAIT_PORT);
        let mut writes: Vec<PortWrite> = Vec::new();

        // Tell each controller that the initialization sequence follows.
        writes.push(self.pics[0].command_port.write(CMD_INIT));
        writes.push(wait_port.write(0));
        writes.push(self.pics[1].command_port.write(CMD_INIT));
        writes.push(wait_port.write(0));

        // Byte 1: the first vector.
        let offset1: u8 = self.pics[0].offset;
        writes.push(self.pics[0].data_port.write(offset1));
        writes.push(wait_port.write(0));
        let offset2: u8 = self.pics[1].offset;
        writes.push(self.pics[1].data_port.write(offset2));
        writes.push(wait_port.write(0));

        // Byte 2: the chaining of the two controllers.
        writes.push(self.pics[0].data_port.write(4));
        writes.push(wait_port.write(0));
        writes.push(self.pics[1].data_port.write(2));
        writes.push(wait_port.write(0));

        // Byte 3: the operating mode.
        writes.push(self.pics[0].data_port.write(MODE_8086));
        writes.push(wait_port.write(0));
        writes.push(self.pics[1].data_port.write(MODE_8086));
        writes.push(wait_port.write(0));

        writes.push(self.pics[0].data_port.write(saved_mask1));
        writes.push(self.pics[1].data_port.write(saved_mask2));
        writes
    }

    /// Whether one of the two controllers owns the interrupt.
    pub fn handles_interrupt(&self, interrupt_id: u8) -> (handles: bool)
        ensures
            handles == (owns_vector(self.primary_offset(), interrupt_id) || owns_vector(
                self.secondary_offset(),
                interrupt_id,
            )),
    {
        self.pics[0].handles_interrupt(interrupt_id) || self.pics[1].handles_interrupt(
            interrupt_id,
        )
    }

    /// The writes that acknowledge the interrupt.
    pub fn notify_end_of_interrupt(&mut self, interrupt_id: u8) -> (writes: Vec<PortWrite>)
        ensures
            *final(self) == *old(self),
            writes@ == end_of_interrupt_writes(
                old(self).primary_offset(),
                old(self).secondary_offset(),
                interrupt_id,
            ),
    {
        proof {
            use_type_invariant(&*self);
        }
        let mut writes: Vec<PortWrite> = Vec::new();
        if self.handles_interrupt(interrupt_id) {
            if self.pics[1].handles_interrupt(interrupt_id) {
                writes.push(self.pics[1].end_of_interrupt());
            }
            writes.push(self.pics[0].end_of_interrupt());
        }
        writes
    }
}

} // verus!
