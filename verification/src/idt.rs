//! Interrupt table manager: gate descriptors, the table, and its
//! load-register image.
//!
//! One packed 8-byte gate descriptor exists per interrupt vector:
//!
//! - bits 0..16: low half of the handler's linear address
//! - bits 16..32: code-segment selector of the handler
//! - bits 32..40: reserved, zero
//! - bits 40..48: type and attributes (gate size, privilege ring, present)
//! - bits 48..64: high half of the handler's linear address
//!
//! The table is built as a vector of descriptors; the machine-facing shell
//! encodes each one at its fixed address.  Handler addresses stored here must
//! be linear run-time addresses: a link-time address is first translated by
//! `to_linear_address`.

use vstd::prelude::*;

use crate::layout::IDT_DESCRIPTORS_AMOUNT;
use crate::layout::IDT_DESCRIPTOR_SIZE;
use crate::layout::IDT_START_ADDRESS;

verus! {

/// Code-segment selector stored in every gate descriptor: the kernel code
/// segment, at index 1 of the global descriptor table, ring 0.
pub const KERNEL_CODE_SELECTOR: u16 = 0x0008;

/// Attribute byte of every gate descriptor built here: present, ring 0,
/// 32-bit interrupt gate.
pub const INTERRUPT_GATE_FLAGS: u8 = 0b10001110;

/// Mask of the "present" bit inside the attribute byte.
pub const GATE_PRESENT_BIT: u8 = 0b10000000;

/// One packed gate descriptor, field by field in storage order.
#[derive(Clone, Copy, PartialEq, Eq, Structural, Debug)]
pub struct GateDescriptor {
    /// Bits 0..16 of the handler's linear address.
    pub base_low: u16,
    /// Code-segment selector of the handler.
    pub selector: u16,
    /// Reserved byte, always zero.
    pub unused: u8,
    /// Type and attribute byte.
    pub flags: u8,
    /// Bits 16..32 of the handler's linear address.
    pub base_high: u16,
}

/// A vector's gate descriptor for the handler at `address`.
pub open spec fn spec_gate_descriptor(address: u32) -> GateDescriptor {
    GateDescriptor {
        base_low: (address & 0xFFFF) as u16,
        selector: KERNEL_CODE_SELECTOR,
        unused: 0,
        flags: INTERRUPT_GATE_FLAGS,
        base_high: (address >> 16) as u16,
    }
}

/// The handler address stored in a gate descriptor, reassembled from its
/// two halves.
pub open spec fn spec_handler_address(gate: GateDescriptor) -> u32 {
    ((gate.base_high as u32) << 16) | (gate.base_low as u32)
}

/// Whether the "present" attribute bit of a gate descriptor is set.
pub open spec fn spec_gate_present(gate: GateDescriptor) -> bool {
    gate.flags & GATE_PRESENT_BIT == GATE_PRESENT_BIT
}

/// Splitting an address into the two descriptor halves and reassembling
/// them gives the address back, for every 32-bit address.
pub proof fn lemma_gate_round_trip(address: u32)
    ensures
        spec_handler_address(spec_gate_descriptor(address)) == address,
{
    assert(((((address >> 16) as u16) as u32) << 16) | (((address & 0xFFFF) as u16) as u32)
        == address) by (bit_vector);
}

/// Every descriptor built by `spec_gate_descriptor` has the present bit set.
pub proof fn lemma_gate_built_present(address: u32)
    ensures
        spec_gate_present(spec_gate_descriptor(address)),
{
    assert(0b10001110u8 & 0b10000000u8 == 0b10000000u8) by (bit_vector);
}

impl GateDescriptor {
    /// Builds the descriptor that routes a vector to the handler at
    /// `address`: the address split into low and high halves, the kernel
    /// code selector, and a present 32-bit interrupt gate.
    pub fn for_handler(address: u32) -> (gate: GateDescriptor)
        ensures
            gate == spec_gate_descriptor(address),
            spec_handler_address(gate) == address,
            spec_gate_present(gate),
    {
        proof {
            lemma_gate_round_trip(address);
            lemma_gate_built_present(address);
        }
        GateDescriptor {
            base_low: (address & 0xFFFF) as u16,
            selector: KERNEL_CODE_SELECTOR,
            unused: 0,
            flags: INTERRUPT_GATE_FLAGS,
            base_high: (address >> 16) as u16,
        }
    }

    /// The handler address this descriptor routes to.
    pub fn handler_address(&self) -> (address: u32)
        ensures
            address == spec_handler_address(*self),
    {
        ((self.base_high as u32) << 16) | (self.base_low as u32)
    }

    /// Whether the present attribute bit is set.
    pub fn is_present(&self) -> (present: bool)
        ensures
            present == spec_gate_present(*self),
    {
        self.flags & GATE_PRESENT_BIT == GATE_PRESENT_BIT
    }
}

/// The 8 bytes of a gate descriptor in storage order, every multi-byte
/// field little-endian and without padding.
pub open spec fn spec_encode_gate(gate: GateDescriptor) -> Seq<u8> {
    seq![
        (gate.base_low & 0xFF) as u8,
        (gate.base_low >> 8) as u8,
        (gate.selector & 0xFF) as u8,
        (gate.selector >> 8) as u8,
        gate.unused,
        gate.flags,
        (gate.base_high & 0xFF) as u8,
        (gate.base_high >> 8) as u8,
    ]
}

/// A gate descriptor read back from 8 raw bytes.
pub open spec fn spec_decode_gate(bytes: Seq<u8>) -> GateDescriptor
    recommends
        bytes.len() == 8,
{
    GateDescriptor {
        base_low: (bytes[0] as u16) | ((bytes[1] as u16) << 8),
        selector: (bytes[2] as u16) | ((bytes[3] as u16) << 8),
        unused: bytes[4],
        flags: bytes[5],
        base_high: (bytes[6] as u16) | ((bytes[7] as u16) << 8),
    }
}

/// Encoding a gate descriptor to its 8 bytes and decoding them gives the
/// descriptor back.
pub proof fn lemma_gate_bytes_round_trip(gate: GateDescriptor)
    ensures
        spec_decode_gate(spec_encode_gate(gate)) == gate,
{
    let low = gate.base_low;
    let sel = gate.selector;
    let high = gate.base_high;
    assert((((low & 0xFF) as u8) as u16) | ((((low >> 8) as u8) as u16) << 8) == low)
        by (bit_vector);
    assert((((sel & 0xFF) as u8) as u16) | ((((sel >> 8) as u8) as u16) << 8) == sel)
        by (bit_vector);
    assert((((high & 0xFF) as u8) as u16) | ((((high >> 8) as u8) as u16) << 8) == high)
        by (bit_vector);
}

impl GateDescriptor {
    /// Encodes this descriptor into the 8 bytes the processor reads.
    pub fn encode(&self) -> (bytes: Vec<u8>)
        ensures
            bytes@ == spec_encode_gate(*self),
    {
        let mut bytes: Vec<u8> = Vec::new();
        bytes.push((self.base_low & 0xFF) as u8);
        bytes.push((self.base_low >> 8) as u8);
        bytes.push((self.selector & 0xFF) as u8);
        bytes.push((self.selector >> 8) as u8);
        bytes.push(self.unused);
        bytes.push(self.flags);
        bytes.push((self.base_high & 0xFF) as u8);
        bytes.push((self.base_high >> 8) as u8);
        proof {
            assert(bytes@ =~= spec_encode_gate(*self));
        }
        bytes
    }

    /// Decodes a gate descriptor from the 8 bytes at its table slot.
    pub fn decode(bytes: &Vec<u8>) -> (gate: GateDescriptor)
        requires
            bytes@.len() == 8,
        ensures
            gate == spec_decode_gate(bytes@),
    {
        GateDescriptor {
            base_low: (bytes[0] as u16) | ((bytes[1] as u16) << 8),
            selector: (bytes[2] as u16) | ((bytes[3] as u16) << 8),
            unused: bytes[4],
            flags: bytes[5],
            base_high: (bytes[6] as u16) | ((bytes[7] as u16) << 8),
        }
    }
}

/// Linear address of the table slot holding the descriptor of `index`.
pub fn descriptor_address(index: usize) -> (address: u32)
    requires
        index < 256,
    ensures
        address == IDT_START_ADDRESS + IDT_DESCRIPTOR_SIZE * index,
{
    IDT_START_ADDRESS + IDT_DESCRIPTOR_SIZE * (index as u32)
}

/// Translates a link-time code address into the linear run-time address
/// the processor will jump to: the link-time code origin is replaced by the
/// run-time load base.  Only linear addresses may be stored in a gate
/// descriptor.
pub fn to_linear_address(link_address: u32, link_origin: u32, load_base: u32) -> (linear: u32)
    requires
        link_origin <= link_address,
        link_address - link_origin + load_base <= u32::MAX,
    ensures
        linear == link_address - link_origin + load_base,
{
    link_address - link_origin + load_base
}

/// The packed image consumed once by the table-load instruction: the
/// table's byte limit and the linear base address of the first descriptor.
#[derive(Clone, Copy, PartialEq, Eq, Structural, Debug)]
pub struct IdtRegister {
    /// Byte limit of the populated region: entry size times entry count,
    /// minus one — the offset of the region's last byte, not its byte
    /// count, as the table-load instruction expects it.
    pub limit: u16,
    /// Linear address of the first gate descriptor.
    pub base: u32,
}

/// The 6 bytes of the table-register image, limit first, each field
/// little-endian, no padding.
pub open spec fn spec_encode_register(register: IdtRegister) -> Seq<u8> {
    seq![
        (register.limit & 0xFF) as u8,
        (register.limit >> 8) as u8,
        (register.base & 0xFF) as u8,
        ((register.base >> 8) & 0xFF) as u8,
        ((register.base >> 16) & 0xFF) as u8,
        (register.base >> 24) as u8,
    ]
}

impl IdtRegister {
    /// Encodes this image into the 6 bytes the table-load instruction reads.
    pub fn encode(&self) -> (bytes: Vec<u8>)
        ensures
            bytes@ == spec_encode_register(*self),
    {
        let mut bytes: Vec<u8> = Vec::new();
        bytes.push((self.limit & 0xFF) as u8);
        bytes.push((self.limit >> 8) as u8);
        bytes.push((self.base & 0xFF) as u8);
        bytes.push(((self.base >> 8) & 0xFF) as u8);
        bytes.push(((self.base >> 16) & 0xFF) as u8);
        bytes.push((self.base >> 24) as u8);
        proof {
            assert(bytes@ =~= spec_encode_register(*self));
        }
        bytes
    }
}

/// The interrupt descriptor table: one gate descriptor per vector.
pub struct Idt {
    /// The descriptors, one per vector, in vector order.
    pub entries: Vec<GateDescriptor>,
}

impl Idt {
    /// A well-formed table has exactly one descriptor per vector.
    pub open spec fn wf(&self) -> bool {
        self.entries@.len() == 256
    }

    /// Builds the table in its default state: all 256 vectors routed to the
    /// single fault handler at `default_handler_address`, each descriptor
    /// present, so that an uninitialized interrupt class halts safely
    /// instead of jumping to garbage.
    pub fn new(default_handler_address: u32) -> (idt: Idt)
        ensures
            idt.wf(),
            forall|v: int|
                0 <= v < 256 ==> idt.entries@[v] == spec_gate_descriptor(default_handler_address),
            forall|v: int|
                0 <= v < 256 ==> spec_handler_address(idt.entries@[v]) == default_handler_address,
            forall|v: int| 0 <= v < 256 ==> spec_gate_present(idt.entries@[v]),
    {
        let mut entries: Vec<GateDescriptor> = Vec::new();
        let mut index: usize = 0;
        while index < 256
            invariant
                index <= 256,
                entries@.len() == index,
                forall|v: int|
                    0 <= v < index ==> entries@[v] == spec_gate_descriptor(
                        default_handler_address,
                    ),
            decreases 256 - index,
        {
            entries.push(GateDescriptor::for_handler(default_handler_address));
            index = index + 1;
        }
        proof {
            lemma_gate_round_trip(default_handler_address);
            lemma_gate_built_present(default_handler_address);
        }
        Idt { entries }
    }

    /// Writes a descriptor for the handler at `address` into the table
    /// slot of vector `index`; every other vector keeps its descriptor.
    /// The caller must respect the vector domain: there is no error path.
    pub fn install_descriptor(&mut self, index: usize, address: u32)
        requires
            old(self).wf(),
            index < 256,
        ensures
            final(self).wf(),
            final(self).entries@ == old(self).entries@.update(
                index as int,
                spec_gate_descriptor(address),
            ),
            spec_handler_address(final(self).entries@[index as int]) == address,
            spec_gate_present(final(self).entries@[index as int]),
    {
        let gate = GateDescriptor::for_handler(address);
        self.entries.set(index, gate);
    }

    /// The table-register image describing this table: the byte limit of
    /// the populated descriptors (their size in bytes, minus one) and the
    /// table's fixed linear base address.
    pub fn register_image(&self) -> (register: IdtRegister)
        requires
            self.wf(),
        ensures
            register.limit == IDT_DESCRIPTOR_SIZE * IDT_DESCRIPTORS_AMOUNT - 1,
            register.base == IDT_START_ADDRESS,
    {
        IdtRegister { limit: 2047, base: IDT_START_ADDRESS }
    }
}

/// Builds the default table together with its load-register image.  The
/// machine-facing shell stores both at their fixed addresses and then issues
/// the table-load instruction, after all descriptors are installed and
/// while interrupts are still masked.
pub fn load_idt(default_handler_address: u32) -> (built: (Idt, IdtRegister))
    ensures
        built.0.wf(),
        forall|v: int|
            0 <= v < 256 ==> built.0.entries@[v] == spec_gate_descriptor(default_handler_address),
        built.1.limit == IDT_DESCRIPTOR_SIZE * IDT_DESCRIPTORS_AMOUNT - 1,
        built.1.base == IDT_START_ADDRESS,
{
    let idt = Idt::new(default_handler_address);
    let register = idt.register_image();
    (idt, register)
}

/// Installing a descriptor for `address` at vector `index` and then decoding
/// that vector's stored descriptor gives back exactly `address`, split
/// correctly into its two halves, for every vector and every 32-bit address.
pub proof fn lemma_install_then_decode(table: Seq<GateDescriptor>, index: int, address: u32)
    requires
        0 <= index < table.len(),
    ensures
        spec_handler_address(table.update(index, spec_gate_descriptor(address))[index]) == address,
        table.update(index, spec_gate_descriptor(address))[index].base_low == (address
            & 0xFFFF) as u16,
        table.update(index, spec_gate_descriptor(address))[index].base_high == (address
            >> 16) as u16,
        spec_gate_present(table.update(index, spec_gate_descriptor(address))[index]),
{
    lemma_gate_round_trip(address);
    lemma_gate_built_present(address);
}

} // verus!
