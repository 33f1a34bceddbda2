//! The fixed physical-address contract of the bring-up layer.
//!
//! Data is shared with the earlier boot stage and with the interrupt
//! handlers through regions at fixed physical addresses, not through
//! structured objects.  This module names every such region in one place and
//! proves that the regions this layer writes never overlap, so that a store
//! into one of them can never corrupt another.  All writes happen below the
//! identity-mapped limit or before paging is enabled, under the implicit
//! one-to-one mapping of the freshly booted machine.

use vstd::prelude::*;

verus! {

/// Linear address of the first of the 256 packed gate descriptors.
pub const IDT_START_ADDRESS: u32 = 0x11000;

/// Size in bytes of one packed gate descriptor.
pub const IDT_DESCRIPTOR_SIZE: u32 = 8;

/// Number of interrupt vectors, and therefore of gate descriptors.
pub const IDT_DESCRIPTORS_AMOUNT: u32 = 256;

/// Size in bytes of the fully populated descriptor table.
pub const IDT_BYTES: u32 = 2048;

/// Address of the 6-byte packed image consumed by the table-load
/// instruction: a 16-bit byte limit followed by the 32-bit table base.
pub const IDT_REGISTER_ADDRESS: u32 = 0x11800;

/// Size in bytes of the table-register image.
pub const IDT_REGISTER_BYTES: u32 = 6;

/// Address of the 32-bit tick counter owned by the timer interrupt handler.
pub const TICK_COUNTER_ADDRESS: u32 = 0x11806;

/// Size in bytes of the tick counter.
pub const TICK_COUNTER_BYTES: u32 = 4;

/// Address of the RAM size left by the boot stage, in kilobytes.
pub const RAM_SIZE_ADDRESS: u32 = 0x1180A;

/// Size in bytes of the RAM-size value.
pub const RAM_SIZE_BYTES: u32 = 4;

/// Base address of the boot-stage memory-region array.
pub const MEMORY_MAP_BASE_ADDRESS: u32 = 0x1180C;

/// Stride in bytes between two memory-region records: the boot stage stores
/// the base address and the length 64 bits wide and the type code 32 bits
/// wide, with 32 bits of padding after the type code.
pub const MEMORY_MAP_RECORD_STRIDE: u32 = 24;

/// Number of memory-region records read from the boot-stage array.
pub const MEMORY_MAP_MAX_RECORDS: u32 = 10;

/// Size in bytes of the whole memory-region array.
pub const MEMORY_MAP_BYTES: u32 = 240;

/// Address of the page directory; one entry is written, the rest of the
/// frame is reserved for future entries.
pub const PAGES_DIRECTORY_ADDRESS: u32 = 0x110000;

/// Space in bytes reserved for the page directory.
pub const PAGES_DIRECTORY_BYTES: u32 = 4096;

/// Address of the single page table holding the identity mapping.
pub const PAGES_TABLES_ADDRESS: u32 = 0x111000;

/// Space in bytes reserved for the page table: 1024 packed 4-byte entries.
pub const PAGES_TABLES_BYTES: u32 = 4096;

/// Two address regions are disjoint when one ends before the other starts.
pub open spec fn regions_disjoint(base_a: u32, bytes_a: u32, base_b: u32, bytes_b: u32) -> bool {
    base_a + bytes_a <= base_b || base_b + bytes_b <= base_a
}

/// The regions this layer writes (descriptor table, table-register image,
/// tick counter, page directory, page table) are pairwise disjoint, so no
/// store into one of them can reach another.
pub proof fn lemma_written_regions_disjoint()
    ensures
        regions_disjoint(IDT_START_ADDRESS, IDT_BYTES, IDT_REGISTER_ADDRESS, IDT_REGISTER_BYTES),
        regions_disjoint(IDT_START_ADDRESS, IDT_BYTES, TICK_COUNTER_ADDRESS, TICK_COUNTER_BYTES),
        regions_disjoint(
            IDT_START_ADDRESS,
            IDT_BYTES,
            PAGES_DIRECTORY_ADDRESS,
            PAGES_DIRECTORY_BYTES,
        ),
        regions_disjoint(IDT_START_ADDRESS, IDT_BYTES, PAGES_TABLES_ADDRESS, PAGES_TABLES_BYTES),
        regions_disjoint(
            IDT_REGISTER_ADDRESS,
            IDT_REGISTER_BYTES,
            TICK_COUNTER_ADDRESS,
            TICK_COUNTER_BYTES,
        ),
        regions_disjoint(
            IDT_REGISTER_ADDRESS,
            IDT_REGISTER_BYTES,
            PAGES_DIRECTORY_ADDRESS,
            PAGES_DIRECTORY_BYTES,
        ),
        regions_disjoint(
            IDT_REGISTER_ADDRESS,
            IDT_REGISTER_BYTES,
            PAGES_TABLES_ADDRESS,
            PAGES_TABLES_BYTES,
        ),
        regions_disjoint(
            TICK_COUNTER_ADDRESS,
            TICK_COUNTER_BYTES,
            PAGES_DIRECTORY_ADDRESS,
            PAGES_DIRECTORY_BYTES,
        ),
        regions_disjoint(
            TICK_COUNTER_ADDRESS,
            TICK_COUNTER_BYTES,
            PAGES_TABLES_ADDRESS,
            PAGES_TABLES_BYTES,
        ),
        regions_disjoint(
            PAGES_DIRECTORY_ADDRESS,
            PAGES_DIRECTORY_BYTES,
            PAGES_TABLES_ADDRESS,
            PAGES_TABLES_BYTES,
        ),
{
}

/// The boot-stage regions (RAM size, memory-region array) are only read by
/// this layer; each is disjoint from every region this layer writes.  The
/// two boot-stage regions overlap each other by two bytes, a quirk of the
/// boot stage that is harmless because neither is ever written here.
pub proof fn lemma_boot_regions_never_written()
    ensures
        regions_disjoint(RAM_SIZE_ADDRESS, RAM_SIZE_BYTES, IDT_START_ADDRESS, IDT_BYTES),
        regions_disjoint(RAM_SIZE_ADDRESS, RAM_SIZE_BYTES, IDT_REGISTER_ADDRESS, IDT_REGISTER_BYTES),
        regions_disjoint(RAM_SIZE_ADDRESS, RAM_SIZE_BYTES, TICK_COUNTER_ADDRESS, TICK_COUNTER_BYTES),
        regions_disjoint(
            RAM_SIZE_ADDRESS,
            RAM_SIZE_BYTES,
            PAGES_DIRECTORY_ADDRESS,
            PAGES_DIRECTORY_BYTES,
        ),
        regions_disjoint(RAM_SIZE_ADDRESS, RAM_SIZE_BYTES, PAGES_TABLES_ADDRESS, PAGES_TABLES_BYTES),
        regions_disjoint(MEMORY_MAP_BASE_ADDRESS, MEMORY_MAP_BYTES, IDT_START_ADDRESS, IDT_BYTES),
        regions_disjoint(
            MEMORY_MAP_BASE_ADDRESS,
            MEMORY_MAP_BYTES,
            IDT_REGISTER_ADDRESS,
            IDT_REGISTER_BYTES,
        ),
        regions_disjoint(
            MEMORY_MAP_BASE_ADDRESS,
            MEMORY_MAP_BYTES,
            TICK_COUNTER_ADDRESS,
            TICK_COUNTER_BYTES,
        ),
        regions_disjoint(
            MEMORY_MAP_BASE_ADDRESS,
            MEMORY_MAP_BYTES,
            PAGES_DIRECTORY_ADDRESS,
            PAGES_DIRECTORY_BYTES,
        ),
        regions_disjoint(
            MEMORY_MAP_BASE_ADDRESS,
            MEMORY_MAP_BYTES,
            PAGES_TABLES_ADDRESS,
            PAGES_TABLES_BYTES,
        ),
{
}

} // verus!
