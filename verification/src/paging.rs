//! Identity-paging builder: one page directory entry, one page table, a
//! flat one-to-one mapping of low physical memory.
//!
//! A paging entry is packed into 32 bits with no padding: an 8-bit
//! properties byte, then a 24-bit field split into a 16-bit low part and an
//! 8-bit high part, holding the upper 20 bits of a frame address shifted
//! left into position (the address starts at bit 12 of the packed entry).
//! The low 12 bits of any stored address are zero: only frame-aligned
//! addresses are ever stored.  Entries are only ever constructed whole,
//! never partially mutated after being written.

use vstd::prelude::*;

use crate::layout::PAGES_TABLES_ADDRESS;

verus! {

/// Size in bytes of one frame, the unit the paging structures address.
pub const PAGE_FRAME_BYTES_SIZE: u32 = 4096;

/// Properties of the one directory entry: present, writable, kernel.
pub const PAGE_DIRECTORY_ENTRY_PROPERTIES: u8 = 0b00000111;

/// Properties of every identity-mapping table entry: present, writable,
/// kernel.
pub const PAGE_TABLE_ENTRY_PROPERTIES: u8 = 0b00000111;

/// Mask of the "present" bit inside the properties byte.
pub const PAGE_PRESENT_BIT: u8 = 0b00000001;

/// Mask of the "writable" bit inside the properties byte.
pub const PAGE_WRITABLE_BIT: u8 = 0b00000010;

/// One packed paging entry, field by field in storage order; the same
/// layout serves the page directory and the page table.
#[derive(Clone, Copy, PartialEq, Eq, Structural, Debug)]
pub struct PageEntry {
    /// Present, writable, privilege and cache-control bits.
    pub properties: u8,
    /// Bits 8..24 of the packed entry.
    pub base_address_low: u16,
    /// Bits 24..32 of the packed entry.
    pub base_address_high: u8,
}

/// The entry that points at the frame-aligned address `frame_address` with
/// the given properties byte: the address's upper 20 bits shifted into
/// position behind the properties byte.
pub open spec fn spec_page_entry(properties: u8, frame_address: u32) -> PageEntry {
    PageEntry {
        properties,
        base_address_low: ((frame_address >> 8) & 0xFFFF) as u16,
        base_address_high: (frame_address >> 24) as u8,
    }
}

/// The frame address stored in a packed entry, reassembled from its two
/// parts.
pub open spec fn spec_frame_address(entry: PageEntry) -> u32 {
    (((entry.base_address_high as u32) << 16) | (entry.base_address_low as u32)) << 8
}

/// Whether the entry's present bit is set.
pub open spec fn spec_page_present(entry: PageEntry) -> bool {
    entry.properties & PAGE_PRESENT_BIT == PAGE_PRESENT_BIT
}

/// Whether the entry's writable bit is set.
pub open spec fn spec_page_writable(entry: PageEntry) -> bool {
    entry.properties & PAGE_WRITABLE_BIT == PAGE_WRITABLE_BIT
}

/// Packing a frame-aligned address into an entry and reading it back gives
/// the address unchanged, for every aligned 32-bit address.
pub proof fn lemma_page_entry_round_trip(properties: u8, frame_address: u32)
    requires
        frame_address % 4096 == 0,
    ensures
        spec_frame_address(spec_page_entry(properties, frame_address)) == frame_address,
{
    assert(frame_address % 4096 == 0 ==> (((((frame_address >> 24) as u8) as u32) << 16) | ((((
    frame_address >> 8) & 0xFFFF) as u16) as u32)) << 8 == frame_address) by (bit_vector);
}

impl PageEntry {
    /// Builds the entry that points at `frame_address` with the given
    /// properties byte.
    pub fn build(properties: u8, frame_address: u32) -> (entry: PageEntry)
        requires
            frame_address % 4096 == 0,
        ensures
            entry == spec_page_entry(properties, frame_address),
            spec_frame_address(entry) == frame_address,
    {
        proof {
            lemma_page_entry_round_trip(properties, frame_address);
        }
        PageEntry {
            properties,
            base_address_low: ((frame_address >> 8) & 0xFFFF) as u16,
            base_address_high: (frame_address >> 24) as u8,
        }
    }

    /// The frame address this entry points at.
    pub fn frame_address(&self) -> (frame_address: u32)
        ensures
            frame_address == spec_frame_address(*self),
    {
        (((self.base_address_high as u32) << 16) | (self.base_address_low as u32)) << 8
    }

    /// Whether the present bit is set.
    pub fn is_present(&self) -> (present: bool)
        ensures
            present == spec_page_present(*self),
    {
        self.properties & PAGE_PRESENT_BIT == PAGE_PRESENT_BIT
    }

    /// Whether the writable bit is set.
    pub fn is_writable(&self) -> (writable: bool)
        ensures
            writable == spec_page_writable(*self),
    {
        self.properties & PAGE_WRITABLE_BIT == PAGE_WRITABLE_BIT
    }
}

/// The full identity-paging structure: the single directory entry pointing
/// at the page table, and the table entries mapping low memory one-to-one.
pub struct IdentityPaging {
    /// The one directory entry, pointing at the page table's frame.
    pub directory_entry: PageEntry,
    /// The table entries: entry `n` maps the frame at `n * 4096`.
    pub table_entries: Vec<PageEntry>,
}

/// Builds the identity mapping of all physical memory below `limit_bytes`:
/// one directory entry pointing at the fixed page-table frame, and one
/// present, writable, kernel-privileged table entry per frame from address
/// zero up to the limit — and none at or above it.  The machine-facing
/// shell stores the entries at their fixed addresses, loads the directory
/// address into the page-table-base register and sets the paging-enable
/// bit, last of all bring-up steps.  Every fixed address written during
/// bring-up must lie below `limit_bytes`, or it becomes unreachable the
/// instant paging activates.
pub fn build_identity_paging(limit_bytes: u32) -> (paging: IdentityPaging)
    requires
        limit_bytes % 4096 == 0,
    ensures
        paging.directory_entry == spec_page_entry(
            PAGE_DIRECTORY_ENTRY_PROPERTIES,
            PAGES_TABLES_ADDRESS,
        ),
        paging.table_entries@.len() == limit_bytes / 4096,
        forall|frame: int|
            0 <= frame < paging.table_entries@.len() ==> paging.table_entries@[frame]
                == spec_page_entry(PAGE_TABLE_ENTRY_PROPERTIES, (4096 * frame) as u32),
        forall|frame: int|
            0 <= frame < paging.table_entries@.len() ==> {
                &&& spec_page_present(paging.table_entries@[frame])
                &&& spec_page_writable(paging.table_entries@[frame])
                &&& spec_frame_address(paging.table_entries@[frame]) == 4096 * frame
                &&& 4096 * frame < limit_bytes
            },
{
    proof {
        assert(PAGES_TABLES_ADDRESS % 4096 == 0) by (bit_vector);
    }
    let directory_entry = PageEntry::build(PAGE_DIRECTORY_ENTRY_PROPERTIES, PAGES_TABLES_ADDRESS);

    let frames: u32 = limit_bytes / 4096;
    proof {
        vstd::arithmetic::div_mod::lemma_fundamental_div_mod(limit_bytes as int, 4096);
    }
    let mut table_entries: Vec<PageEntry> = Vec::new();
    let mut frame: u32 = 0;
    while frame < frames
        invariant
            frame <= frames,
            4096 * frames == limit_bytes,
            table_entries@.len() == frame,
            forall|built: int|
                0 <= built < frame ==> table_entries@[built] == spec_page_entry(
                    PAGE_TABLE_ENTRY_PROPERTIES,
                    (4096 * built) as u32,
                ),
        decreases frames - frame,
    {
        proof {
            assert(4096 * frame < 4096 * frames) by (nonlinear_arith)
                requires
                    frame < frames,
            ;
            vstd::arithmetic::div_mod::lemma_mod_multiples_basic(frame as int, 4096);
        }
        let frame_address: u32 = 4096 * frame;
        table_entries.push(PageEntry::build(PAGE_TABLE_ENTRY_PROPERTIES, frame_address));
        frame = frame + 1;
    }
    proof {
        assert(PAGE_TABLE_ENTRY_PROPERTIES & PAGE_PRESENT_BIT == PAGE_PRESENT_BIT) by (bit_vector);
        assert(PAGE_TABLE_ENTRY_PROPERTIES & PAGE_WRITABLE_BIT == PAGE_WRITABLE_BIT)
            by (bit_vector);
        assert forall|built: int| 0 <= built < table_entries@.len() implies {
            &&& spec_frame_address(table_entries@[built]) == 4096 * built
            &&& 4096 * built < limit_bytes
        } by {
            assert(4096 * built < 4096 * (frames as int)) by (nonlinear_arith)
                requires
                    0 <= built < frames,
            ;
            vstd::arithmetic::div_mod::lemma_mod_multiples_basic(built, 4096);
            lemma_page_entry_round_trip(PAGE_TABLE_ENTRY_PROPERTIES, (4096 * built) as u32);
        }
    }
    IdentityPaging { directory_entry, table_entries }
}

} // verus!
