//! Physical memory map reader: decodes the fixed-layout region array left
//! by the boot stage.
//!
//! The boot stage queried the firmware and stored the detected regions as a
//! fixed-stride array at a fixed physical address: base address and length
//! each 64 bits wide, a 32-bit type code, and 32 bits of padding per
//! record.  Only the low 32 bits of base and length matter on this
//! platform, so each record is read as three 32-bit words out of six.  The
//! machine-facing shell loads the raw words; this module decodes them and
//! decides where the list of real entries ends.

use vstd::prelude::*;

verus! {

/// Number of 32-bit words occupied by one boot-stage record.
pub const MEMORY_MAP_RECORD_WORDS: usize = 6;

/// Number of records decoded from the boot-stage array.
pub const MEMORY_AREAS_MAX_AMOUNT: usize = 10;

/// Type code that marks a region as usable RAM.
pub const USABLE_AREA_TYPE: u32 = 1;

/// Base addresses above this ceiling cannot be real RAM on this platform;
/// an entry starting past it is firmware noise, not a region.
pub const BASE_ADDRESS_LIMIT: u32 = 17000000;

/// One decoded memory region: base address, length, and whether its type
/// code marked it usable.
#[derive(Clone, Copy, PartialEq, Eq, Structural, Debug)]
pub struct MemoryArea {
    /// Base address of the region.
    pub base_address: u32,
    /// Length of the region in bytes.
    pub length: u32,
    /// Whether the type code marked the region usable.
    pub usuable: bool,
}

impl MemoryArea {
    /// A region with default values: empty, at address zero, not usable.
    pub fn new() -> (area: MemoryArea)
        ensures
            area.base_address == 0,
            area.length == 0,
            !area.usuable,
    {
        MemoryArea { base_address: 0, length: 0, usuable: false }
    }

    /// Getter of the region's base address.
    pub fn get_base_address(&self) -> (base_address: u32)
        ensures
            base_address == self.base_address,
    {
        self.base_address
    }

    /// Getter of the region's length.
    pub fn get_length(&self) -> (length: u32)
        ensures
            length == self.length,
    {
        self.length
    }

    /// Whether the region is usable RAM.
    pub fn is_usuable(&self) -> (usuable: bool)
        ensures
            usuable == self.usuable,
    {
        self.usuable
    }

    /// Sets the base address.
    fn set_base_address(&mut self, base_address: u32)
        ensures
            *final(self) == (MemoryArea { base_address, ..*old(self) }),
    {
        self.base_address = base_address;
    }

    /// Sets the length.
    fn set_length(&mut self, length: u32)
        ensures
            *final(self) == (MemoryArea { length, ..*old(self) }),
    {
        self.length = length;
    }

    /// Sets whether the region is usable RAM.
    fn set_is_usuable(&mut self, usuable: bool)
        ensures
            *final(self) == (MemoryArea { usuable, ..*old(self) }),
    {
        self.usuable = usuable;
    }
}

/// The region decoded from record `record` of the raw boot-stage words:
/// base at word 0, length at word 2, type code at word 4 of the record.
pub open spec fn spec_decoded_area(words: Seq<u32>, record: int) -> MemoryArea {
    MemoryArea {
        base_address: words[6 * record],
        length: words[6 * record + 2],
        usuable: words[6 * record + 4] == USABLE_AREA_TYPE,
    }
}

/// Decodes the first ten records of the boot-stage array, given its raw
/// 32-bit words in address order.
pub fn get_memory_map(words: &Vec<u32>) -> (areas: Vec<MemoryArea>)
    requires
        words@.len() >= 60,
    ensures
        areas@.len() == MEMORY_AREAS_MAX_AMOUNT,
        forall|record: int|
            0 <= record < MEMORY_AREAS_MAX_AMOUNT ==> areas@[record] == spec_decoded_area(
                words@,
                record,
            ),
{
    let mut areas: Vec<MemoryArea> = Vec::new();
    let mut record: usize = 0;
    while record < MEMORY_AREAS_MAX_AMOUNT
        invariant
            record <= MEMORY_AREAS_MAX_AMOUNT,
            words@.len() >= 60,
            areas@.len() == record,
            forall|decoded: int|
                0 <= decoded < record ==> areas@[decoded] == spec_decoded_area(words@, decoded),
        decreases MEMORY_AREAS_MAX_AMOUNT - record,
    {
        let word_base: usize = MEMORY_MAP_RECORD_WORDS * record;
        let mut area = MemoryArea::new();
        area.set_base_address(words[word_base]);
        area.set_length(words[word_base + 2]);
        area.set_is_usuable(words[word_base + 4] == USABLE_AREA_TYPE);
        areas.push(area);
        record = record + 1;
    }
    areas
}

/// Whether the entry at `index` ends the list of real regions: a zero base
/// address anywhere after the first entry, or a base address above the
/// platform's RAM ceiling.
pub open spec fn spec_list_end(index: int, area: MemoryArea) -> bool {
    (index != 0 && area.base_address == 0) || area.base_address > BASE_ADDRESS_LIMIT
}

/// How many leading entries of the decoded map are real regions: every
/// entry before the returned count is real, and the entry at the count, if
/// any, ends the list.  Callers ignore everything from that entry on.
pub fn meaningful_area_count(areas: &Vec<MemoryArea>) -> (count: usize)
    ensures
        count <= areas@.len(),
        forall|index: int| 0 <= index < count ==> !spec_list_end(index, areas@[index]),
        count < areas@.len() ==> spec_list_end(count as int, areas@[count as int]),
{
    let mut count: usize = 0;
    while count < areas.len()
        invariant
            count <= areas@.len(),
            forall|index: int| 0 <= index < count ==> !spec_list_end(index, areas@[index]),
        decreases areas@.len() - count,
    {
        let base_address = areas[count].get_base_address();
        if count != 0 && base_address == 0 || base_address > BASE_ADDRESS_LIMIT {
            return count;
        }
        count = count + 1;
    }
    count
}

/// Converts the RAM amount left by the boot stage, in kilobytes, into
/// bytes.
pub fn get_ram_amount(ram_kilobytes: u32) -> (ram_bytes: u32)
    requires
        ram_kilobytes * 1000 <= u32::MAX,
    ensures
        ram_bytes == ram_kilobytes * 1000,
{
    ram_kilobytes * 1000
}

} // verus!
