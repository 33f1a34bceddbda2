use smallos_hal::cpu::is_intel_cpu;
use smallos_hal::kvec::KernelVec;
use smallos_hal::memmap::get_memory_map;
use smallos_hal::memmap::get_ram_amount;
use smallos_hal::memmap::meaningful_area_count;
use smallos_hal::memmap::MemoryArea;
use smallos_hal::paging::build_identity_paging;
use smallos_hal::startup::startup_check;
use smallos_hal::startup::StartupCheck;

/// Raw boot-stage words for the given records: base and length 64 bits
/// wide, a 32-bit type code, 32 bits of padding, all little parts beyond
/// 32 bits zero.
fn boot_words(records: &[(u32, u32, u32)]) -> Vec<u32> {
    let mut words = vec![0u32; 60];
    for (index, &(base, length, area_type)) in records.iter().enumerate() {
        words[6 * index] = base;
        words[6 * index + 2] = length;
        words[6 * index + 4] = area_type;
    }
    words
}

#[test]
fn boot_stage_array_decodes_and_terminates_on_the_zero_base() {
    let words = boot_words(&[(0, 0x9FC00, 1), (0x9FC00, 0x400, 0), (0, 0, 0)]);
    let areas = get_memory_map(&words);
    assert_eq!(areas.len(), 10);
    assert_eq!(areas[0].get_base_address(), 0);
    assert_eq!(areas[0].get_length(), 0x9FC00);
    assert!(areas[0].is_usuable());
    assert_eq!(areas[1].get_base_address(), 0x9FC00);
    assert_eq!(areas[1].get_length(), 0x400);
    assert!(!areas[1].is_usuable());
    assert_eq!(meaningful_area_count(&areas), 2);
}

#[test]
fn first_entry_may_start_at_address_zero() {
    let words = boot_words(&[(0, 0x1000, 1), (0x1000, 0x1000, 1), (0x2000, 0x1000, 2)]);
    let areas = get_memory_map(&words);
    let count = meaningful_area_count(&areas);
    assert!(count >= 1);
}

#[test]
fn implausibly_high_base_ends_the_list() {
    let words = boot_words(&[(0, 0x1000, 1), (17000001, 0x1000, 1), (0x2000, 0x1000, 1)]);
    let areas = get_memory_map(&words);
    assert_eq!(meaningful_area_count(&areas), 1);
}

#[test]
fn a_full_array_of_real_regions_has_ten_entries() {
    let records: Vec<(u32, u32, u32)> =
        (0..10u32).map(|index| (0x1000 * (index + 1), 0x1000, 1)).collect();
    let words = boot_words(&records);
    let areas = get_memory_map(&words);
    assert_eq!(meaningful_area_count(&areas), 10);
}

#[test]
fn type_code_one_alone_means_usable() {
    let words = boot_words(&[(0x1000, 0x1000, 1), (0x2000, 0x1000, 2), (0x3000, 0x1000, 0)]);
    let areas = get_memory_map(&words);
    assert!(areas[0].is_usuable());
    assert!(!areas[1].is_usuable());
    assert!(!areas[2].is_usuable());
}

#[test]
fn a_fresh_memory_area_is_empty_and_reserved() {
    let area = MemoryArea::new();
    assert_eq!(area.get_base_address(), 0);
    assert_eq!(area.get_length(), 0);
    assert!(!area.is_usuable());
}

#[test]
fn ram_kilobytes_convert_to_bytes() {
    assert_eq!(get_ram_amount(15360), 15360000);
    assert_eq!(get_ram_amount(0), 0);
    assert_eq!(get_ram_amount(1), 1000);
}

#[test]
fn identity_mapping_covers_every_frame_below_the_limit() {
    let paging = build_identity_paging(0x110000);
    assert_eq!(paging.table_entries.len(), 272);
    for (frame, entry) in paging.table_entries.iter().enumerate() {
        assert!(entry.is_present());
        assert!(entry.is_writable());
        assert_eq!(entry.frame_address(), 4096 * frame as u32);
    }
    assert!((paging.table_entries.len() as u32) * 4096 <= 0x110000);
}

#[test]
fn directory_entry_points_at_the_page_table_frame() {
    let paging = build_identity_paging(0x110000);
    assert!(paging.directory_entry.is_present());
    assert!(paging.directory_entry.is_writable());
    assert_eq!(paging.directory_entry.frame_address(), 0x111000);
    assert_eq!(paging.directory_entry.base_address_low, 0x111 << 4);
    assert_eq!(paging.directory_entry.base_address_high, 0);
}

#[test]
fn a_zero_limit_maps_nothing() {
    let paging = build_identity_paging(0);
    assert_eq!(paging.table_entries.len(), 0);
}

#[test]
fn vendor_gate_accepts_intel_only() {
    assert!(is_intel_cpu(0x756E6547));
    assert!(!is_intel_cpu(0x68747541));
    assert!(!is_intel_cpu(0));
}

#[test]
fn startup_check_reports_each_failure() {
    assert_eq!(startup_check(true, 15360000), StartupCheck::Proceed);
    assert_eq!(startup_check(false, 15360000), StartupCheck::UnsupportedCpu);
    assert_eq!(startup_check(true, 15360001), StartupCheck::WrongRamAmount);
    assert_eq!(startup_check(false, 0), StartupCheck::UnsupportedCpu);
}

#[test]
fn kernel_vec_is_placed_where_asked() {
    let vector: KernelVec<u32> = KernelVec::new(0x20000);
    assert_eq!(vector.location, 0x20000);
    assert_eq!(vector.length, 0);
    assert_eq!(vector.size, 4);
}
