use smallos_hal::idt::descriptor_address;
use smallos_hal::idt::load_idt;
use smallos_hal::idt::to_linear_address;
use smallos_hal::idt::GateDescriptor;
use smallos_hal::idt::Idt;

#[test]
fn default_table_routes_every_vector_to_the_fault_handler() {
    let fault_handler: u32 = 0x10C350;
    let idt = Idt::new(fault_handler);
    assert_eq!(idt.entries.len(), 256);
    for vector in 0..256 {
        let gate = idt.entries[vector];
        assert_eq!(gate.handler_address(), fault_handler);
        assert!(gate.is_present());
    }
}

#[test]
fn installed_descriptor_decodes_to_its_address() {
    let mut idt = Idt::new(0x10C350);
    for &(vector, address) in
        [(0usize, 0x12345678u32), (32, 0xDEADBEEF), (255, 0xFFFFFFFF), (7, 0)].iter()
    {
        idt.install_descriptor(vector, address);
        let gate = idt.entries[vector];
        assert_eq!(gate.handler_address(), address);
        assert_eq!(gate.base_low, (address & 0xFFFF) as u16);
        assert_eq!(gate.base_high, (address >> 16) as u16);
        assert!(gate.is_present());
    }
}

#[test]
fn installing_one_vector_keeps_the_others() {
    let mut idt = Idt::new(0x10C350);
    idt.install_descriptor(32, 0xAABBCCDD);
    assert_eq!(idt.entries[31].handler_address(), 0x10C350);
    assert_eq!(idt.entries[33].handler_address(), 0x10C350);
    assert_eq!(idt.entries[32].handler_address(), 0xAABBCCDD);
}

#[test]
fn gate_round_trip_reproduces_the_address_exactly() {
    let gate = GateDescriptor::for_handler(0x10A234);
    assert_eq!(gate.handler_address(), 0x10A234);
    assert_eq!(gate.base_low, 0xA234);
    assert_eq!(gate.base_high, 0x0010);
}

#[test]
fn gate_encodes_to_its_eight_packed_bytes() {
    let gate = GateDescriptor::for_handler(0x10A234);
    let bytes = gate.encode();
    assert_eq!(bytes, vec![0x34, 0xA2, 0x08, 0x00, 0x00, 0x8E, 0x10, 0x00]);
}

#[test]
fn gate_bytes_decode_back_to_the_descriptor() {
    let gate = GateDescriptor::for_handler(0xFEDCBA98);
    let decoded = GateDescriptor::decode(&gate.encode());
    assert_eq!(decoded, gate);
    assert_eq!(decoded.handler_address(), 0xFEDCBA98);
    assert_eq!(decoded.selector, 0x0008);
    assert_eq!(decoded.unused, 0);
}

#[test]
fn register_image_covers_the_populated_table() {
    let (_, register) = load_idt(0x10C350);
    assert_eq!(register.limit, 2047);
    assert_eq!(register.base, 0x11000);
    assert_eq!(register.encode(), vec![0xFF, 0x07, 0x00, 0x10, 0x01, 0x00]);
}

#[test]
fn descriptor_slots_are_eight_bytes_apart() {
    assert_eq!(descriptor_address(0), 0x11000);
    assert_eq!(descriptor_address(1), 0x11008);
    assert_eq!(descriptor_address(32), 0x11100);
    assert_eq!(descriptor_address(255), 0x117F8);
}

#[test]
fn link_time_addresses_are_rebased_to_run_time() {
    assert_eq!(to_linear_address(0x1200, 0x1000, 0x10000), 0x10200);
    assert_eq!(to_linear_address(0x1000, 0x1000, 0x10000), 0x10000);
}
