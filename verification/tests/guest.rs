use qemu_wrapper::guest::{
    port_data, power_button_pressed, power_button_ports, AddressSpace, DirectHandler,
    GenericAddress, PhysicalRegion, Pm1Ports,
};
use qemu_wrapper::supervisor::Supervisor;
use qemu_wrapper::wait_status::WaitStatus;

fn pm1a(address: u64) -> GenericAddress {
    GenericAddress { address_space: AddressSpace::SystemIo, bit_width: 32, bit_offset: 0, address }
}

#[test]
fn exit_code_round_trips_through_the_debug_exit_device() {
    for exit_code in [1u8, 7, 99, 255] {
        let data = port_data(exit_code);
        let qemu_status = (i32::from(data) << 1) | 1;
        assert_eq!(qemu_status, i32::from(exit_code));
        let s = Supervisor::new(i32::from(exit_code));
        assert_eq!(s.grandchild_status(77, qemu_status << 8), Some(WaitStatus::Exited(77, 0)));
    }
    assert_eq!(port_data(7), 3);
}

#[test]
fn power_button_bit() {
    assert!(power_button_pressed(0x0100));
    assert!(power_button_pressed(0x8101));
    assert!(!power_button_pressed(0x0000));
    assert!(!power_button_pressed(0x00ff));
}

#[test]
fn power_button_registers() {
    assert_eq!(power_button_ports(false, pm1a(0x600), false), Some(Pm1Ports { status: 0x600, enable: 0x602 }));
    assert_eq!(power_button_ports(false, pm1a(0xfffd), false), Some(Pm1Ports { status: 0xfffd, enable: 0xffff }));
    assert_eq!(power_button_ports(false, pm1a(0xfffe), false), None);
    assert_eq!(power_button_ports(false, pm1a(0x1_0000), false), None);
    assert_eq!(power_button_ports(true, pm1a(0x600), false), None);
    assert_eq!(power_button_ports(false, pm1a(0x600), true), None);
    let mut memory = pm1a(0x600);
    memory.address_space = AddressSpace::SystemMemory;
    assert_eq!(power_button_ports(false, memory, false), None);
    let mut narrow = pm1a(0x600);
    narrow.bit_width = 16;
    assert_eq!(power_button_ports(false, narrow, false), None);
    let mut offset = pm1a(0x600);
    offset.bit_offset = 1;
    assert_eq!(power_button_ports(false, offset, false), None);
}

#[test]
fn direct_handler_maps_identically() {
    let handler = DirectHandler::new();
    assert_eq!(
        handler.map_physical_region(0x7fe0_0000, 36),
        PhysicalRegion {
            physical_start: 0x7fe0_0000,
            virtual_start: 0x7fe0_0000,
            region_length: 36,
            mapped_length: 36,
        }
    );
}
