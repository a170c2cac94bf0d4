//! The arithmetic of the UEFI test guest that waits for the ACPI power button and then reports
//! its exit code through QEMU's `isa-debug-exit` device.
use crate::wait_status::{spec_grandchild_status, WaitStatus, EXIT_CODE_SUCCESS};
use vstd::prelude::*;

verus! {

/// PM1 status and enable register bit of the power button.
pub const PM1_POWER_BUTTON: u16 = 0x0100;

/// The exit status that QEMU's `isa-debug-exit` device gives QEMU for a byte written to its
/// port: the byte doubled, plus one.
pub open spec fn debug_exit_status(data: u8) -> int {
    data as int * 2 + 1
}

/// The byte that makes QEMU exit with `exit_code` through `isa-debug-exit`. Only odd codes can be
/// produced, since the device always sets the lowest bit.
pub fn port_data(exit_code: u8) -> (r: u8)
    requires
        exit_code % 2 == 1,
    ensures
        r == exit_code / 2,
        debug_exit_status(r) == exit_code,
{
    exit_code / 2
}

/// Whether a PM1 status value has the power button bit set.
pub fn power_button_pressed(pm1_status: u16) -> (r: bool)
    ensures
        r == (pm1_status & PM1_POWER_BUTTON != 0),
{
    pm1_status & PM1_POWER_BUTTON != 0
}

/// The address space of an ACPI generic address.
#[derive(Clone, Copy, PartialEq, Eq, Structural, Debug)]
pub enum AddressSpace {
    SystemMemory,
    SystemIo,
    Other,
}

/// An ACPI generic address, as the guest reads it from the FADT.
#[derive(Clone, Copy, PartialEq, Eq, Structural, Debug)]
pub struct GenericAddress {
    pub address_space: AddressSpace,
    pub bit_width: u8,
    pub bit_offset: u8,
    pub address: u64,
}

/// The I/O ports of the PM1a status and enable registers.
#[derive(Clone, Copy, PartialEq, Eq, Structural, Debug)]
pub struct Pm1Ports {
    pub status: u16,
    pub enable: u16,
}

/// The ports through which the guest can enable and watch the power button: `None` where the
/// firmware does not offer a fixed power button in a single PM1a event block of two 16-bit
/// registers in I/O space (the guest cannot go on then).
pub fn power_button_ports(
    power_button_is_control_method: bool,
    pm1a_event_block: GenericAddress,
    pm1b_event_block_present: bool,
) -> (r: Option<Pm1Ports>)
    ensures
        r == (if !power_button_is_control_method && pm1a_event_block.address_space
            == AddressSpace::SystemIo && pm1a_event_block.bit_width == 32
            && pm1a_event_block.bit_offset == 0 && !pm1b_event_block_present
            && pm1a_event_block.address + 2 <= u16::MAX {
            Some(
                Pm1Ports {
                    status: pm1a_event_block.address as u16,
                    enable: (pm1a_event_block.address + 2) as u16,
                },
            )
        } else {
            None
        }),
{
    if power_button_is_control_method || pm1a_event_block.address_space != AddressSpace::SystemIo
        || pm1a_event_block.bit_width != 32 || pm1a_event_block.bit_offset != 0
        || pm1b_event_block_present || pm1a_event_block.address > 0xfffd {
        return None;
    }
    let status = pm1a_event_block.address as u16;
    Some(Pm1Ports { status, enable: status + 2 })
}

/// A mapping of physical memory, as the ACPI table reader asks for one.
#[derive(Clone, Copy, PartialEq, Eq, Structural, Debug)]
pub struct PhysicalRegion {
    pub physical_start: usize,
    pub virtual_start: usize,
    pub region_length: usize,
    pub mapped_length: usize,
}

/// ACPI memory access for a guest whose physical memory is identity mapped (as under UEFI).
#[derive(Clone, Copy, PartialEq, Eq, Structural, Debug)]
pub struct DirectHandler {}

impl DirectHandler {
    pub fn new() -> (r: Self)
        ensures
            r == (DirectHandler {}),
    {
        Self {}
    }

    /// Maps `size` bytes at `physical_address` to the same virtual address.
    pub fn map_physical_region(&self, physical_address: usize, size: usize) -> (r: PhysicalRegion)
        requires
            physical_address != 0,
        ensures
            r == (PhysicalRegion {
                physical_start: physical_address,
                virtual_start: physical_address,
                region_length: size,
                mapped_length: size,
            }),
    {
        PhysicalRegion {
            physical_start: physical_address,
            virtual_start: physical_address,
            region_length: size,
            mapped_length: size,
        }
    }
}

/// A guest that writes `port_data(exit_code)` to the exit port makes the wrapper report
/// success, when the wrapper is configured with the same (odd) exit code.
pub proof fn law_guest_exit_is_wrapper_success(pid: i32, exit_code: u8)
    requires
        exit_code % 2 == 1,
    ensures
        spec_grandchild_status(
            WaitStatus::Exited(pid, debug_exit_status((exit_code / 2) as u8) as i32),
            exit_code as i32,
        ) == WaitStatus::Exited(pid, EXIT_CODE_SUCCESS),
{
}

} // verus!
