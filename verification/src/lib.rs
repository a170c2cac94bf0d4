//! Verified core of a QEMU supervisor that turns an interrupt into an orderly ACPI powerdown.
use vstd::prelude::*;

pub mod arguments;
pub mod command;
pub mod guest;
pub mod number;
pub mod raw_mode;
pub mod ready;
pub mod signals;
pub mod supervisor;
pub mod terminal;
pub mod text;
pub mod wait_status;

verus! {
} // verus!
