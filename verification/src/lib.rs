//! Bring-up core of a discrete-GPU driver: chipset identification, firmware
//! path resolution, and a hardware time source that bounds polling loops
//! during device initialization.

use vstd::prelude::*;

pub mod firmware;
pub mod gpu;
pub mod io;
pub mod modinfo;
pub mod num;
pub mod regs;
pub mod request;
pub mod sim;
pub mod timer;

verus! {

/// The failures the bring-up core can report.
#[derive(Clone, Copy, PartialEq, Eq, Structural, Debug)]
pub enum Error {
    /// The chipset identifier read from hardware is not in the catalog.
    UnknownDevice,
    /// The register region is inaccessible.
    ResourceUnavailable,
    /// A condition was not met, or the device clock stalled, within the budget.
    Timeout,
    /// The host could not supply a requested firmware blob.
    FirmwareRequestFailed,
}

} // verus!

