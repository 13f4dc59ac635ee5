//! The error taxonomy of the control plane.
//!
//! Every failure is fatal in the base design: nothing is recovered locally,
//! each error aborts the owning run with a diagnostic.

use vstd::prelude::*;

verus! {

/// One error kind per failure class of the VM lifecycle.
#[derive(Clone, Copy, Debug, PartialEq, Eq, Structural)]
pub enum VmError {
    /// The virtualization device is unavailable or permission was denied.
    AccessError,
    /// The device reported an interface version below the required minimum;
    /// carries the reported version.
    UnsupportedError { version: i32 },
    /// Allocating the host-backed guest memory block failed.
    MemoryMapError,
    /// Registering the memory block with the VM resource failed.
    RegionRegistrationError,
    /// A program load would run past the end of the mapped region.
    OutOfBoundsError,
    /// VM or vCPU resource creation failed at the platform limit.
    ResourceExhaustedError,
    /// A hardware execution-resume failure that is not a recognized exit.
    RunError,
    /// An exit reason outside the handled set; carries the raw exit code.
    UnexpectedExitError { raw_code: u64 },
    /// The dirty-page count observed after a memory-mapped I/O write differs
    /// from the count expected for the current workload.
    DirtyPageMismatchError { observed: u64, expected: u64 },
}

} // verus!
