//! A minimal control plane for a single hardware-virtualized guest.
//!
//! The library models the VM/vCPU lifecycle: a hypervisor capability with an
//! interface-version check, a guest-physical memory region with bounds-checked
//! program loading, a virtual machine owning the region and an entry address,
//! a vCPU register snapshot, the exit-dispatch state machine, and the
//! dirty-page bitmap arithmetic used to validate memory-mapped I/O writes.
//!
//! The hypervisor device itself is an I/O boundary: opening the capability,
//! registering memory with the hardware, and running the guest are performed
//! by the embedding program, which feeds the observed exit events and dirty
//! bitmaps into the verified state machine defined here.

pub mod dirty;
pub mod errors;
pub mod exit;
pub mod hypervisor;
pub mod machine;
pub mod memory;
pub mod vcpu;
