//! The hypervisor capability and its interface-version gate.

use vstd::prelude::*;

use crate::errors::VmError;

verus! {

/// The lowest device interface version this control plane accepts.
pub const MIN_INTERFACE_VERSION: i32 = 12;

/// The capability to the virtualization device, once opened.
///
/// Opening the device is an I/O step performed by the embedding program;
/// this type records the interface version the device reported and admits
/// only versions at or above [`MIN_INTERFACE_VERSION`].
#[derive(Clone, Copy, Debug, PartialEq, Eq, Structural)]
pub struct HypervisorHandle {
    pub interface_version: i32,
}

impl HypervisorHandle {
    /// Accepts the interface version reported by an opened device, or
    /// rejects it as unsupported.
    pub fn from_reported_version(version: i32) -> (r: Result<HypervisorHandle, VmError>)
        ensures
            version >= MIN_INTERFACE_VERSION <==> r is Ok,
            r is Ok ==> r->Ok_0 == (HypervisorHandle { interface_version: version }),
            r is Err ==> r->Err_0 == (VmError::UnsupportedError { version }),
    {
        if version >= MIN_INTERFACE_VERSION {
            Ok(HypervisorHandle { interface_version: version })
        } else {
            Err(VmError::UnsupportedError { version })
        }
    }

    /// The interface version the device reported.
    pub fn interface_version(&self) -> (v: i32)
        ensures
            v == self.interface_version,
    {
        self.interface_version
    }
}

} // verus!
