//! The virtual machine: one guest memory region, an entry address, and the
//! operations the lifecycle needs before the exit loop starts.

use vstd::prelude::*;

use crate::errors::VmError;
use crate::hypervisor::HypervisorHandle;
use crate::memory::{spec_loaded, GuestMemoryRegion};
use crate::vcpu::{RegisterState, VirtualCpu};

verus! {

/// Region size of the reference workload, in bytes.
pub const REFERENCE_MEM_SIZE: usize = 0x4000;

/// Guest-physical base address of the reference workload's region.
pub const REFERENCE_GUEST_BASE: u64 = 0x1000;

/// The dirty-page count the reference program produces by the time of its
/// single MMIO write: the one page its code was loaded into.
pub const REFERENCE_EXPECTED_DIRTY_PAGES: u64 = 1;

/// A virtual machine: the VM-level resource is held by the embedding
/// program; this type owns the guest memory region's contents and the
/// guest entry address.
///
/// Host-side failures of construction (`MemoryMapError` when the host
/// block cannot be allocated, `RegionRegistrationError` when the hardware
/// refuses the region) are raised by the embedding program, which performs
/// those I/O steps.
pub struct VirtualMachine {
    /// The single region, registered as slot 0 with dirty tracking on.
    pub region: GuestMemoryRegion,
    /// Where the guest starts executing: the region's base address.
    pub entry_point: u64,
}

impl VirtualMachine {
    /// Builds a machine with one zero-initialized region of `mem_size`
    /// bytes at `guest_phys_base`, registered as slot 0 with dirty-page
    /// tracking enabled; the entry address is the region base.
    ///
    /// The hypervisor capability is required so that no machine exists
    /// without an accepted device interface version.
    pub fn new(_handle: &HypervisorHandle, mem_size: usize, guest_phys_base: u64) -> (vm:
        VirtualMachine)
        ensures
            vm.region.slot == 0u32,
            vm.region.guest_base == guest_phys_base,
            vm.region.dirty_tracking == true,
            vm.region.mapping@.len() == mem_size,
            forall|i: int| 0 <= i < mem_size ==> vm.region.mapping@[i] == 0u8,
            vm.entry_point == guest_phys_base,
    {
        VirtualMachine {
            region: GuestMemoryRegion::new(0, guest_phys_base, mem_size, true),
            entry_point: guest_phys_base,
        }
    }

    /// Copies `bytes` into the region's mapping starting at `offset`;
    /// all-or-nothing, `OutOfBoundsError` past the end of the region.
    pub fn load_program(&mut self, bytes: &[u8], offset: usize) -> (r: Result<(), VmError>)
        ensures
            final(self).entry_point == old(self).entry_point,
            final(self).region.slot == old(self).region.slot,
            final(self).region.guest_base == old(self).region.guest_base,
            final(self).region.dirty_tracking == old(self).region.dirty_tracking,
            final(self).region.mapping@.len() == old(self).region.mapping@.len(),
            r is Ok <==> offset + bytes@.len() <= old(self).region.mapping@.len(),
            r is Ok ==> final(self).region.mapping@ == spec_loaded(
                old(self).region.mapping@,
                bytes@,
                offset as int,
            ),
            r is Err ==> r->Err_0 == VmError::OutOfBoundsError && final(self).region.mapping@
                == old(self).region.mapping@,
    {
        self.region.load(bytes, offset)
    }

    /// Creates a vCPU bound to this machine, with a cleared register
    /// snapshot. The per-CPU hardware resource is created by the embedding
    /// program, which reports `ResourceExhaustedError` at the platform
    /// vCPU limit.
    pub fn create_vcpu(&self, id: u64) -> (c: VirtualCpu)
        ensures
            c.id == id,
            c.regs == (RegisterState {
                rip: 0,
                rax: 0,
                rbx: 0,
                rflags: 0,
                cs_base: 0,
                cs_selector: 0,
            }),
    {
        VirtualCpu::new(id)
    }

    /// The guest entry address.
    pub fn entry_point(&self) -> (a: u64)
        ensures
            a == self.entry_point,
    {
        self.entry_point
    }
}

/// The fixed instruction sequence of the reference workload: write a sum
/// as an ASCII digit to a serial port, read the port back, perform one
/// MMIO write and one MMIO read, then halt.
pub fn reference_guest_program() -> (v: Vec<u8>)
    ensures
        v@ == seq![
            0xbau8, 0xf8u8, 0x03u8,  // mov $0x3f8, %dx
            0x00u8, 0xd8u8,  // add %bl, %al
            0x04u8, 0x30u8,  // add $'0', %al
            0xeeu8,  // out %al, (%dx)
            0xecu8,  // in (%dx), %al
            0xc6u8, 0x06u8, 0x00u8, 0x80u8, 0x00u8,  // movb $0, (0x8000): MMIO write
            0x8au8, 0x16u8, 0x00u8, 0x80u8,  // mov (0x8000), %dl: MMIO read
            0xf4u8,  // hlt
        ],
{
    let mut v: Vec<u8> = Vec::new();
    v.push(0xba);
    v.push(0xf8);
    v.push(0x03);
    v.push(0x00);
    v.push(0xd8);
    v.push(0x04);
    v.push(0x30);
    v.push(0xee);
    v.push(0xec);
    v.push(0xc6);
    v.push(0x06);
    v.push(0x00);
    v.push(0x80);
    v.push(0x00);
    v.push(0x8a);
    v.push(0x16);
    v.push(0x00);
    v.push(0x80);
    v.push(0xf4);
    proof {
        assert(v@ =~= seq![
            0xbau8, 0xf8u8, 0x03u8, 0x00u8, 0xd8u8, 0x04u8, 0x30u8, 0xeeu8, 0xecu8, 0xc6u8,
            0x06u8, 0x00u8, 0x80u8, 0x00u8, 0x8au8, 0x16u8, 0x00u8, 0x80u8, 0xf4u8,
        ]);
    }
    v
}

} // verus!
