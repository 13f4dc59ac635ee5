//! The virtual CPU's register snapshot and its initialization.
//!
//! The concrete register layout here is the flat, unsegmented one of the
//! single target architecture this system supports: the code segment base
//! and selector are forced to zero so the instruction pointer addresses
//! guest-physical memory directly.

use vstd::prelude::*;

verus! {

/// The general-purpose register values supplied at initialization.
#[derive(Clone, Copy, Debug, PartialEq, Eq, Structural)]
pub struct GeneralRegisters {
    pub rax: u64,
    pub rbx: u64,
}

/// The register snapshot of one vCPU.
#[derive(Clone, Copy, Debug, PartialEq, Eq, Structural)]
pub struct RegisterState {
    /// Instruction pointer.
    pub rip: u64,
    pub rax: u64,
    pub rbx: u64,
    /// Flags register.
    pub rflags: u64,
    /// Code-segment base; zero for flat addressing.
    pub cs_base: u64,
    /// Code-segment selector; zero for flat addressing.
    pub cs_selector: u16,
}

/// A virtual CPU bound to its owning machine: a numeric identifier and the
/// register snapshot the embedding program writes to the hardware before
/// running the guest.
#[derive(Clone, Copy, Debug, PartialEq, Eq, Structural)]
pub struct VirtualCpu {
    pub id: u64,
    pub regs: RegisterState,
}

impl VirtualCpu {
    /// A fresh vCPU with a cleared register snapshot.
    pub fn new(id: u64) -> (c: VirtualCpu)
        ensures
            c.id == id,
            c.regs == (RegisterState {
                rip: 0,
                rax: 0,
                rbx: 0,
                rflags: 0,
                cs_base: 0,
                cs_selector: 0,
            }),
    {
        VirtualCpu {
            id,
            regs: RegisterState { rip: 0, rax: 0, rbx: 0, rflags: 0, cs_base: 0, cs_selector: 0 },
        }
    }

    /// Points the instruction pointer at `entry_point`, clears the code
    /// segment for flat addressing, and sets the supplied general-purpose
    /// registers and flags.
    pub fn init_registers(&mut self, entry_point: u64, general: GeneralRegisters, flags: u64)
        ensures
            final(self).id == old(self).id,
            final(self).regs == (RegisterState {
                rip: entry_point,
                rax: general.rax,
                rbx: general.rbx,
                rflags: flags,
                cs_base: 0,
                cs_selector: 0,
            }),
    {
        self.regs = RegisterState {
            rip: entry_point,
            rax: general.rax,
            rbx: general.rbx,
            rflags: flags,
            cs_base: 0,
            cs_selector: 0,
        };
    }

    /// The current register snapshot.
    pub fn registers(&self) -> (r: RegisterState)
        ensures
            r == self.regs,
    {
        self.regs
    }
}

} // verus!
