use vmcontrol::dirty::count_dirty_pages;
use vmcontrol::errors::VmError;
use vmcontrol::exit::{Action, ExitEvent, ExitLoop, LoopState};
use vmcontrol::hypervisor::{HypervisorHandle, MIN_INTERFACE_VERSION};
use vmcontrol::machine::{
    reference_guest_program, VirtualMachine, REFERENCE_EXPECTED_DIRTY_PAGES, REFERENCE_GUEST_BASE,
    REFERENCE_MEM_SIZE,
};
use vmcontrol::vcpu::GeneralRegisters;

fn reference_vm() -> VirtualMachine {
    let handle = HypervisorHandle::from_reported_version(MIN_INTERFACE_VERSION).unwrap();
    VirtualMachine::new(&handle, REFERENCE_MEM_SIZE, REFERENCE_GUEST_BASE)
}

#[test]
fn version_below_minimum_is_unsupported() {
    let r = HypervisorHandle::from_reported_version(MIN_INTERFACE_VERSION - 1);
    assert_eq!(r, Err(VmError::UnsupportedError { version: MIN_INTERFACE_VERSION - 1 }));
}

#[test]
fn version_at_minimum_is_accepted() {
    let h = HypervisorHandle::from_reported_version(MIN_INTERFACE_VERSION).unwrap();
    assert_eq!(h.interface_version(), MIN_INTERFACE_VERSION);
}

#[test]
fn new_vm_region_is_zeroed() {
    let vm = reference_vm();
    assert_eq!(vm.region.size(), REFERENCE_MEM_SIZE);
    assert_eq!(vm.entry_point(), REFERENCE_GUEST_BASE);
    assert_eq!(vm.region.slot, 0);
    assert!(vm.region.dirty_tracking);
    for i in 0..REFERENCE_MEM_SIZE {
        assert_eq!(vm.region.read_byte(i), Some(0));
    }
}

#[test]
fn load_program_round_trips() {
    let mut vm = reference_vm();
    let program = reference_guest_program();
    assert_eq!(vm.load_program(&program, 37), Ok(()));
    for (i, byte) in program.iter().enumerate() {
        assert_eq!(vm.region.read_byte(37 + i), Some(*byte));
    }
    // No byte outside the loaded range was written.
    for i in 0..37 {
        assert_eq!(vm.region.read_byte(i), Some(0));
    }
    for i in 37 + program.len()..REFERENCE_MEM_SIZE {
        assert_eq!(vm.region.read_byte(i), Some(0));
    }
    assert_eq!(vm.region.read_byte(REFERENCE_MEM_SIZE), None);
}

#[test]
fn load_program_out_of_bounds_leaves_mapping_unchanged() {
    let mut vm = reference_vm();
    let program = reference_guest_program();
    assert_eq!(vm.load_program(&program, 7), Ok(()));
    // One byte past the last admissible offset.
    let bad_offset: usize = REFERENCE_MEM_SIZE - program.len() + 1;
    assert_eq!(vm.load_program(&program, bad_offset), Err(VmError::OutOfBoundsError));
    assert_eq!(vm.region.size(), REFERENCE_MEM_SIZE);
    for (i, byte) in program.iter().enumerate() {
        assert_eq!(vm.region.read_byte(7 + i), Some(*byte));
    }
}

#[test]
fn load_program_at_region_end_with_payload_fails() {
    // Scenario: offset equal to the region size and a non-empty payload.
    let mut vm = reference_vm();
    assert_eq!(
        vm.load_program(&[0x90], REFERENCE_MEM_SIZE),
        Err(VmError::OutOfBoundsError)
    );
    for i in 0..REFERENCE_MEM_SIZE {
        assert_eq!(vm.region.read_byte(i), Some(0));
    }
}

#[test]
fn load_program_huge_offset_does_not_wrap() {
    let mut vm = reference_vm();
    assert_eq!(
        vm.load_program(&[1, 2, 3], usize::MAX),
        Err(VmError::OutOfBoundsError)
    );
}

#[test]
fn load_program_exactly_filling_region_succeeds() {
    let mut vm = reference_vm();
    let payload = vec![0xabu8; REFERENCE_MEM_SIZE];
    assert_eq!(vm.load_program(&payload, 0), Ok(()));
    assert_eq!(vm.region.read_byte(0), Some(0xab));
    assert_eq!(vm.region.read_byte(REFERENCE_MEM_SIZE - 1), Some(0xab));
}

#[test]
fn load_empty_program_at_region_end_succeeds() {
    let mut vm = reference_vm();
    assert_eq!(vm.load_program(&[], REFERENCE_MEM_SIZE), Ok(()));
    for i in 0..REFERENCE_MEM_SIZE {
        assert_eq!(vm.region.read_byte(i), Some(0));
    }
}

#[test]
fn create_vcpu_and_init_registers() {
    let vm = reference_vm();
    let mut vcpu = vm.create_vcpu(0);
    assert_eq!(vcpu.id, 0);
    vcpu.init_registers(
        vm.entry_point(),
        GeneralRegisters { rax: 2, rbx: 3 },
        2,
    );
    let regs = vcpu.registers();
    assert_eq!(regs.rip, REFERENCE_GUEST_BASE);
    assert_eq!(regs.rax, 2);
    assert_eq!(regs.rbx, 3);
    assert_eq!(regs.rflags, 2);
    assert_eq!(regs.cs_base, 0);
    assert_eq!(regs.cs_selector, 0);
}

#[test]
fn io_in_keeps_running() {
    let mut l = ExitLoop::new(REFERENCE_EXPECTED_DIRTY_PAGES);
    let a = l.handle_event(&ExitEvent::IoIn { port: 0x3f8, data: 0 });
    assert_eq!(a, Action::Continue);
    assert_eq!(l.state(), LoopState::Running);
}

#[test]
fn io_out_keeps_running() {
    let mut l = ExitLoop::new(REFERENCE_EXPECTED_DIRTY_PAGES);
    let a = l.handle_event(&ExitEvent::IoOut { port: 0x3f8, data: 0x35 });
    assert_eq!(a, Action::Continue);
    assert_eq!(l.state(), LoopState::Running);
}

#[test]
fn mmio_read_keeps_running() {
    let mut l = ExitLoop::new(REFERENCE_EXPECTED_DIRTY_PAGES);
    let a = l.handle_event(&ExitEvent::MmioRead { address: 0x8000, length: 1 });
    assert_eq!(a, Action::Continue);
    assert_eq!(l.state(), LoopState::Running);
}

#[test]
fn mmio_write_demands_dirty_validation() {
    let mut l = ExitLoop::new(REFERENCE_EXPECTED_DIRTY_PAGES);
    let a = l.handle_event(&ExitEvent::MmioWrite { address: 0x8000, data: 0 });
    assert_eq!(a, Action::ValidateDirtyPages);
    assert_eq!(l.state(), LoopState::Running);
}

#[test]
fn halt_ends_the_loop() {
    let mut l = ExitLoop::new(REFERENCE_EXPECTED_DIRTY_PAGES);
    let a = l.handle_event(&ExitEvent::Halt);
    assert_eq!(a, Action::Stop);
    assert_eq!(l.state(), LoopState::Halted);
    assert!(!l.is_running());
}

#[test]
fn unexpected_exit_faults_with_raw_code() {
    let mut l = ExitLoop::new(REFERENCE_EXPECTED_DIRTY_PAGES);
    let a = l.handle_event(&ExitEvent::Unexpected { raw_code: 17 });
    assert_eq!(a, Action::Stop);
    assert_eq!(
        l.state(),
        LoopState::Faulted(VmError::UnexpectedExitError { raw_code: 17 })
    );
}

#[test]
fn matching_dirty_count_keeps_running() {
    let mut l = ExitLoop::new(REFERENCE_EXPECTED_DIRTY_PAGES);
    assert_eq!(
        l.handle_event(&ExitEvent::MmioWrite { address: 0x8000, data: 0 }),
        Action::ValidateDirtyPages
    );
    assert_eq!(l.apply_dirty_count(1), Action::Continue);
    assert_eq!(l.state(), LoopState::Running);
}

#[test]
fn zero_dirty_count_after_mmio_write_faults() {
    let mut l = ExitLoop::new(REFERENCE_EXPECTED_DIRTY_PAGES);
    l.handle_event(&ExitEvent::MmioWrite { address: 0x8000, data: 0 });
    assert_eq!(l.apply_dirty_count(0), Action::Stop);
    assert_eq!(
        l.state(),
        LoopState::Faulted(VmError::DirtyPageMismatchError { observed: 0, expected: 1 })
    );
}

#[test]
fn excess_dirty_count_after_mmio_write_faults() {
    let mut l = ExitLoop::new(REFERENCE_EXPECTED_DIRTY_PAGES);
    l.handle_event(&ExitEvent::MmioWrite { address: 0x8000, data: 0 });
    assert_eq!(l.apply_dirty_count(2), Action::Stop);
    assert_eq!(
        l.state(),
        LoopState::Faulted(VmError::DirtyPageMismatchError { observed: 2, expected: 1 })
    );
}

#[test]
fn dirty_bitmap_with_one_set_bit_keeps_running() {
    let mut l = ExitLoop::new(REFERENCE_EXPECTED_DIRTY_PAGES);
    l.handle_event(&ExitEvent::MmioWrite { address: 0x8000, data: 0 });
    // One set bit spread over several words.
    assert_eq!(l.apply_dirty_bitmap(&[0, 0x10, 0]), Action::Continue);
    assert_eq!(l.state(), LoopState::Running);
}

#[test]
fn dirty_bitmap_with_two_set_bits_faults() {
    let mut l = ExitLoop::new(REFERENCE_EXPECTED_DIRTY_PAGES);
    l.handle_event(&ExitEvent::MmioWrite { address: 0x8000, data: 0 });
    assert_eq!(l.apply_dirty_bitmap(&[1, 0x10]), Action::Stop);
    assert_eq!(
        l.state(),
        LoopState::Faulted(VmError::DirtyPageMismatchError { observed: 2, expected: 1 })
    );
}

#[test]
fn reference_workload_reaches_halted() {
    // The exits the reference program produces, in order: the serial
    // write of '5' (2 + 3 + '0'), the serial read back, the MMIO write
    // with exactly one dirty page, the MMIO read, then the halt.
    let mut vm = reference_vm();
    let program = reference_guest_program();
    assert_eq!(vm.load_program(&program, 0), Ok(()));
    let mut vcpu = vm.create_vcpu(0);
    vcpu.init_registers(vm.entry_point(), GeneralRegisters { rax: 2, rbx: 3 }, 2);

    let mut l = ExitLoop::new(REFERENCE_EXPECTED_DIRTY_PAGES);
    assert_eq!(
        l.handle_event(&ExitEvent::IoOut { port: 0x3f8, data: 0x35 }),
        Action::Continue
    );
    assert_eq!(
        l.handle_event(&ExitEvent::IoIn { port: 0x3f8, data: 0 }),
        Action::Continue
    );
    assert_eq!(
        l.handle_event(&ExitEvent::MmioWrite { address: 0x8000, data: 0 }),
        Action::ValidateDirtyPages
    );
    assert_eq!(l.apply_dirty_count(1), Action::Continue);
    assert_eq!(
        l.handle_event(&ExitEvent::MmioRead { address: 0x8000, length: 1 }),
        Action::Continue
    );
    assert_eq!(l.handle_event(&ExitEvent::Halt), Action::Stop);
    assert_eq!(l.state(), LoopState::Halted);
}

#[test]
fn dirty_count_of_clear_bitmap_is_zero() {
    let bitmap = vec![0u64; 4];
    assert_eq!(count_dirty_pages(&bitmap), 0);
    assert_eq!(count_dirty_pages(&[]), 0);
}

#[test]
fn dirty_count_adds_set_bits_across_words() {
    assert_eq!(count_dirty_pages(&[0b1011]), 3);
    assert_eq!(count_dirty_pages(&[0b1011, 0x8000_0000_0000_0000]), 4);
    assert_eq!(count_dirty_pages(&[u64::MAX]), 64);
    assert_eq!(count_dirty_pages(&[1, 0, 1, 1]), 3);
}

#[test]
fn reference_program_bytes() {
    let program = reference_guest_program();
    assert_eq!(
        program,
        vec![
            0xba, 0xf8, 0x03, 0x00, 0xd8, 0x04, 0x30, 0xee, 0xec, 0xc6, 0x06, 0x00, 0x80, 0x00,
            0x8a, 0x16, 0x00, 0x80, 0xf4,
        ]
    );
    assert_eq!(program[6], b'0');
}
