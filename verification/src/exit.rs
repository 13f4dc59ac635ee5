//! The exit-dispatch state machine.
//!
//! Each time the guest exits, the embedding program classifies the exit as
//! an [`ExitEvent`] and feeds it to the [`ExitLoop`]. The machine starts in
//! `Running`, stays there across I/O and MMIO-read exits, asks for a
//! dirty-page validation after every MMIO write, halts on a halt exit, and
//! faults on anything else or on a dirty-page mismatch.

use vstd::prelude::*;

use crate::dirty::{count_dirty_pages, count_set_bits};
use crate::errors::VmError;

verus! {

/// One exit of the guest, classified. Produced per run, consumed
/// immediately, never persisted.
#[derive(Clone, Copy, Debug, PartialEq, Eq, Structural)]
pub enum ExitEvent {
    /// The guest read a byte from an I/O port.
    IoIn { port: u16, data: u8 },
    /// The guest wrote a byte to an I/O port.
    IoOut { port: u16, data: u8 },
    /// The guest read from a memory-mapped I/O address.
    MmioRead { address: u64, length: usize },
    /// The guest wrote to a memory-mapped I/O address.
    MmioWrite { address: u64, data: u8 },
    /// The guest executed a halt instruction.
    Halt,
    /// Any exit reason outside the handled set, with its raw code.
    Unexpected { raw_code: u64 },
}

/// The state of the exit loop.
#[derive(Clone, Copy, Debug, PartialEq, Eq, Structural)]
pub enum LoopState {
    /// The guest may still run; the loop asks for another exit.
    Running,
    /// Terminal success: the guest halted.
    Halted,
    /// Terminal failure, carrying the diagnostic.
    Faulted(VmError),
}

/// What the embedding program must do next after handing in an event.
#[derive(Clone, Copy, Debug, PartialEq, Eq, Structural)]
pub enum Action {
    /// Run the guest again and hand in the next exit.
    Continue,
    /// Query the dirty-page log and hand the observed count to
    /// [`ExitLoop::apply_dirty_count`] before running the guest again.
    ValidateDirtyPages,
    /// The loop reached a terminal state; stop running the guest.
    Stop,
}

/// The exit-handling state machine: dispatches events while `Running` and
/// validates the dirty-page invariant after every MMIO write.
pub struct ExitLoop {
    /// Current state; `Halted` and `Faulted` are terminal.
    pub state: LoopState,
    /// The dirty-page count the current workload is expected to produce by
    /// the time of each MMIO write.
    pub expected_dirty_pages: u64,
}

impl ExitLoop {
    /// A fresh loop in `Running`, expecting `expected_dirty_pages` set bits
    /// at every dirty-page validation.
    pub fn new(expected_dirty_pages: u64) -> (r: ExitLoop)
        ensures
            r.state == LoopState::Running,
            r.expected_dirty_pages == expected_dirty_pages,
    {
        ExitLoop { state: LoopState::Running, expected_dirty_pages }
    }

    /// Dispatches one exit event while `Running`.
    ///
    /// I/O and MMIO-read exits keep the loop `Running`; an MMIO write keeps
    /// it `Running` but demands a dirty-page validation; a halt ends the
    /// loop in `Halted`; any other exit ends it in `Faulted` carrying the
    /// raw exit code.
    pub fn handle_event(&mut self, event: &ExitEvent) -> (a: Action)
        requires
            old(self).state == LoopState::Running,
        ensures
            final(self).expected_dirty_pages == old(self).expected_dirty_pages,
            match *event {
                ExitEvent::IoIn { .. } => final(self).state == LoopState::Running && a
                    == Action::Continue,
                ExitEvent::IoOut { .. } => final(self).state == LoopState::Running && a
                    == Action::Continue,
                ExitEvent::MmioRead { .. } => final(self).state == LoopState::Running && a
                    == Action::Continue,
                ExitEvent::MmioWrite { .. } => final(self).state == LoopState::Running && a
                    == Action::ValidateDirtyPages,
                ExitEvent::Halt => final(self).state == LoopState::Halted && a == Action::Stop,
                ExitEvent::Unexpected { raw_code } => final(self).state == LoopState::Faulted(
                    VmError::UnexpectedExitError { raw_code },
                ) && a == Action::Stop,
            },
    {
        match *event {
            ExitEvent::IoIn { .. } => Action::Continue,
            ExitEvent::IoOut { .. } => Action::Continue,
            ExitEvent::MmioRead { .. } => Action::Continue,
            ExitEvent::MmioWrite { .. } => Action::ValidateDirtyPages,
            ExitEvent::Halt => {
                self.state = LoopState::Halted;
                Action::Stop
            },
            ExitEvent::Unexpected { raw_code } => {
                self.state = LoopState::Faulted(VmError::UnexpectedExitError { raw_code });
                Action::Stop
            },
        }
    }

    /// Hands in the dirty-page count observed after an MMIO write.
    ///
    /// A count equal to the expected one keeps the loop `Running`; any
    /// other count ends it in `Faulted` with a dirty-page mismatch.
    pub fn apply_dirty_count(&mut self, observed: u64) -> (a: Action)
        requires
            old(self).state == LoopState::Running,
        ensures
            final(self).expected_dirty_pages == old(self).expected_dirty_pages,
            observed == old(self).expected_dirty_pages ==> final(self).state
                == LoopState::Running && a == Action::Continue,
            observed != old(self).expected_dirty_pages ==> final(self).state == LoopState::Faulted(
                VmError::DirtyPageMismatchError {
                    observed,
                    expected: old(self).expected_dirty_pages,
                },
            ) && a == Action::Stop,
    {
        if observed == self.expected_dirty_pages {
            Action::Continue
        } else {
            self.state = LoopState::Faulted(
                VmError::DirtyPageMismatchError { observed, expected: self.expected_dirty_pages },
            );
            Action::Stop
        }
    }

    /// Validates the dirty-page log reported after an MMIO write: counts
    /// the set bits of `bitmap` and hands the count to
    /// [`Self::apply_dirty_count`].
    pub fn apply_dirty_bitmap(&mut self, bitmap: &[u64]) -> (a: Action)
        requires
            old(self).state == LoopState::Running,
            64 * bitmap@.len() <= u64::MAX,
        ensures
            final(self).expected_dirty_pages == old(self).expected_dirty_pages,
            count_set_bits(bitmap@) == old(self).expected_dirty_pages ==> final(self).state
                == LoopState::Running && a == Action::Continue,
            count_set_bits(bitmap@) != old(self).expected_dirty_pages ==> final(self).state
                == LoopState::Faulted(
                VmError::DirtyPageMismatchError {
                    observed: count_set_bits(bitmap@) as u64,
                    expected: old(self).expected_dirty_pages,
                },
            ) && a == Action::Stop,
    {
        let observed: u64 = count_dirty_pages(bitmap);
        self.apply_dirty_count(observed)
    }

    /// Whether the loop is still in `Running`.
    pub fn is_running(&self) -> (b: bool)
        ensures
            b == (self.state == LoopState::Running),
    {
        matches!(self.state, LoopState::Running)
    }

    /// The current state.
    pub fn state(&self) -> (s: LoopState)
        ensures
            s == self.state,
    {
        self.state
    }
}

} // verus!
