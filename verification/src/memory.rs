//! A guest-physical memory region backed by host memory.
//!
//! The region models the host mapping as a byte vector: the embedding
//! program hands the same bytes to the hardware when it registers the
//! region. Program loading is bounds-checked and all-or-nothing.

use vstd::prelude::*;

use crate::errors::VmError;

verus! {

/// The contents of a mapping of length `m.len()` after `b` has been copied
/// in at byte offset `off`: bytes inside `[off, off + b.len())` come from
/// `b`, every other byte keeps its old value.
pub open spec fn spec_loaded(m: Seq<u8>, b: Seq<u8>, off: int) -> Seq<u8> {
    Seq::new(m.len(), |i: int| if off <= i < off + b.len() { b[i - off] } else { m[i] })
}

/// An owned host-backed mapping registered as guest-physical memory.
///
/// Invariant by construction: the mapping's length is the declared region
/// size, and it never changes after construction.
pub struct GuestMemoryRegion {
    /// Slot identifier, unique per virtual machine.
    pub slot: u32,
    /// Guest-physical base address of the region.
    pub guest_base: u64,
    /// The host-backed mapping, exclusively owned by the owning machine.
    pub mapping: Vec<u8>,
    /// Whether modification (dirty-page) tracking is enabled.
    pub dirty_tracking: bool,
}

impl GuestMemoryRegion {
    /// Allocates a zero-initialized region of `size` bytes.
    pub fn new(slot: u32, guest_base: u64, size: usize, dirty_tracking: bool) -> (r:
        GuestMemoryRegion)
        ensures
            r.slot == slot,
            r.guest_base == guest_base,
            r.dirty_tracking == dirty_tracking,
            r.mapping@.len() == size,
            forall|i: int| 0 <= i < size ==> r.mapping@[i] == 0u8,
    {
        let mut mapping: Vec<u8> = Vec::new();
        while mapping.len() < size
            invariant
                mapping@.len() <= size,
                forall|i: int| 0 <= i < mapping@.len() ==> mapping@[i] == 0u8,
            decreases size - mapping@.len(),
        {
            mapping.push(0u8);
        }
        GuestMemoryRegion { slot, guest_base, mapping, dirty_tracking }
    }

    /// The region's size in bytes.
    pub fn size(&self) -> (n: usize)
        ensures
            n == self.mapping@.len(),
    {
        self.mapping.len()
    }

    /// Copies `bytes` into the mapping starting at `offset`.
    ///
    /// Fails with `OutOfBoundsError` when the copy would run past the end
    /// of the region; on failure no byte of the mapping is written.
    pub fn load(&mut self, bytes: &[u8], offset: usize) -> (r: Result<(), VmError>)
        ensures
            final(self).slot == old(self).slot,
            final(self).guest_base == old(self).guest_base,
            final(self).dirty_tracking == old(self).dirty_tracking,
            final(self).mapping@.len() == old(self).mapping@.len(),
            r is Ok <==> offset + bytes@.len() <= old(self).mapping@.len(),
            r is Ok ==> final(self).mapping@ == spec_loaded(
                old(self).mapping@,
                bytes@,
                offset as int,
            ),
            r is Err ==> r->Err_0 == VmError::OutOfBoundsError && final(self).mapping@ == old(
                self,
            ).mapping@,
    {
        if bytes.len() > self.mapping.len() || offset > self.mapping.len() - bytes.len() {
            return Err(VmError::OutOfBoundsError);
        }
        let mut i: usize = 0;
        while i < bytes.len()
            invariant
                i <= bytes@.len(),
                offset + bytes@.len() <= old(self).mapping@.len(),
                self.slot == old(self).slot,
                self.guest_base == old(self).guest_base,
                self.dirty_tracking == old(self).dirty_tracking,
                self.mapping@.len() == old(self).mapping@.len(),
                forall|j: int|
                    offset <= j < offset + i ==> self.mapping@[j] == bytes@[j - offset],
                forall|j: int|
                    (0 <= j < offset || offset + i <= j < self.mapping@.len())
                        ==> self.mapping@[j] == old(self).mapping@[j],
            decreases bytes@.len() - i,
        {
            let len: usize = self.mapping.len();
            assert(offset + i < len);
            self.mapping[offset + i] = bytes[i];
            i = i + 1;
        }
        proof {
            assert(self.mapping@ =~= spec_loaded(old(self).mapping@, bytes@, offset as int));
        }
        Ok(())
    }

    /// Reads one byte of the mapping, or `None` past the end.
    pub fn read_byte(&self, index: usize) -> (r: Option<u8>)
        ensures
            index < self.mapping@.len() <==> r is Some,
            index < self.mapping@.len() ==> r == Some(self.mapping@[index as int]),
    {
        if index < self.mapping.len() {
            Some(self.mapping[index])
        } else {
            None
        }
    }
}

/// Loading reads back: the bytes copied in at `off` are exactly the bytes
/// of the loaded mapping at `[off, off + b.len())`.
pub proof fn lemma_loaded_round_trip(m: Seq<u8>, b: Seq<u8>, off: int)
    requires
        0 <= off,
        off + b.len() <= m.len(),
    ensures
        spec_loaded(m, b, off).subrange(off, off + b.len() as int) == b,
{
    assert(spec_loaded(m, b, off).subrange(off, off + b.len() as int) =~= b);
}

/// Loading writes nothing else: the loaded mapping has the old length, and
/// every byte outside `[off, off + b.len())` keeps its old value.
pub proof fn lemma_loaded_frame(m: Seq<u8>, b: Seq<u8>, off: int)
    requires
        0 <= off,
        off + b.len() <= m.len(),
    ensures
        spec_loaded(m, b, off).len() == m.len(),
        forall|j: int| 0 <= j < off ==> spec_loaded(m, b, off)[j] == m[j],
        forall|j: int| off + b.len() <= j < m.len() ==> spec_loaded(m, b, off)[j] == m[j],
{
}

} // verus!
