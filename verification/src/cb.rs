//! The DMA transfer descriptor: a 32-byte control block in bus memory.
//!
//! The DMA engine reads the descriptor through its bus address, so the
//! backing store is a `VcMem` and the source/destination words must hold
//! bus addresses, never process-local ones.  Each field is a 32-bit
//! little-endian word at a fixed byte offset.

use vstd::prelude::*;
use crate::mem::VcMem;
use crate::bitfield::{spec_le_bytes, spec_u32_of_le};

verus! {

/// Byte offset of the transfer-information (flags) word.
pub const CB_TRANSFER_INFO: usize = 0;
/// Byte offset of the source bus-address word.
pub const CB_SOURCE_ADDRESS: usize = 4;
/// Byte offset of the destination bus-address word.
pub const CB_DESTINATION_ADDRESS: usize = 8;
/// Byte offset of the transfer-length word.
pub const CB_TRANSFER_LENGTH: usize = 12;
/// Byte offset of the 2D-stride word.
pub const CB_TRANSFER_STRIDE: usize = 16;
/// Byte offset of the next-control-block bus-address word.
pub const CB_NEXT_CONTROL_BLOCK: usize = 20;

/// The 32-bit word stored little-endian at byte offset `off` of `s`.
pub open spec fn spec_word_at(s: Seq<u8>, off: int) -> u32
    recommends
        0 <= off,
        off + 4 <= s.len(),
{
    spec_u32_of_le(s[off], s[off + 1], s[off + 2], s[off + 3])
}

/// Storing a word's little-endian bytes and reading the same offset back
/// yields exactly the stored value.
pub proof fn lemma_descriptor_round_trip(s: Seq<u8>, off: int, v: u32)
    requires
        0 <= off,
        off + 4 <= s.len(),
        s.subrange(off, off + 4) == spec_le_bytes(v),
    ensures
        spec_word_at(s, off) == v,
{
    assert(s[off] == s.subrange(off, off + 4)[0]);
    assert(s[off + 1] == s.subrange(off, off + 4)[1]);
    assert(s[off + 2] == s.subrange(off, off + 4)[2]);
    assert(s[off + 3] == s.subrange(off, off + 4)[3]);
    crate::bitfield::lemma_le_round_trip(v);
}

/// One DMA transfer descriptor, stored in bus-addressable memory.
pub struct DmaControlBlock {
    memory: VcMem,
}

impl View for DmaControlBlock {
    type V = Seq<u8>;

    closed spec fn view(&self) -> Seq<u8> {
        self.memory@
    }
}

impl DmaControlBlock {
    /// The backing store holds the whole 32-byte descriptor.
    pub open spec fn wf(&self) -> bool {
        self@.len() >= 32
    }

    /// The bus address of the descriptor itself, for the engine's
    /// next-control-block register.
    pub closed spec fn spec_busaddr(&self) -> u32 {
        self.memory.spec_busaddr()
    }

    /// Take over a bus-memory lease of at least 32 bytes and zero the
    /// descriptor.
    pub fn new(memory: VcMem) -> (r: DmaControlBlock)
        requires
            memory@.len() >= 32,
        ensures
            r.wf(),
            r@.len() == memory@.len(),
            forall|i: int| 0 <= i < r@.len() ==> r@[i] == 0u8,
            r.spec_busaddr() == memory.spec_busaddr(),
    {
        let mut memory = memory;
        memory.fill(0);
        DmaControlBlock { memory }
    }

    /// The bus address of the descriptor itself.
    pub fn busaddr(&self) -> (a: u32)
        ensures
            a == self.spec_busaddr(),
    {
        self.memory.busaddr()
    }

    /// Read back the 32-bit word at byte offset `off`.
    pub fn read_back(&self, off: usize) -> (v: u32)
        requires
            off + 4 <= self@.len(),
        ensures
            v == spec_word_at(self@, off as int),
    {
        self.memory.read_u32_at(off)
    }

    /// Store `value` at byte offset `off`: afterwards that word reads back
    /// as `value` and every byte outside it is unchanged.
    fn write_word(&mut self, off: usize, value: u32)
        requires
            old(self).wf(),
            off + 4 <= 32,
        ensures
            final(self).wf(),
            final(self)@.len() == old(self)@.len(),
            final(self).spec_busaddr() == old(self).spec_busaddr(),
            spec_word_at(final(self)@, off as int) == value,
            forall|i: int|
                0 <= i < final(self)@.len() && !(off <= i < off + 4) ==> final(self)@[i] == old(
                    self,
                )@[i],
    {
        self.memory.write_u32_at(off, value);
        proof {
            lemma_descriptor_round_trip(self.memory@, off as int, value);
        }
    }

    /// Set the transfer-information (flags) word.
    pub fn set_transfer_info(&mut self, value: u32)
        requires
            old(self).wf(),
        ensures
            final(self).wf(),
            final(self)@.len() == old(self)@.len(),
            final(self).spec_busaddr() == old(self).spec_busaddr(),
            spec_word_at(final(self)@, CB_TRANSFER_INFO as int) == value,
            forall|i: int|
                0 <= i < final(self)@.len() && !(CB_TRANSFER_INFO <= i < CB_TRANSFER_INFO + 4)
                    ==> final(self)@[i] == old(self)@[i],
    {
        self.write_word(CB_TRANSFER_INFO, value);
    }

    /// Set the source bus address; it must be a bus address, not a
    /// process-local one, because the engine cannot resolve process
    /// virtual memory.
    pub fn set_source_address(&mut self, value: u32)
        requires
            old(self).wf(),
        ensures
            final(self).wf(),
            final(self)@.len() == old(self)@.len(),
            final(self).spec_busaddr() == old(self).spec_busaddr(),
            spec_word_at(final(self)@, CB_SOURCE_ADDRESS as int) == value,
            forall|i: int|
                0 <= i < final(self)@.len() && !(CB_SOURCE_ADDRESS <= i < CB_SOURCE_ADDRESS + 4)
                    ==> final(self)@[i] == old(self)@[i],
    {
        self.write_word(CB_SOURCE_ADDRESS, value);
    }

    /// Set the destination bus address; as for the source, a bus address.
    pub fn set_destination_address(&mut self, value: u32)
        requires
            old(self).wf(),
        ensures
            final(self).wf(),
            final(self)@.len() == old(self)@.len(),
            final(self).spec_busaddr() == old(self).spec_busaddr(),
            spec_word_at(final(self)@, CB_DESTINATION_ADDRESS as int) == value,
            forall|i: int|
                0 <= i < final(self)@.len() && !(CB_DESTINATION_ADDRESS <= i
                    < CB_DESTINATION_ADDRESS + 4) ==> final(self)@[i] == old(self)@[i],
    {
        self.write_word(CB_DESTINATION_ADDRESS, value);
    }

    /// Set the transfer length in bytes.
    pub fn set_transfer_length(&mut self, value: u32)
        requires
            old(self).wf(),
        ensures
            final(self).wf(),
            final(self)@.len() == old(self)@.len(),
            final(self).spec_busaddr() == old(self).spec_busaddr(),
            spec_word_at(final(self)@, CB_TRANSFER_LENGTH as int) == value,
            forall|i: int|
                0 <= i < final(self)@.len() && !(CB_TRANSFER_LENGTH <= i < CB_TRANSFER_LENGTH + 4)
                    ==> final(self)@[i] == old(self)@[i],
    {
        self.write_word(CB_TRANSFER_LENGTH, value);
    }

    /// Set the 2D-mode stride word.
    pub fn set_transfer_stride(&mut self, value: u32)
        requires
            old(self).wf(),
        ensures
            final(self).wf(),
            final(self)@.len() == old(self)@.len(),
            final(self).spec_busaddr() == old(self).spec_busaddr(),
            spec_word_at(final(self)@, CB_TRANSFER_STRIDE as int) == value,
            forall|i: int|
                0 <= i < final(self)@.len() && !(CB_TRANSFER_STRIDE <= i < CB_TRANSFER_STRIDE + 4)
                    ==> final(self)@[i] == old(self)@[i],
    {
        self.write_word(CB_TRANSFER_STRIDE, value);
    }

    /// Set the bus address of the next descriptor in a chain, or zero for
    /// a single-shot transfer.
    pub fn set_next_control_block(&mut self, value: u32)
        requires
            old(self).wf(),
        ensures
            final(self).wf(),
            final(self)@.len() == old(self)@.len(),
            final(self).spec_busaddr() == old(self).spec_busaddr(),
            spec_word_at(final(self)@, CB_NEXT_CONTROL_BLOCK as int) == value,
            forall|i: int|
                0 <= i < final(self)@.len() && !(CB_NEXT_CONTROL_BLOCK <= i < CB_NEXT_CONTROL_BLOCK
                    + 4) ==> final(self)@[i] == old(self)@[i],
    {
        self.write_word(CB_NEXT_CONTROL_BLOCK, value);
    }
}

} // verus!
