//! Bus-visible memory: a mapped byte region paired with its bus address.
//!
//! The mapping itself comes from the surrounding program (it requires a
//! privileged device to create); this module gives it a verified byte-level
//! interface and maintains the invariant tying the bus address to the
//! physical address it aliases.

use vstd::prelude::*;
use memmap2::MmapMut;
use crate::addr::spec_translate;
use crate::bitfield::{spec_le_bytes, spec_u32_of_le};

verus! {

#[verifier::external_type_specification]
#[verifier::external_body]
pub struct ExMmapMut(MmapMut);

/// The bytes of a mapped region.
pub uninterp spec fn mm_bytes(m: MmapMut) -> Seq<u8>;

/// Relies on memmap2::MmapMut::deref: the mapping reads as a byte slice.
#[verifier::external_body]
pub(crate) fn mm_len(m: &MmapMut) -> (n: usize)
    ensures
        n == mm_bytes(*m).len(),
{
    m.len()
}

/// Relies on memmap2::MmapMut::deref: the mapping reads as a byte slice.
#[verifier::external_body]
pub(crate) fn mm_read_byte(m: &MmapMut, i: usize) -> (b: u8)
    requires
        i < mm_bytes(*m).len(),
    ensures
        b == mm_bytes(*m)[i as int],
{
    m[i]
}

/// Relies on memmap2::MmapMut::deref_mut: the mapping writes as a byte
/// slice, and writing one byte leaves the rest in place.
#[verifier::external_body]
pub(crate) fn mm_write_byte(m: &mut MmapMut, i: usize, b: u8)
    requires
        i < mm_bytes(*old(m)).len(),
    ensures
        mm_bytes(*final(m)) == mm_bytes(*old(m)).update(i as int, b),
{
    m[i] = b;
}

/// Relies on memmap2::MmapMut::flush: synchronous write-back of the mapped
/// range; reports whether it succeeded.
#[verifier::external_body]
pub(crate) fn mm_flush(m: &MmapMut) -> (ok: bool)
{
    m.flush().is_ok()
}

/// A leased, bus-addressable byte buffer mapped into the process.
///
/// The bus address is what DMA descriptors must carry; the physical
/// address the mapping was created at is always its translation.
pub struct VcMem {
    mem: MmapMut,
    bus_addr: u32,
}

impl View for VcMem {
    type V = Seq<u8>;

    closed spec fn view(&self) -> Seq<u8> {
        mm_bytes(self.mem)
    }
}

impl VcMem {
    /// The bus address of the first byte, as a DMA descriptor must see it.
    pub closed spec fn spec_busaddr(&self) -> u32 {
        self.bus_addr
    }

    /// Wrap a mapping of the physical range that `bus_addr` aliases.
    pub fn new(mem: MmapMut, bus_addr: u32) -> (r: VcMem)
        ensures
            r@ == mm_bytes(mem),
            r.spec_busaddr() == bus_addr,
    {
        VcMem { mem, bus_addr }
    }

    /// The number of mapped bytes.
    pub fn len(&self) -> (n: usize)
        ensures
            n == self@.len(),
    {
        mm_len(&self.mem)
    }

    /// The bus address to embed in descriptors.
    pub fn busaddr(&self) -> (a: u32)
        ensures
            a == self.spec_busaddr(),
    {
        self.bus_addr
    }

    /// The physical address of the mapped range: the translation of the bus
    /// address.
    pub fn physaddr(&self) -> (a: u32)
        ensures
            a == spec_translate(self.spec_busaddr()),
    {
        crate::addr::translate(self.bus_addr)
    }

    /// Read the byte at `i`.
    pub fn read_byte(&self, i: usize) -> (b: u8)
        requires
            i < self@.len(),
        ensures
            b == self@[i as int],
    {
        mm_read_byte(&self.mem, i)
    }

    /// Write the byte at `i`.
    pub fn write_byte(&mut self, i: usize, b: u8)
        requires
            i < old(self)@.len(),
        ensures
            final(self)@ == old(self)@.update(i as int, b),
            final(self).spec_busaddr() == old(self).spec_busaddr(),
    {
        mm_write_byte(&mut self.mem, i, b);
    }

    /// Fill every byte with `b`.
    pub fn fill(&mut self, b: u8)
        ensures
            final(self)@.len() == old(self)@.len(),
            forall|i: int| 0 <= i < final(self)@.len() ==> final(self)@[i] == b,
            final(self).spec_busaddr() == old(self).spec_busaddr(),
    {
        let n = self.len();
        let mut i: usize = 0;
        while i < n
            invariant
                n == self@.len(),
                i <= n,
                forall|j: int| 0 <= j < i ==> self@[j] == b,
                self.spec_busaddr() == old(self).spec_busaddr(),
            decreases n - i,
        {
            self.write_byte(i, b);
            i = i + 1;
        }
    }

    /// Write `v` at byte offset `off` in little-endian order.
    pub fn write_u32_at(&mut self, off: usize, v: u32)
        requires
            off + 4 <= old(self)@.len(),
        ensures
            final(self)@.len() == old(self)@.len(),
            final(self)@.subrange(off as int, off as int + 4) == spec_le_bytes(v),
            forall|i: int|
                0 <= i < final(self)@.len() && !(off <= i < off + 4) ==> final(self)@[i] == old(
                    self,
                )@[i],
            final(self).spec_busaddr() == old(self).spec_busaddr(),
    {
        // reading the length bounds the offsets within usize range
        let len = self.len();
        assert((v & 0xFF) < 256 && ((v >> 8) & 0xFF) < 256 && ((v >> 16) & 0xFF) < 256 && ((v
            >> 24) & 0xFF) < 256) by (bit_vector);
        self.write_byte(off, (v & 0xFF) as u8);
        self.write_byte(off + 1, ((v >> 8) & 0xFF) as u8);
        self.write_byte(off + 2, ((v >> 16) & 0xFF) as u8);
        self.write_byte(off + 3, ((v >> 24) & 0xFF) as u8);
        assert(self@.subrange(off as int, off as int + 4) =~= spec_le_bytes(v));
    }

    /// Read the little-endian 32-bit word at byte offset `off`.
    pub fn read_u32_at(&self, off: usize) -> (v: u32)
        requires
            off + 4 <= self@.len(),
        ensures
            v == spec_u32_of_le(
                self@[off as int],
                self@[off as int + 1],
                self@[off as int + 2],
                self@[off as int + 3],
            ),
    {
        // reading the length bounds the offsets within usize range
        let len = self.len();
        let b0 = self.read_byte(off);
        let b1 = self.read_byte(off + 1);
        let b2 = self.read_byte(off + 2);
        let b3 = self.read_byte(off + 3);
        (b0 as u32) | ((b1 as u32) << 8) | ((b2 as u32) << 16) | ((b3 as u32) << 24)
    }

    /// Relies on memmap2::MmapMut::deref: the mapped bytes as one slice.
    #[verifier::external_body]
    pub fn as_ref(&self) -> (s: &[u8])
        ensures
            s@ == self@,
    {
        &self.mem[..]
    }

    /// Force visibility of prior writes, if the transport needs it; reports
    /// whether the write-back succeeded.
    pub fn flush(&self) -> bool {
        mm_flush(&self.mem)
    }
}

} // verus!
