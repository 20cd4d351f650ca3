//! A mapped peripheral register block with a ghost trace of accesses.
//!
//! Device registers are not ordinary memory: the hardware reacts to the
//! order of reads and writes, and status bits change on their own.  The
//! window therefore makes no claim about the bytes behind it.  Instead it
//! records every whole-register access in a ghost trace, oldest first, and
//! every contract above it speaks about that trace: which registers were
//! written, with which values, in which order, and what each read
//! observed.  Read-modify-write of one bitfield appears in the trace as
//! the read followed by the write of the recombined value, so
//! preservation of the bits outside the field is visible in the trace
//! itself.

use core::sync::atomic::{compiler_fence, Ordering};
use vstd::prelude::*;
use memmap2::MmapMut;
use crate::mem::{mm_bytes, mm_len};
use crate::bitfield::{field_mask, low_mask, spec_get_field, spec_set_field};

verus! {

/// One access to a register window: a whole-register read, with the value
/// observed, or a whole-register write.
pub enum RegOp {
    Read { off: usize, value: u32 },
    Write { off: usize, value: u32 },
}

/// The value a read-modify-write stores: the bits under `mask` replaced by
/// `bits`, every other bit as read.
pub open spec fn spec_rmw_value(prev: u32, mask: u32, bits: u32) -> u32 {
    (prev & !mask) | bits
}

/// The two trace entries of a read-modify-write at `off` that observed
/// `prev`.
pub open spec fn spec_rmw_ops(off: usize, mask: u32, bits: u32, prev: u32) -> Seq<RegOp> {
    seq![
        RegOp::Read { off, value: prev },
        RegOp::Write { off, value: spec_rmw_value(prev, mask, bits) },
    ]
}

/// The two trace entries of a field write at `off` that observed `prev`:
/// the stored value keeps every bit outside the field.
pub open spec fn spec_field_write_ops(
    off: usize,
    shift: u32,
    width: u32,
    value: u32,
    prev: u32,
) -> Seq<RegOp> {
    seq![
        RegOp::Read { off, value: prev },
        RegOp::Write { off, value: spec_set_field(prev, shift, width, value) },
    ]
}

/// The trace entries of a run of reads at `off` observing `vals` in order.
pub open spec fn spec_reads_at(off: usize, vals: Seq<u32>) -> Seq<RegOp> {
    vals.map(|i: int, v: u32| RegOp::Read { off, value: v })
}

/// Whether `value & mask` is nonzero (`want_set`) or zero (`!want_set`).
pub open spec fn bit_state(value: u32, mask: u32, want_set: bool) -> bool {
    (value & mask != 0) == want_set
}

/// A boolean as the one-bit field value it is written as.
pub open spec fn bit_val(b: bool) -> u32 {
    if b {
        1u32
    } else {
        0u32
    }
}

/// The common postcondition of a field write: the trace grew by the read
/// and the recombined write, and the window is otherwise unchanged.
pub open spec fn field_write_post(
    before: RegisterWindow,
    after: RegisterWindow,
    off: usize,
    shift: u32,
    width: u32,
    value: u32,
    prev: u32,
) -> bool {
    &&& after.wf()
    &&& after.spec_size() == before.spec_size()
    &&& after.trace() == before.trace() + spec_field_write_ops(off, shift, width, value, prev)
}

/// The common postcondition of a field read: the trace grew by one read,
/// and the result is that read's (`shift`, `width`) field.
pub open spec fn field_read_post(
    before: RegisterWindow,
    after: RegisterWindow,
    off: usize,
    shift: u32,
    width: u32,
    v: u32,
) -> bool {
    &&& after.wf()
    &&& after.spec_size() == before.spec_size()
    &&& exists|raw: u32|
        after.trace() == before.trace().push(RegOp::Read { off, value: raw }) && v
            == spec_get_field(raw, shift, width)
}

/// The common postcondition of a one-bit field read, as a boolean.
pub open spec fn bit_read_post(
    before: RegisterWindow,
    after: RegisterWindow,
    off: usize,
    shift: u32,
    b: bool,
) -> bool {
    &&& after.wf()
    &&& after.spec_size() == before.spec_size()
    &&& exists|raw: u32|
        after.trace() == before.trace().push(RegOp::Read { off, value: raw }) && b
            == (spec_get_field(raw, shift, 1) != 0)
}

/// Between two trace states, exactly one field write happened at `off`:
/// some value was read and written back with only the (`shift`, `width`)
/// field replaced by `value`.
pub open spec fn trace_field_write(
    before: Seq<RegOp>,
    after: Seq<RegOp>,
    off: usize,
    shift: u32,
    width: u32,
    value: u32,
) -> bool {
    exists|prev: u32| after == before + spec_field_write_ops(off, shift, width, value, prev)
}

/// Between two trace states, exactly one read happened at `off`, and `b`
/// reports its (`shift`, 1) field.
pub open spec fn trace_bit_read(
    before: Seq<RegOp>,
    after: Seq<RegOp>,
    off: usize,
    shift: u32,
    b: bool,
) -> bool {
    exists|raw: u32|
        after == before.push(RegOp::Read { off, value: raw }) && b == (spec_get_field(
            raw,
            shift,
            1,
        ) != 0)
}

/// A bounded poll gave up before observing the wanted bit state.
#[derive(Clone, Copy, Debug, PartialEq, Eq, Structural)]
pub struct PollTimeout;

/// A one-time mapping of one peripheral's register block.
pub struct RegisterWindow {
    mem: MmapMut,
    size: usize,
    ops: Ghost<Seq<RegOp>>,
}

impl RegisterWindow {
    /// The recorded size matches the mapping.
    pub closed spec fn wf(&self) -> bool {
        self.size as int == mm_bytes(self.mem).len()
    }

    /// Every access performed on this window, oldest first.
    pub closed spec fn trace(&self) -> Seq<RegOp> {
        self.ops@
    }

    /// The number of mapped bytes.
    pub closed spec fn spec_size(&self) -> usize {
        self.size
    }

    /// Wrap a mapping of a register block; the trace starts empty.
    pub fn new(mem: MmapMut) -> (w: RegisterWindow)
        ensures
            w.wf(),
            w.trace() == Seq::<RegOp>::empty(),
            w.spec_size() as int == mm_bytes(mem).len(),
    {
        let size = mm_len(&mem);
        RegisterWindow { mem, size, ops: Ghost(Seq::empty()) }
    }

    /// The number of mapped bytes.
    pub fn size(&self) -> (n: usize)
        ensures
            n == self.spec_size(),
    {
        self.size
    }

    /// Relies on memmap2::MmapMut::deref: reads the 32-bit register at
    /// byte offset `off` of the mapped block.  The value is whatever the
    /// device presents; the read is recorded in the trace.
    ///
    /// Device registers want a volatile load, which safe code cannot
    /// express.  The compiler fences and the never-inlined call keep
    /// every invocation a real load in program order — in particular the
    /// repeated reads of a poll loop — and the device mapping is
    /// uncached, so each load reaches the bus.
    #[verifier::external_body]
    #[inline(never)]
    fn read_reg_raw(&mut self, off: usize) -> (r: u32)
        requires
            old(self).wf(),
            off + 4 <= old(self).spec_size(),
        ensures
            final(self).wf(),
            final(self).spec_size() == old(self).spec_size(),
            final(self).trace() == old(self).trace().push(RegOp::Read { off, value: r }),
    {
        compiler_fence(Ordering::SeqCst);
        let b = &self.mem[off..off + 4];
        let r = u32::from_le_bytes([b[0], b[1], b[2], b[3]]);
        compiler_fence(Ordering::SeqCst);
        r
    }

    /// Relies on memmap2::MmapMut::deref_mut: stores `v` as the 32-bit
    /// register at byte offset `off` of the mapped block.  The write is
    /// recorded in the trace.
    ///
    /// Device registers want a volatile store, which safe code cannot
    /// express.  The compiler fences and the never-inlined call keep
    /// every invocation a real store in program order — consecutive
    /// stores to one register both happen, in order — and the device
    /// mapping is uncached, so each store reaches the bus.
    #[verifier::external_body]
    #[inline(never)]
    fn write_reg_raw(&mut self, off: usize, v: u32)
        requires
            old(self).wf(),
            off + 4 <= old(self).spec_size(),
        ensures
            final(self).wf(),
            final(self).spec_size() == old(self).spec_size(),
            final(self).trace() == old(self).trace().push(RegOp::Write { off, value: v }),
    {
        compiler_fence(Ordering::SeqCst);
        self.mem[off..off + 4].copy_from_slice(&v.to_le_bytes());
        compiler_fence(Ordering::SeqCst);
    }

    /// Read the whole 32-bit register at byte offset `off`; the value is
    /// whatever the device presents, and the read is recorded in the
    /// trace.
    pub fn read_reg(&mut self, off: usize) -> (r: u32)
        requires
            old(self).wf(),
            off + 4 <= old(self).spec_size(),
        ensures
            final(self).wf(),
            final(self).spec_size() == old(self).spec_size(),
            final(self).trace() == old(self).trace().push(RegOp::Read { off, value: r }),
    {
        self.read_reg_raw(off)
    }

    /// Store `v` as the whole 32-bit register at byte offset `off`; the
    /// write is recorded in the trace.
    pub fn write_reg(&mut self, off: usize, v: u32)
        requires
            old(self).wf(),
            off + 4 <= old(self).spec_size(),
        ensures
            final(self).wf(),
            final(self).spec_size() == old(self).spec_size(),
            final(self).trace() == old(self).trace().push(RegOp::Write { off, value: v }),
    {
        self.write_reg_raw(off, v);
    }

    /// Read-modify-write: store the register at `off` with the bits under
    /// `mask` replaced by `bits` and every other bit as read.  Returns the
    /// value read.
    pub fn rmw_reg(&mut self, off: usize, mask: u32, bits: u32) -> (prev: u32)
        requires
            old(self).wf(),
            off + 4 <= old(self).spec_size(),
        ensures
            final(self).wf(),
            final(self).spec_size() == old(self).spec_size(),
            final(self).trace() == old(self).trace() + spec_rmw_ops(off, mask, bits, prev),
    {
        let prev = self.read_reg(off);
        self.write_reg(off, (prev & !mask) | bits);
        assert(self.trace() =~= old(self).trace() + spec_rmw_ops(off, mask, bits, prev));
        prev
    }

    /// Read the (`shift`, `width`) field of the register at `off`; the
    /// whole-register read is recorded in the trace.
    pub fn read_field(&mut self, off: usize, shift: u32, width: u32) -> (v: u32)
        requires
            old(self).wf(),
            off + 4 <= old(self).spec_size(),
            1 <= width,
            shift + width <= 32,
        ensures
            final(self).wf(),
            final(self).spec_size() == old(self).spec_size(),
            exists|raw: u32|
                final(self).trace() == old(self).trace().push(RegOp::Read { off, value: raw })
                    && v == spec_get_field(raw, shift, width),
    {
        let raw = self.read_reg(off);
        let v = crate::bitfield::get_field(raw, shift, width);
        assert(self.trace() == old(self).trace().push(RegOp::Read { off, value: raw }) && v
            == spec_get_field(raw, shift, width));
        v
    }

    /// Replace the (`shift`, `width`) field of the register at `off` by
    /// `value`, preserving every bit outside the field.  Returns the value
    /// read.
    pub fn write_field(&mut self, off: usize, shift: u32, width: u32, value: u32) -> (prev: u32)
        requires
            old(self).wf(),
            off + 4 <= old(self).spec_size(),
            1 <= width,
            shift + width <= 32,
        ensures
            final(self).wf(),
            final(self).spec_size() == old(self).spec_size(),
            final(self).trace() == old(self).trace() + spec_field_write_ops(
                off,
                shift,
                width,
                value,
                prev,
            ),
    {
        let m = field_mask(shift, width);
        let bits = (value & low_mask(width)) << shift;
        let prev = self.rmw_reg(off, m, bits);
        assert(self.trace() =~= old(self).trace() + spec_field_write_ops(
            off,
            shift,
            width,
            value,
            prev,
        ));
        prev
    }

    /// Poll the register at `off` until the bits under `mask` reach the
    /// wanted state, giving up after `limit` reads.  On success the last
    /// value observed is returned; every earlier observation was still in
    /// the unwanted state.
    pub fn poll_field(&mut self, off: usize, mask: u32, want_set: bool, limit: usize) -> (r:
        Result<u32, PollTimeout>)
        requires
            old(self).wf(),
            off + 4 <= old(self).spec_size(),
            1 <= limit,
        ensures
            final(self).wf(),
            final(self).spec_size() == old(self).spec_size(),
            exists|obs: Seq<u32>|
                {
                    &&& final(self).trace() == old(self).trace() + spec_reads_at(off, obs)
                    &&& 1 <= obs.len() <= limit
                    &&& forall|i: int| 0 <= i < obs.len() - 1 ==> !bit_state(obs[i], mask, want_set)
                    &&& match r {
                        Ok(v) => obs.last() == v && bit_state(v, mask, want_set),
                        Err(_) => obs.len() == limit && !bit_state(obs.last(), mask, want_set),
                    }
                },
    {
        let ghost mut obs: Seq<u32> = Seq::empty();
        let mut i: usize = 0;
        loop
            invariant
                self.wf(),
                self.spec_size() == old(self).spec_size(),
                off + 4 <= self.spec_size(),
                1 <= limit,
                i < limit,
                obs.len() == i,
                self.trace() == old(self).trace() + spec_reads_at(off, obs),
                forall|j: int| 0 <= j < obs.len() ==> !bit_state(obs[j], mask, want_set),
            decreases limit - i,
        {
            let v = self.read_reg(off);
            proof {
                obs = obs.push(v);
                assert(spec_reads_at(off, obs) =~= spec_reads_at(off, obs.drop_last()).push(
                    RegOp::Read { off, value: v },
                ));
            }
            i = i + 1;
            if (v & mask != 0) == want_set {
                proof {
                    assert(obs.last() == v);
                }
                return Ok(v);
            }
            if i == limit {
                return Err(PollTimeout);
            }
        }
    }
}

} // verus!
