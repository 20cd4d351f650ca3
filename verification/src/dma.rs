//! One DMA channel driven through enable, start, and wait.
//!
//! The engine owns the channel's register window, the transfer descriptor,
//! and a per-instance latch for the one-time peripheral reset.  Every
//! register effect is stated over the window's trace: `enable` fires the
//! reset at most once per instance, `start` clears the end and error flags
//! strictly before it sets the active bit, and `wait` returns success only
//! after a read observed the active bit clear.

use vstd::prelude::*;
use crate::cb::DmaControlBlock;
use crate::regwin::{
    bit_state, spec_reads_at, spec_rmw_ops, PollTimeout, RegOp, RegisterWindow,
};

verus! {

/// Byte offset of a channel's control/status register inside its block.
pub const DMA_CS: usize = 0x00;
/// Byte offset of a channel's next-control-block register.
pub const DMA_CONBLK_AD: usize = 0x04;
/// Byte offset of a channel's debug register.
pub const DMA_DEBUG: usize = 0x20;
/// Byte offset of the global enable register.
pub const DMA_ENABLE: usize = 0xff0;
/// Each channel's register block spans this many bytes.
pub const DMA_CHANNEL_STRIDE: usize = 0x100;
/// The window must cover the global enable register.
pub const DMA_WINDOW_SIZE: usize = 0xff4;

/// Transfer-information flag: wait for write responses.
pub const DMA_WAIT_RESP: u32 = 1u32 << 3;
/// Transfer-information flag: increment the destination address.
pub const DMA_CB_DEST_INC: u32 = 1u32 << 4;
/// Transfer-information flag: gate the destination on its DREQ line.
pub const DMA_DEST_DREQ: u32 = 1u32 << 6;
/// Transfer-information flag: increment the source address.
pub const DMA_CB_SRCE_INC: u32 = 1u32 << 8;
/// Transfer-information flag: gate the source on its DREQ line.
pub const DMA_SRCE_DREQ: u32 = 1u32 << 10;

/// The AXI-priority bits of a transfer-information word.
pub open spec fn spec_dma_priority(n: u32) -> u32 {
    n << 16
}

/// Place a priority level into the transfer-information word's priority
/// bits.
pub fn dma_priority(n: u32) -> (r: u32)
    ensures
        r == spec_dma_priority(n),
{
    n << 16
}

/// Byte offset of channel `channel`'s control/status register.
pub open spec fn spec_cs_off(channel: u8) -> usize {
    ((channel as usize) * DMA_CHANNEL_STRIDE + DMA_CS) as usize
}

/// Byte offset of channel `channel`'s next-control-block register.
pub open spec fn spec_conblk_off(channel: u8) -> usize {
    ((channel as usize) * DMA_CHANNEL_STRIDE + DMA_CONBLK_AD) as usize
}

/// Byte offset of channel `channel`'s debug register.
pub open spec fn spec_debug_off(channel: u8) -> usize {
    ((channel as usize) * DMA_CHANNEL_STRIDE + DMA_DEBUG) as usize
}

/// The bit of channel `channel` in the global enable register.
pub open spec fn spec_channel_bit(channel: u8) -> u32 {
    1u32 << (channel as u32)
}

/// The trace of one `enable` call: the channel's bit is ored into the
/// global enable register, and on the first call only, the channel's
/// reset bit is ored into its control/status register.
pub open spec fn spec_enable_ops(
    channel: u8,
    reset_already_done: bool,
    enable_prev: u32,
    reset_prev: u32,
) -> Seq<RegOp> {
    let b = spec_channel_bit(channel);
    if reset_already_done {
        spec_rmw_ops(DMA_ENABLE, b, b, enable_prev)
    } else {
        spec_rmw_ops(DMA_ENABLE, b, b, enable_prev) + spec_rmw_ops(
            spec_cs_off(channel),
            1u32 << 31,
            1u32 << 31,
            reset_prev,
        )
    }
}

/// The four writes of one `start` call, in program order: descriptor
/// address, end-flag clear, error-bits clear, active bit.
pub open spec fn spec_start_ops(channel: u8, cb_addr: u32) -> Seq<RegOp> {
    seq![
        RegOp::Write { off: spec_conblk_off(channel), value: cb_addr },
        RegOp::Write { off: spec_cs_off(channel), value: 2u32 },
        RegOp::Write { off: spec_debug_off(channel), value: 7u32 },
        RegOp::Write { off: spec_cs_off(channel), value: 1u32 },
    ]
}

/// Whether `op` is one of `start`'s stale-flag clears: the end-flag write
/// or the error-bits write.
pub open spec fn is_flag_clear_write(op: RegOp, channel: u8) -> bool {
    op == (RegOp::Write { off: spec_cs_off(channel), value: 2u32 }) || op == (RegOp::Write {
        off: spec_debug_off(channel),
        value: 7u32,
    })
}

/// Whether `op` is the write that sets the channel's active bit.
pub open spec fn is_active_set_write(op: RegOp, channel: u8) -> bool {
    op == (RegOp::Write { off: spec_cs_off(channel), value: 1u32 })
}

/// In the start sequence, every stale-flag clear precedes the active-bit
/// write: no stale end or error flag can be observed once the channel is
/// active.
pub proof fn lemma_start_clears_before_active(channel: u8, cb_addr: u32)
    ensures
        ({
            let ops = spec_start_ops(channel, cb_addr);
            &&& ops.len() == 4
            &&& forall|i: int, j: int|
                0 <= i < ops.len() && 0 <= j < ops.len() && is_flag_clear_write(ops[i], channel)
                    && is_active_set_write(ops[j], channel) ==> i < j
        }),
{
}

/// The postcondition of a bounded wait on channel `channel`: the trace
/// grew only by reads of the channel's control/status register; success
/// returns the first value observed with the active bit clear, and every
/// earlier observation still had it set; timeout means every one of
/// `limit` observations had it set.
pub open spec fn spec_wait_post(
    before: Seq<RegOp>,
    after: Seq<RegOp>,
    channel: u8,
    limit: usize,
    r: Result<u32, PollTimeout>,
) -> bool {
    exists|obs: Seq<u32>|
        {
            &&& after == before + spec_reads_at(spec_cs_off(channel), obs)
            &&& 1 <= obs.len() <= limit
            &&& forall|i: int| 0 <= i < obs.len() - 1 ==> obs[i] & 1 != 0
            &&& match r {
                Ok(v) => obs.last() == v && v & 1 == 0,
                Err(_) => obs.len() == limit && obs.last() & 1 != 0,
            }
        }
}

/// One DMA channel: its register window, its descriptor, and the
/// per-instance one-shot reset latch.
pub struct Dma {
    channel: u8,
    /// The DMA controller's register window; all channel registers and the
    /// global enable register live inside it.
    pub win: RegisterWindow,
    control_block: DmaControlBlock,
    reset_done: bool,
}

impl Dma {
    /// The channel index this engine drives.
    pub closed spec fn spec_channel(&self) -> u8 {
        self.channel
    }

    /// Whether the one-time peripheral reset has already fired.
    pub closed spec fn spec_reset_done(&self) -> bool {
        self.reset_done
    }

    /// The transfer descriptor owned by this engine.
    pub closed spec fn spec_cb(&self) -> DmaControlBlock {
        self.control_block
    }

    /// The accesses performed on the controller's register window,
    /// oldest first.
    pub closed spec fn spec_trace(&self) -> Seq<RegOp> {
        self.win.trace()
    }

    /// A usable engine: valid channel, window covering the controller
    /// block, well-formed descriptor.
    pub closed spec fn wf(&self) -> bool {
        &&& self.spec_channel() < 15
        &&& self.win.wf()
        &&& self.win.spec_size() >= DMA_WINDOW_SIZE
        &&& self.spec_cb().wf()
    }

    /// Build an engine for `channel` from the controller's register window
    /// and a descriptor.  No register is touched; the reset latch starts
    /// unfired.
    pub fn new(channel: u8, win: RegisterWindow, control_block: DmaControlBlock) -> (r: Dma)
        requires
            channel < 15,
            win.wf(),
            win.spec_size() >= DMA_WINDOW_SIZE,
            control_block.wf(),
        ensures
            r.wf(),
            r.spec_channel() == channel,
            !r.spec_reset_done(),
            r.spec_trace() == win.trace(),
            r.spec_cb() == control_block,
    {
        Dma { channel, win, control_block, reset_done: false }
    }

    /// Borrow the transfer descriptor for field programming.
    pub fn get_cb(&mut self) -> (cb: &mut DmaControlBlock)
        ensures
            *cb == old(self).spec_cb(),
            final(self).spec_cb() == *final(cb),
            final(self).spec_trace() == old(self).spec_trace(),
            final(self).spec_channel() == old(self).spec_channel(),
            final(self).spec_reset_done() == old(self).spec_reset_done(),
            old(self).wf() && final(cb).wf() ==> final(self).wf(),
    {
        &mut self.control_block
    }

    /// Set this channel's bit in the global enable register; on the first
    /// call of this instance only, also or the reset bit into the
    /// channel's control/status register.
    pub fn enable(&mut self)
        requires
            old(self).wf(),
        ensures
            final(self).wf(),
            final(self).spec_channel() == old(self).spec_channel(),
            final(self).spec_cb() == old(self).spec_cb(),
            final(self).spec_reset_done(),
            exists|enable_prev: u32, reset_prev: u32|
                final(self).spec_trace() == old(self).spec_trace() + spec_enable_ops(
                    old(self).spec_channel(),
                    old(self).spec_reset_done(),
                    enable_prev,
                    reset_prev,
                ),
    {
        let b: u32 = 1u32 << (self.channel as u32);
        let enable_prev = self.win.rmw_reg(DMA_ENABLE, b, b);
        if !self.reset_done {
            let cs_off: usize = (self.channel as usize) * DMA_CHANNEL_STRIDE + DMA_CS;
            let reset_prev = self.win.rmw_reg(cs_off, 1u32 << 31, 1u32 << 31);
            self.reset_done = true;
            assert(self.win.trace() =~= old(self).spec_trace() + spec_enable_ops(
                old(self).spec_channel(),
                old(self).spec_reset_done(),
                enable_prev,
                reset_prev,
            ));
        } else {
            assert(self.win.trace() =~= old(self).spec_trace() + spec_enable_ops(
                old(self).spec_channel(),
                old(self).spec_reset_done(),
                enable_prev,
                0u32,
            ));
        }
    }

    /// Clear this channel's bit in the global enable register.
    pub fn disable(&mut self)
        requires
            old(self).wf(),
        ensures
            final(self).wf(),
            final(self).spec_channel() == old(self).spec_channel(),
            final(self).spec_cb() == old(self).spec_cb(),
            final(self).spec_reset_done() == old(self).spec_reset_done(),
            exists|prev: u32|
                final(self).spec_trace() == old(self).spec_trace() + spec_rmw_ops(
                    DMA_ENABLE,
                    spec_channel_bit(old(self).spec_channel()),
                    0u32,
                    prev,
                ),
    {
        let b: u32 = 1u32 << (self.channel as u32);
        let prev = self.win.rmw_reg(DMA_ENABLE, b, 0);
        assert(self.win.trace() == old(self).spec_trace() + spec_rmw_ops(
            DMA_ENABLE,
            spec_channel_bit(old(self).spec_channel()),
            0u32,
            prev,
        ));
    }

    /// Unconditionally or the reset bit into the channel's control/status
    /// register, independent of the one-shot latch in `enable`.
    pub fn reset(&mut self)
        requires
            old(self).wf(),
        ensures
            final(self).wf(),
            final(self).spec_channel() == old(self).spec_channel(),
            final(self).spec_cb() == old(self).spec_cb(),
            final(self).spec_reset_done() == old(self).spec_reset_done(),
            exists|prev: u32|
                final(self).spec_trace() == old(self).spec_trace() + spec_rmw_ops(
                    spec_cs_off(old(self).spec_channel()),
                    1u32 << 31,
                    1u32 << 31,
                    prev,
                ),
    {
        let cs_off: usize = (self.channel as usize) * DMA_CHANNEL_STRIDE + DMA_CS;
        let prev = self.win.rmw_reg(cs_off, 1u32 << 31, 1u32 << 31);
        assert(self.win.trace() == old(self).spec_trace() + spec_rmw_ops(
            spec_cs_off(old(self).spec_channel()),
            1u32 << 31,
            1u32 << 31,
            prev,
        ));
    }

    /// Arm the channel: write the descriptor's bus address, clear the end
    /// flag, clear the error bits, then set the active bit — in that
    /// order.
    pub fn start(&mut self)
        requires
            old(self).wf(),
        ensures
            final(self).wf(),
            final(self).spec_channel() == old(self).spec_channel(),
            final(self).spec_cb() == old(self).spec_cb(),
            final(self).spec_reset_done() == old(self).spec_reset_done(),
            final(self).spec_trace() == old(self).spec_trace() + spec_start_ops(
                old(self).spec_channel(),
                old(self).spec_cb().spec_busaddr(),
            ),
    {
        let base: usize = (self.channel as usize) * DMA_CHANNEL_STRIDE;
        let addr = self.control_block.busaddr();
        self.win.write_reg(base + DMA_CONBLK_AD, addr);
        self.win.write_reg(base + DMA_CS, 2);  // clear the end flag
        self.win.write_reg(base + DMA_DEBUG, 7);  // clear the error bits
        self.win.write_reg(base + DMA_CS, 1);  // set the active bit
        assert(self.win.trace() =~= old(self).spec_trace() + spec_start_ops(
            old(self).spec_channel(),
            old(self).spec_cb().spec_busaddr(),
        ));
    }

    /// Poll the channel's control/status register until the active bit is
    /// observed clear, giving up after `limit` reads.  Success returns the
    /// observed value, whose active bit is zero; every earlier observation
    /// still had the active bit set.
    pub fn wait(&mut self, limit: usize) -> (r: Result<u32, PollTimeout>)
        requires
            old(self).wf(),
            1 <= limit,
        ensures
            final(self).wf(),
            final(self).spec_channel() == old(self).spec_channel(),
            final(self).spec_cb() == old(self).spec_cb(),
            final(self).spec_reset_done() == old(self).spec_reset_done(),
            spec_wait_post(
                old(self).spec_trace(),
                final(self).spec_trace(),
                old(self).spec_channel(),
                limit,
                r,
            ),
    {
        let cs_off: usize = (self.channel as usize) * DMA_CHANNEL_STRIDE + DMA_CS;
        assert(cs_off == spec_cs_off(old(self).spec_channel()));
        let r = self.win.poll_field(cs_off, 1, false, limit);
        proof {
            let obs = choose|obs: Seq<u32>|
                {
                    &&& self.win.trace() == old(self).spec_trace() + spec_reads_at(cs_off, obs)
                    &&& 1 <= obs.len() <= limit
                    &&& forall|i: int| 0 <= i < obs.len() - 1 ==> !bit_state(obs[i], 1u32, false)
                    &&& match r {
                        Ok(v) => obs.last() == v && bit_state(v, 1u32, false),
                        Err(_) => obs.len() == limit && !bit_state(obs.last(), 1u32, false),
                    }
                };
            assert(forall|i: int| 0 <= i < obs.len() - 1 ==> obs[i] & 1 != 0);
            assert({
                &&& self.spec_trace() == old(self).spec_trace() + spec_reads_at(cs_off, obs)
                &&& 1 <= obs.len() <= limit
                &&& forall|i: int| 0 <= i < obs.len() - 1 ==> obs[i] & 1 != 0
                &&& match r {
                    Ok(v) => obs.last() == v && v & 1 == 0,
                    Err(_) => obs.len() == limit && obs.last() & 1 != 0,
                }
            });
        }
        r
    }
}

/// What well-formedness of an engine gives its callers: a valid channel
/// index and a descriptor large enough for every field.
pub proof fn lemma_dma_wf_parts(d: &Dma)
    requires
        d.wf(),
    ensures
        d.spec_channel() < 15,
        d.spec_cb().wf(),
{
}

/// Over one engine instance, two consecutive `enable` calls fire the
/// peripheral reset exactly once: the first call's trace holds the reset
/// write and the second call's trace holds none.
pub proof fn lemma_reset_fires_once(channel: u8, e1: u32, r1: u32, e2: u32, r2: u32)
    requires
        channel < 15,
    ensures
        spec_enable_ops(channel, false, e1, r1).len() == 4,
        spec_enable_ops(channel, false, e1, r1)[3] == (RegOp::Write {
            off: spec_cs_off(channel),
            value: crate::regwin::spec_rmw_value(r1, 1u32 << 31, 1u32 << 31),
        }),
        spec_enable_ops(channel, true, e2, r2).len() == 2,
        forall|i: int|
            0 <= i < spec_enable_ops(channel, true, e2, r2).len() ==> !(spec_enable_ops(
                channel,
                true,
                e2,
                r2,
            )[i] is Write && spec_enable_ops(channel, true, e2, r2)[i]->Write_off == spec_cs_off(
                channel,
            )),
{
    let second = spec_enable_ops(channel, true, e2, r2);
    assert(second[0] is Read);
    assert(second[1]->Write_off == DMA_ENABLE);
    assert(DMA_ENABLE != spec_cs_off(channel));
}

} // verus!
