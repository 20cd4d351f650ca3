//! The timing peripheral: clock configuration, device timing, and
//! DMA-fed transfers.
//!
//! The peripheral streams bytes at a fixed rate set by a clock divisor,
//! paces the DMA engine through its own request line, and raises a start
//! bit to begin consuming a prepared buffer.  All register effects are
//! stated over the windows' traces, and a combined order across the
//! engine's and the peripheral's blocks additionally fixes the
//! cross-window ordering of a transfer: the engine is armed before the
//! peripheral starts consuming.

use core::ops::Range;
use vstd::prelude::*;
use crate::cb::{
    spec_word_at, CB_DESTINATION_ADDRESS, CB_SOURCE_ADDRESS, CB_TRANSFER_INFO, CB_TRANSFER_LENGTH,
};
use crate::dma::{
    spec_enable_ops, spec_start_ops, spec_wait_post, Dma, DMA_CB_SRCE_INC, DMA_DEST_DREQ,
    DMA_WAIT_RESP,
};
use crate::mem::VcMem;
use crate::regwin::{
    bit_state, spec_field_write_ops, spec_reads_at, spec_rmw_ops, PollTimeout, RegOp,
    RegisterWindow,
};
use crate::smi_regs::{
    A, CS, DCA, DCD, DCS, DMC, DSR, DSW, L, SMI_A, SMI_CS, SMI_D, SMI_DCA, SMI_DCS, SMI_DMC,
    SMI_DSR, SMI_DSW, SMI_L, SMI_WINDOW_SIZE,
};

verus! {

/// Width code for 8-bit transfers.
pub const SMI_8_BITS: u8 = 0;
/// Width code for 16-bit transfers.
pub const SMI_16_BITS: u8 = 1;
/// Width code for 18-bit transfers.
pub const SMI_18_BITS: u8 = 2;
/// Width code for 9-bit transfers.
pub const SMI_9_BITS: u8 = 3;

/// The peripheral's DMA-request line number, carried in the
/// transfer-information word's peripheral-map bits.
pub const DMA_SMI_DREQ: u32 = 4;

/// The DMA request threshold programmed for both directions.
pub const REQUEST_THRESH: u8 = 2;

/// Byte offset of the peripheral's clock-control register inside the
/// clock manager's block.
pub const CLK_SMI_CTL: usize = 0xb0;
/// Byte offset of the peripheral's clock-divisor register.
pub const CLK_SMI_DIV: usize = 0xb4;
/// The clock manager ignores writes that do not carry this password in
/// their top byte.
pub const CLK_PASSWD: u32 = 0x5a00_0000;
/// The clock manager's window must cover both registers.
pub const CLK_WINDOW_SIZE: usize = 0xb8;
/// The busy flag of the clock-control register.
pub const CLK_BUSY_BIT: u32 = 1u32 << 7;

/// The clock divisor for a wanted output period: the period in
/// nanoseconds divided by two, since the selected parent source ticks
/// twice per nanosecond.
pub open spec fn spec_clock_divisor(ns_per_cycle: u32) -> u32 {
    ns_per_cycle / 2
}

/// The write that stops the clock.
pub open spec fn spec_clock_kill_op() -> RegOp {
    RegOp::Write { off: CLK_SMI_CTL, value: CLK_PASSWD | (1u32 << 5) }
}

/// The write that selects the clock's parent source.
pub open spec fn spec_clock_source_op() -> RegOp {
    RegOp::Write { off: CLK_SMI_CTL, value: CLK_PASSWD | 6u32 }
}

/// The write that programs the divisor; the divisor register's low eight
/// bits are fixed, so the divisor is shifted past them.
pub open spec fn spec_clock_divisor_op(divisor: u32) -> RegOp {
    RegOp::Write { off: CLK_SMI_DIV, value: CLK_PASSWD | (divisor << 8) }
}

/// The trace of a clock configuration up to and including the re-enable:
/// stop, wait until stopped, select source, program divisor, enable.
pub open spec fn spec_clock_prefix(divisor: u32, stop_obs: Seq<u32>, enable_prev: u32) -> Seq<
    RegOp,
> {
    seq![spec_clock_kill_op()] + spec_reads_at(CLK_SMI_CTL, stop_obs) + seq![
        spec_clock_source_op(),
        spec_clock_divisor_op(divisor),
    ] + spec_rmw_ops(CLK_SMI_CTL, CLK_PASSWD | (1u32 << 4), CLK_PASSWD | (1u32 << 4), enable_prev)
}

/// A successful clock configuration: the exact ordered sequence
/// stop → poll-until-stopped → select-source → program-divisor → enable →
/// poll-until-running, where the divisor write happens only after a read
/// observed the busy flag clear.
pub open spec fn spec_clock_config_trace(before: Seq<RegOp>, after: Seq<RegOp>, divisor: u32) -> bool {
    exists|stop_obs: Seq<u32>, enable_prev: u32, run_obs: Seq<u32>|
        {
            &&& after == before + spec_clock_prefix(divisor, stop_obs, enable_prev)
                + spec_reads_at(CLK_SMI_CTL, run_obs)
            &&& 1 <= stop_obs.len()
            &&& stop_obs.last() & CLK_BUSY_BIT == 0
            &&& forall|i: int| 0 <= i < stop_obs.len() - 1 ==> stop_obs[i] & CLK_BUSY_BIT != 0
            &&& 1 <= run_obs.len()
            &&& run_obs.last() & CLK_BUSY_BIT != 0
            &&& forall|i: int| 0 <= i < run_obs.len() - 1 ==> run_obs[i] & CLK_BUSY_BIT == 0
        }
}

/// A timed-out clock configuration: either every read of the bounded
/// stop-poll still saw the clock busy and nothing past the stop write was
/// performed, or the clock stopped, the divisor was programmed, and every
/// read of the bounded run-poll still saw the clock stopped.
pub open spec fn spec_clock_config_failed(
    before: Seq<RegOp>,
    after: Seq<RegOp>,
    divisor: u32,
    limit: usize,
) -> bool {
    (exists|obs: Seq<u32>|
        {
            &&& after == before + seq![spec_clock_kill_op()] + spec_reads_at(CLK_SMI_CTL, obs)
            &&& obs.len() == limit
            &&& forall|i: int| 0 <= i < obs.len() ==> obs[i] & CLK_BUSY_BIT != 0
        }) || (exists|stop_obs: Seq<u32>, enable_prev: u32, obs: Seq<u32>|
        {
            &&& after == before + spec_clock_prefix(divisor, stop_obs, enable_prev)
                + spec_reads_at(CLK_SMI_CTL, obs)
            &&& 1 <= stop_obs.len()
            &&& stop_obs.last() & CLK_BUSY_BIT == 0
            &&& forall|i: int| 0 <= i < stop_obs.len() - 1 ==> stop_obs[i] & CLK_BUSY_BIT != 0
            &&& obs.len() == limit
            &&& forall|i: int| 0 <= i < obs.len() ==> obs[i] & CLK_BUSY_BIT == 0
        })
}

/// Configure the peripheral's clock for a divisor of `ns_per_cycle / 2`:
/// stop the clock, wait until it reports stopped, select the parent
/// source, program the divisor — which the hardware accepts only while
/// the clock is stopped — then re-enable it and wait until it reports
/// running.  Each wait gives up after `poll_limit` reads.
pub fn configure_clock(w: &mut RegisterWindow, ns_per_cycle: u32, poll_limit: usize) -> (r:
    Result<u32, PollTimeout>)
    requires
        old(w).wf(),
        CLK_WINDOW_SIZE <= old(w).spec_size(),
        1 <= poll_limit,
    ensures
        final(w).wf(),
        final(w).spec_size() == old(w).spec_size(),
        match r {
            Ok(d) => d == spec_clock_divisor(ns_per_cycle) && spec_clock_config_trace(
                old(w).trace(),
                final(w).trace(),
                spec_clock_divisor(ns_per_cycle),
            ),
            Err(_) => spec_clock_config_failed(
                old(w).trace(),
                final(w).trace(),
                spec_clock_divisor(ns_per_cycle),
                poll_limit,
            ),
        },
{
    let divisor = ns_per_cycle / 2;

    // stop the clock and wait for it to report stopped: the divisor may
    // only be written while the clock is not running
    w.write_reg(CLK_SMI_CTL, CLK_PASSWD | (1u32 << 5));
    let ghost t_kill = w.trace();
    let r1 = w.poll_field(CLK_SMI_CTL, CLK_BUSY_BIT, false, poll_limit);
    if r1.is_err() {
        proof {
            let obs = choose|obs: Seq<u32>|
                {
                    &&& w.trace() == t_kill + spec_reads_at(CLK_SMI_CTL, obs)
                    &&& 1 <= obs.len() <= poll_limit
                    &&& forall|i: int|
                        0 <= i < obs.len() - 1 ==> !bit_state(obs[i], CLK_BUSY_BIT, false)
                    &&& obs.len() == poll_limit
                    &&& !bit_state(obs.last(), CLK_BUSY_BIT, false)
                };
            assert(w.trace() =~= old(w).trace() + seq![spec_clock_kill_op()] + spec_reads_at(
                CLK_SMI_CTL,
                obs,
            ));
            assert(forall|i: int| 0 <= i < obs.len() ==> obs[i] & CLK_BUSY_BIT != 0);
        }
        return Err(PollTimeout);
    }
    let ghost stop_obs = choose|obs: Seq<u32>|
        {
            &&& w.trace() == t_kill + spec_reads_at(CLK_SMI_CTL, obs)
            &&& 1 <= obs.len() <= poll_limit
            &&& forall|i: int| 0 <= i < obs.len() - 1 ==> !bit_state(obs[i], CLK_BUSY_BIT, false)
            &&& bit_state(obs.last(), CLK_BUSY_BIT, false)
        };

    // select the parent source, then program the divisor past the
    // divisor register's fixed low byte
    w.write_reg(CLK_SMI_CTL, CLK_PASSWD | 6);
    w.write_reg(CLK_SMI_DIV, CLK_PASSWD | (divisor << 8));

    // re-enable the clock and wait for it to report running
    let enable_prev = w.rmw_reg(
        CLK_SMI_CTL,
        CLK_PASSWD | (1u32 << 4),
        CLK_PASSWD | (1u32 << 4),
    );
    let ghost t_enabled = w.trace();
    proof {
        assert(t_enabled =~= old(w).trace() + spec_clock_prefix(divisor, stop_obs, enable_prev));
    }
    let r2 = w.poll_field(CLK_SMI_CTL, CLK_BUSY_BIT, true, poll_limit);
    if r2.is_err() {
        proof {
            let obs = choose|obs: Seq<u32>|
                {
                    &&& w.trace() == t_enabled + spec_reads_at(CLK_SMI_CTL, obs)
                    &&& 1 <= obs.len() <= poll_limit
                    &&& forall|i: int|
                        0 <= i < obs.len() - 1 ==> !bit_state(obs[i], CLK_BUSY_BIT, true)
                    &&& obs.len() == poll_limit
                    &&& !bit_state(obs.last(), CLK_BUSY_BIT, true)
                };
            assert(w.trace() =~= old(w).trace() + spec_clock_prefix(divisor, stop_obs, enable_prev)
                + spec_reads_at(CLK_SMI_CTL, obs));
            assert(forall|i: int| 0 <= i < obs.len() ==> obs[i] & CLK_BUSY_BIT == 0);
        }
        return Err(PollTimeout);
    }
    proof {
        let obs = choose|obs: Seq<u32>|
            {
                &&& w.trace() == t_enabled + spec_reads_at(CLK_SMI_CTL, obs)
                &&& 1 <= obs.len() <= poll_limit
                &&& forall|i: int| 0 <= i < obs.len() - 1 ==> !bit_state(obs[i], CLK_BUSY_BIT, true)
                &&& bit_state(obs.last(), CLK_BUSY_BIT, true)
            };
        assert(w.trace() =~= old(w).trace() + spec_clock_prefix(divisor, stop_obs, enable_prev)
            + spec_reads_at(CLK_SMI_CTL, obs));
        assert(forall|i: int| 0 <= i < obs.len() - 1 ==> obs[i] & CLK_BUSY_BIT == 0);
    }
    Ok(divisor)
}

/// The width code a supported bit width is programmed as.
pub open spec fn spec_width_code(width_bits: usize) -> u8 {
    if width_bits == 8 {
        SMI_8_BITS
    } else if width_bits == 16 {
        SMI_16_BITS
    } else if width_bits == 18 {
        SMI_18_BITS
    } else {
        SMI_9_BITS
    }
}

/// The zeroing writes performed while binding the register set, in
/// construction order.
pub open spec fn spec_smi_init_ops() -> Seq<RegOp> {
    seq![
        RegOp::Write { off: SMI_CS, value: 0u32 },
        RegOp::Write { off: SMI_L, value: 0u32 },
        RegOp::Write { off: SMI_A, value: 0u32 },
        RegOp::Write { off: SMI_DMC, value: 0u32 },
        RegOp::Write { off: SMI_DSR, value: 0u32 },
        RegOp::Write { off: SMI_DSW, value: 0u32 },
        RegOp::Write { off: SMI_DCS, value: 0u32 },
        RegOp::Write { off: SMI_DCA, value: 0u32 },
    ]
}

/// The error-clearing step: one read of the control/status register and,
/// only if it observed the latched-error bit set, the write-one-to-clear
/// of that bit.
pub open spec fn spec_seterr_ops(seterr_raw: u32, seterr_prev: u32) -> Seq<RegOp> {
    seq![RegOp::Read { off: SMI_CS, value: seterr_raw }] + if crate::bitfield::spec_get_field(
        seterr_raw,
        13,
        1,
    ) != 0 {
        spec_field_write_ops(SMI_CS, 13, 1, 1u32, seterr_prev)
    } else {
        Seq::empty()
    }
}

/// The device-timing writes, in program order: setup, strobe, hold,
/// width, and pace, each programmed identically for reads and writes,
/// then the DMA panic and request thresholds, and finally — for 8-bit
/// width only — byte-swap on writes.  `prevs` holds the fifteen values
/// the read-modify-writes observed.
pub open spec fn spec_timing_ops(
    setup: u8,
    strobe: u8,
    hold: u8,
    width_code: u8,
    pace: u8,
    prevs: Seq<u32>,
) -> Seq<RegOp>
    recommends
        prevs.len() == 15,
{
    spec_field_write_ops(SMI_DSR, 24, 6, setup as u32, prevs[0]) + spec_field_write_ops(
        SMI_DSW,
        24,
        6,
        setup as u32,
        prevs[1],
    ) + spec_field_write_ops(SMI_DSR, 0, 7, strobe as u32, prevs[2]) + spec_field_write_ops(
        SMI_DSW,
        0,
        7,
        strobe as u32,
        prevs[3],
    ) + spec_field_write_ops(SMI_DSR, 16, 6, hold as u32, prevs[4]) + spec_field_write_ops(
        SMI_DSW,
        16,
        6,
        hold as u32,
        prevs[5],
    ) + spec_field_write_ops(SMI_DSR, 30, 2, width_code as u32, prevs[6]) + spec_field_write_ops(
        SMI_DSW,
        30,
        2,
        width_code as u32,
        prevs[7],
    ) + spec_field_write_ops(SMI_DSR, 8, 7, pace as u32, prevs[8]) + spec_field_write_ops(
        SMI_DSW,
        8,
        7,
        pace as u32,
        prevs[9],
    ) + spec_field_write_ops(SMI_DMC, 18, 6, 8u32, prevs[10]) + spec_field_write_ops(
        SMI_DMC,
        12,
        6,
        8u32,
        prevs[11],
    ) + spec_field_write_ops(SMI_DMC, 6, 6, REQUEST_THRESH as u32, prevs[12])
        + spec_field_write_ops(SMI_DMC, 0, 6, REQUEST_THRESH as u32, prevs[13]) + if width_code
        == SMI_8_BITS {
        spec_field_write_ops(SMI_DSW, 22, 1, 1u32, prevs[14])
    } else {
        Seq::empty()
    }
}

/// The transfer-information flags of the single descriptor wired by
/// `setup_transfer`: wait for write responses, increment the source
/// address, pace the destination by this peripheral's own DMA-request
/// line, and gate the destination on that line.
pub open spec fn spec_transfer_info_flags() -> u32 {
    DMA_DEST_DREQ | (DMA_SMI_DREQ << 16) | DMA_CB_SRCE_INC | DMA_WAIT_RESP
}

/// The bus address of the peripheral's data register, as a DMA
/// descriptor's destination must carry it.
pub open spec fn spec_smi_d_bus_addr() -> u32 {
    crate::addr::spec_peripheral_bus_address(
        (crate::addr::SMI_BASE_ADDRESS + SMI_D as u32) as u32,
    )
}

/// The peripheral programming of one `setup_transfer` call, in program
/// order: DMA-enable, peripheral-enable, FIFO-clear, pixel-data mode,
/// address zero, transfer length, write direction.  `prevs` holds the six
/// values the read-modify-writes observed.
pub open spec fn spec_setup_smi_ops(len: u32, prevs: Seq<u32>) -> Seq<RegOp>
    recommends
        prevs.len() == 6,
{
    spec_field_write_ops(SMI_DMC, 28, 1, 1u32, prevs[0]) + spec_field_write_ops(
        SMI_CS,
        0,
        1,
        1u32,
        prevs[1],
    ) + spec_field_write_ops(SMI_CS, 4, 1, 1u32, prevs[2]) + spec_field_write_ops(
        SMI_CS,
        14,
        1,
        1u32,
        prevs[3],
    ) + spec_field_write_ops(SMI_A, 0, 6, 0u32, prevs[4]) + seq![
        RegOp::Write { off: SMI_L, value: len },
    ] + spec_field_write_ops(SMI_CS, 5, 1, 1u32, prevs[5])
}

/// One access in the driver's combined order: on the DMA engine's
/// controller block or on the peripheral's own block.
pub enum DeviceOp {
    Engine { op: RegOp },
    Peripheral { op: RegOp },
}

/// The engine-side accesses of a combined order, in order.
pub open spec fn spec_engine_part(t: Seq<DeviceOp>) -> Seq<RegOp>
    decreases t.len(),
{
    if t.len() == 0 {
        Seq::empty()
    } else {
        match t.last() {
            DeviceOp::Engine { op } => spec_engine_part(t.drop_last()).push(op),
            DeviceOp::Peripheral { op: _ } => spec_engine_part(t.drop_last()),
        }
    }
}

/// The peripheral-side accesses of a combined order, in order.
pub open spec fn spec_peripheral_part(t: Seq<DeviceOp>) -> Seq<RegOp>
    decreases t.len(),
{
    if t.len() == 0 {
        Seq::empty()
    } else {
        match t.last() {
            DeviceOp::Engine { op: _ } => spec_peripheral_part(t.drop_last()),
            DeviceOp::Peripheral { op } => spec_peripheral_part(t.drop_last()).push(op),
        }
    }
}

/// A run of accesses, all engine-side.
pub open spec fn spec_as_engine(s: Seq<RegOp>) -> Seq<DeviceOp> {
    s.map(|i: int, op: RegOp| DeviceOp::Engine { op })
}

/// A run of accesses, all peripheral-side.
pub open spec fn spec_as_peripheral(s: Seq<RegOp>) -> Seq<DeviceOp> {
    s.map(|i: int, op: RegOp| DeviceOp::Peripheral { op })
}

/// Both projections distribute over concatenation.
pub proof fn lemma_device_parts_add(a: Seq<DeviceOp>, b: Seq<DeviceOp>)
    ensures
        spec_engine_part(a + b) == spec_engine_part(a) + spec_engine_part(b),
        spec_peripheral_part(a + b) == spec_peripheral_part(a) + spec_peripheral_part(b),
    decreases b.len(),
{
    if b.len() == 0 {
        assert(a + b =~= a);
        assert(spec_engine_part(a) + spec_engine_part(b) =~= spec_engine_part(a));
        assert(spec_peripheral_part(a) + spec_peripheral_part(b) =~= spec_peripheral_part(a));
    } else {
        lemma_device_parts_add(a, b.drop_last());
        assert((a + b).drop_last() =~= a + b.drop_last());
        assert((a + b).last() == b.last());
        match b.last() {
            DeviceOp::Engine { op } => {
                assert((spec_engine_part(a) + spec_engine_part(b.drop_last())).push(op)
                    =~= spec_engine_part(a) + spec_engine_part(b.drop_last()).push(op));
            },
            DeviceOp::Peripheral { op } => {
                assert((spec_peripheral_part(a) + spec_peripheral_part(b.drop_last())).push(op)
                    =~= spec_peripheral_part(a) + spec_peripheral_part(b.drop_last()).push(op));
            },
        }
    }
}

/// A tagged run projects to itself on its own side and to nothing on the
/// other.
pub proof fn lemma_parts_of_tagged(s: Seq<RegOp>)
    ensures
        spec_engine_part(spec_as_engine(s)) == s,
        spec_peripheral_part(spec_as_engine(s)) == Seq::<RegOp>::empty(),
        spec_engine_part(spec_as_peripheral(s)) == Seq::<RegOp>::empty(),
        spec_peripheral_part(spec_as_peripheral(s)) == s,
    decreases s.len(),
{
    if s.len() == 0 {
        assert(spec_as_engine(s) =~= Seq::<DeviceOp>::empty());
        assert(spec_as_peripheral(s) =~= Seq::<DeviceOp>::empty());
        assert(spec_engine_part(spec_as_engine(s)) =~= s);
        assert(spec_peripheral_part(spec_as_peripheral(s)) =~= s);
    } else {
        lemma_parts_of_tagged(s.drop_last());
        assert(spec_as_engine(s).drop_last() =~= spec_as_engine(s.drop_last()));
        assert(spec_as_peripheral(s).drop_last() =~= spec_as_peripheral(s.drop_last()));
        assert(spec_as_engine(s).last() == (DeviceOp::Engine { op: s.last() }));
        assert(spec_as_peripheral(s).last() == (DeviceOp::Peripheral { op: s.last() }));
        assert(spec_engine_part(spec_as_engine(s)) =~= s);
        assert(spec_peripheral_part(spec_as_peripheral(s)) =~= s);
    }
}

/// Appending an engine-side run extends the engine projection and leaves
/// the peripheral projection alone.
pub proof fn lemma_order_append_engine(order: Seq<DeviceOp>, seg: Seq<RegOp>)
    ensures
        spec_engine_part(order + spec_as_engine(seg)) == spec_engine_part(order) + seg,
        spec_peripheral_part(order + spec_as_engine(seg)) == spec_peripheral_part(order),
{
    lemma_parts_of_tagged(seg);
    lemma_device_parts_add(order, spec_as_engine(seg));
    assert(spec_peripheral_part(order) + Seq::<RegOp>::empty() =~= spec_peripheral_part(order));
}

/// Appending a peripheral-side run extends the peripheral projection and
/// leaves the engine projection alone.
pub proof fn lemma_order_append_peripheral(order: Seq<DeviceOp>, seg: Seq<RegOp>)
    ensures
        spec_engine_part(order + spec_as_peripheral(seg)) == spec_engine_part(order),
        spec_peripheral_part(order + spec_as_peripheral(seg)) == spec_peripheral_part(order) + seg,
{
    lemma_parts_of_tagged(seg);
    lemma_device_parts_add(order, spec_as_peripheral(seg));
    assert(spec_engine_part(order) + Seq::<RegOp>::empty() =~= spec_engine_part(order));
}

/// In one `start_transfer`, the engine is armed strictly before the
/// peripheral begins consuming: in the call's combined order, every
/// engine-side access precedes every peripheral-side access, and the
/// peripheral side is exactly the one start-bit write pair.
pub proof fn lemma_start_transfer_order(channel: u8, cb_addr: u32, prev: u32)
    ensures
        ({
            let ext = spec_as_engine(spec_start_ops(channel, cb_addr)) + spec_as_peripheral(
                spec_field_write_ops(SMI_CS, 3, 1, 1u32, prev),
            );
            &&& ext.len() == 6
            &&& forall|i: int, j: int|
                0 <= i < ext.len() && 0 <= j < ext.len() && ext[i] is Engine && ext[j]
                    is Peripheral ==> i < j
        }),
{
    let ext = spec_as_engine(spec_start_ops(channel, cb_addr)) + spec_as_peripheral(
        spec_field_write_ops(SMI_CS, 3, 1, 1u32, prev),
    );
    assert forall|i: int, j: int|
        0 <= i < ext.len() && 0 <= j < ext.len() && ext[i] is Engine && ext[j]
            is Peripheral implies i < j by {
        assert(ext[i] is Engine ==> i < 4);
        assert(ext[j] is Peripheral ==> j >= 4);
    }
}

/// Construction failed: a clock busy-wait exhausted its bound.  The
/// engine and both windows come back so the caller can release what it
/// acquired; their traces show the work already performed.
pub struct SmiInitTimeout {
    /// The engine, untouched.
    pub dma: Dma,
    /// The clock manager's window after the partial clock sequence.
    pub clk_win: RegisterWindow,
    /// The peripheral's window after the register set was bound and
    /// zeroed.
    pub smi_win: RegisterWindow,
}

/// The timing peripheral, its DMA engine, and both register windows.
pub struct Smi {
    dma: Dma,
    /// The clock manager's register window.
    pub clk_win: RegisterWindow,
    /// The peripheral's own register window.
    pub smi_win: RegisterWindow,
    cs: CS,
    l: L,
    a: A,
    dmc: DMC,
    dsr: DSR,
    dsw: DSW,
    dcs: DCS,
    dca: DCA,
    dcd: DCD,
    poll_limit: usize,
    order: Ghost<Seq<DeviceOp>>,
}

impl Smi {
    /// The DMA engine bound to the peripheral.
    pub closed spec fn spec_dma(&self) -> Dma {
        self.dma
    }

    /// The accesses performed on the clock manager's window.
    pub closed spec fn spec_clk_trace(&self) -> Seq<RegOp> {
        self.clk_win.trace()
    }

    /// The accesses performed on the peripheral's own window.
    pub closed spec fn spec_smi_trace(&self) -> Seq<RegOp> {
        self.smi_win.trace()
    }

    /// The bound on every busy-wait's reads.
    pub closed spec fn spec_poll_limit(&self) -> usize {
        self.poll_limit
    }

    /// The combined order of accesses across the engine's and the
    /// peripheral's own register blocks, oldest first.  Well-formedness
    /// ties its two projections to the windows' traces, so it adds
    /// exactly the cross-window ordering.
    pub closed spec fn spec_order(&self) -> Seq<DeviceOp> {
        self.order@
    }

    /// A usable driver: both windows cover their register blocks, the
    /// engine is well-formed, and the device-settings views sit at
    /// device 0.
    pub closed spec fn wf(&self) -> bool {
        &&& self.dma.wf()
        &&& self.clk_win.wf()
        &&& self.clk_win.spec_size() >= CLK_WINDOW_SIZE
        &&& self.smi_win.wf()
        &&& self.smi_win.spec_size() >= SMI_WINDOW_SIZE
        &&& self.dsr.off == SMI_DSR
        &&& self.dsw.off == SMI_DSW
        &&& 1 <= self.poll_limit
        &&& spec_engine_part(self.order@) == self.dma.spec_trace()
        &&& spec_peripheral_part(self.order@) == self.smi_win.trace()
    }

    /// Build the driver: bind and zero the register set, run the clock
    /// sequence for a divisor of `ns / 2`, clear any latched error, and
    /// program setup, strobe, hold, width, and pace identically for reads
    /// and writes; 8-bit width also enables byte-swap on writes, which the
    /// hardware needs for correct byte ordering at that width.  The only
    /// failure is a clock busy-wait that exhausted `poll_limit` reads.
    #[verifier::rlimit(100)]
    #[verifier::spinoff_prover]
    pub fn new(
        width_bits: usize,
        ns: u32,
        setup: u8,
        strobe: u8,
        hold: u8,
        pace: u8,
        dma: Dma,
        clk_win: RegisterWindow,
        smi_win: RegisterWindow,
        poll_limit: usize,
    ) -> (r: Result<Smi, SmiInitTimeout>)
        requires
            width_bits == 8 || width_bits == 9 || width_bits == 16 || width_bits == 18,
            dma.wf(),
            clk_win.wf(),
            clk_win.spec_size() >= CLK_WINDOW_SIZE,
            smi_win.wf(),
            smi_win.spec_size() >= SMI_WINDOW_SIZE,
            1 <= poll_limit,
        ensures
            match r {
                Ok(s) => {
                    &&& s.wf()
                    &&& s.spec_dma() == dma
                    &&& s.spec_poll_limit() == poll_limit
                    &&& spec_clock_config_trace(
                        clk_win.trace(),
                        s.spec_clk_trace(),
                        spec_clock_divisor(ns),
                    )
                    &&& exists|seterr_raw: u32, seterr_prev: u32, prevs: Seq<u32>|
                        prevs.len() == 15 && s.spec_smi_trace() == smi_win.trace()
                            + spec_smi_init_ops() + spec_seterr_ops(seterr_raw, seterr_prev)
                            + spec_timing_ops(
                            setup,
                            strobe,
                            hold,
                            spec_width_code(width_bits),
                            pace,
                            prevs,
                        )
                    &&& s.spec_order() == spec_as_engine(dma.spec_trace()) + spec_as_peripheral(
                        s.spec_smi_trace(),
                    )
                },
                Err(e) => {
                    &&& e.dma == dma
                    &&& e.clk_win.wf()
                    &&& e.clk_win.spec_size() == clk_win.spec_size()
                    &&& spec_clock_config_failed(
                        clk_win.trace(),
                        e.clk_win.trace(),
                        spec_clock_divisor(ns),
                        poll_limit,
                    )
                    &&& e.smi_win.wf()
                    &&& e.smi_win.spec_size() == smi_win.spec_size()
                    &&& e.smi_win.trace() == smi_win.trace() + spec_smi_init_ops()
                },
            },
    {
        let width: u8 = if width_bits == 8 {
            0
        } else if width_bits == 16 {
            1
        } else if width_bits == 18 {
            2
        } else {
            3
        };

        let mut clk_win = clk_win;
        let mut smi_win = smi_win;
        let ghost t0 = smi_win.trace();

        let cs = CS::new(&mut smi_win);
        let l = L::new(&mut smi_win);
        let a = A::new(&mut smi_win);
        let dmc = DMC::new(&mut smi_win);
        let dsr = DSR::new(&mut smi_win, 0);
        let dsw = DSW::new(&mut smi_win, 0);
        let dcs = DCS::new(&mut smi_win);
        let dca = DCA::new(&mut smi_win);
        let dcd = DCD::new(&mut smi_win);
        let ghost t_init = smi_win.trace();
        proof {
            assert(t_init =~= t0 + spec_smi_init_ops());
        }

        match configure_clock(&mut clk_win, ns, poll_limit) {
            Ok(_) => {},
            Err(_) => {
                return Err(SmiInitTimeout { dma, clk_win, smi_win });
            },
        }

        // clear any previously latched error
        let seterr = cs.get_seterr(&mut smi_win);
        let ghost seterr_raw = choose|raw: u32|
            smi_win.trace() == t_init.push(RegOp::Read { off: SMI_CS, value: raw }) && seterr == (
            crate::bitfield::spec_get_field(raw, 13, 1) != 0);
        let seterr_prev: u32 = if seterr {
            cs.set_seterr(&mut smi_win, true)
        } else {
            0
        };
        let ghost t_seterr = smi_win.trace();
        proof {
            assert(t_seterr =~= t_init + spec_seterr_ops(seterr_raw, seterr_prev));
        }

        let p0 = dsr.set_rsetup(&mut smi_win, setup);
        let p1 = dsw.set_wsetup(&mut smi_win, setup);
        let p2 = dsr.set_rstrobe(&mut smi_win, strobe);
        let p3 = dsw.set_wstrobe(&mut smi_win, strobe);
        let p4 = dsr.set_rhold(&mut smi_win, hold);
        let p5 = dsw.set_whold(&mut smi_win, hold);
        let p6 = dsr.set_rwidth(&mut smi_win, width);
        let p7 = dsw.set_wwidth(&mut smi_win, width);
        let p8 = dsr.set_rpace(&mut smi_win, pace);
        let p9 = dsw.set_wpace(&mut smi_win, pace);
        let p10 = dmc.set_panicr(&mut smi_win, 8);
        let p11 = dmc.set_panicw(&mut smi_win, 8);
        let p12 = dmc.set_reqr(&mut smi_win, REQUEST_THRESH);
        let p13 = dmc.set_reqw(&mut smi_win, REQUEST_THRESH);
        let p14: u32 = if width == SMI_8_BITS {
            dsw.set_wswap(&mut smi_win, true)
        } else {
            0
        };
        let ghost prevs = seq![p0, p1, p2, p3, p4, p5, p6, p7, p8, p9, p10, p11, p12, p13, p14];
        proof {
            assert(smi_win.trace() =~= t_seterr + spec_timing_ops(
                setup,
                strobe,
                hold,
                width,
                pace,
                prevs,
            ));
            assert(smi_win.trace() =~= t0 + spec_smi_init_ops() + spec_seterr_ops(
                seterr_raw,
                seterr_prev,
            ) + spec_timing_ops(setup, strobe, hold, width, pace, prevs));
            assert(width == spec_width_code(width_bits));
            assert(prevs.len() == 15 && smi_win.trace() == t0 + spec_smi_init_ops()
                + spec_seterr_ops(seterr_raw, seterr_prev) + spec_timing_ops(
                setup,
                strobe,
                hold,
                spec_width_code(width_bits),
                pace,
                prevs,
            ));
        }

        let ghost order: Seq<DeviceOp> = spec_as_engine(dma.spec_trace()) + spec_as_peripheral(
            smi_win.trace(),
        );
        proof {
            lemma_parts_of_tagged(dma.spec_trace());
            lemma_order_append_peripheral(spec_as_engine(dma.spec_trace()), smi_win.trace());
            assert(Seq::<RegOp>::empty() + smi_win.trace() =~= smi_win.trace());
        }
        Ok(
            Smi {
                dma,
                clk_win,
                smi_win,
                cs,
                l,
                a,
                dmc,
                dsr,
                dsw,
                dcs,
                dca,
                dcd,
                poll_limit,
                order: Ghost(order),
            },
        )
    }

    /// Bind `range` of `source` to the engine's descriptor and arm DMA:
    /// enable the peripheral's DMA request, enable the peripheral, clear
    /// its FIFO, select pixel-data mode, zero the address, program the
    /// transfer length, set write direction; then fill the descriptor —
    /// source is the buffer's bus address at the range's start, the
    /// destination is the data register's bus address — and enable the
    /// engine.  One descriptor is wired, not a chain: one call supports
    /// one single-shot transfer.
    #[verifier::rlimit(50)]
    pub fn setup_transfer(&mut self, source: &VcMem, range: Range<usize>)
        requires
            old(self).wf(),
            range.start <= range.end,
            range.end <= source@.len(),
            range.end - range.start <= u32::MAX,
            source.spec_busaddr() + range.start <= u32::MAX,
        ensures
            final(self).wf(),
            final(self).spec_poll_limit() == old(self).spec_poll_limit(),
            final(self).spec_clk_trace() == old(self).spec_clk_trace(),
            exists|prevs: Seq<u32>|
                prevs.len() == 6 && final(self).spec_smi_trace() == old(self).spec_smi_trace()
                    + spec_setup_smi_ops((range.end - range.start) as u32, prevs),
            spec_word_at(final(self).spec_dma().spec_cb()@, CB_TRANSFER_INFO as int)
                == spec_transfer_info_flags(),
            spec_word_at(final(self).spec_dma().spec_cb()@, CB_TRANSFER_LENGTH as int) == (
            range.end - range.start) as u32,
            spec_word_at(final(self).spec_dma().spec_cb()@, CB_SOURCE_ADDRESS as int) == (
            source.spec_busaddr() + range.start) as u32,
            spec_word_at(final(self).spec_dma().spec_cb()@, CB_DESTINATION_ADDRESS as int)
                == spec_smi_d_bus_addr(),
            final(self).spec_dma().spec_cb()@.len() == old(self).spec_dma().spec_cb()@.len(),
            forall|i: int|
                16 <= i < final(self).spec_dma().spec_cb()@.len()
                    ==> final(self).spec_dma().spec_cb()@[i] == old(self).spec_dma().spec_cb()@[i],
            final(self).spec_dma().spec_cb().spec_busaddr()
                == old(self).spec_dma().spec_cb().spec_busaddr(),
            final(self).spec_dma().spec_channel() == old(self).spec_dma().spec_channel(),
            final(self).spec_dma().spec_reset_done(),
            exists|enable_prev: u32, reset_prev: u32|
                final(self).spec_dma().spec_trace() == old(self).spec_dma().spec_trace()
                    + spec_enable_ops(
                    old(self).spec_dma().spec_channel(),
                    old(self).spec_dma().spec_reset_done(),
                    enable_prev,
                    reset_prev,
                ),
            final(self).spec_order() == old(self).spec_order() + spec_as_peripheral(
                final(self).spec_smi_trace().skip(old(self).spec_smi_trace().len() as int),
            ) + spec_as_engine(
                final(self).spec_dma().spec_trace().skip(
                    old(self).spec_dma().spec_trace().len() as int,
                ),
            ),
    {
        let len = (range.end - range.start) as u32;

        let q0 = self.dmc.set_dmaen(&mut self.smi_win, true);
        let q1 = self.cs.set_enable(&mut self.smi_win, true);
        let q2 = self.cs.set_clear(&mut self.smi_win, true);
        let q3 = self.cs.set_pxldat(&mut self.smi_win, true);
        let q4 = self.a.set_addr(&mut self.smi_win, 0);
        self.l.set_len(&mut self.smi_win, len);
        let q5 = self.cs.set_write(&mut self.smi_win, true);
        let ghost prevs = seq![q0, q1, q2, q3, q4, q5];
        proof {
            assert(self.smi_win.trace() =~= old(self).spec_smi_trace() + spec_setup_smi_ops(
                len,
                prevs,
            ));
        }

        let flags = DMA_DEST_DREQ | (DMA_SMI_DREQ << 16) | DMA_CB_SRCE_INC | DMA_WAIT_RESP;
        let dest = crate::addr::peripheral_bus_address(
            crate::addr::SMI_BASE_ADDRESS + (SMI_D as u32),
        );
        let src = source.busaddr() + (range.start as u32);
        proof {
            crate::dma::lemma_dma_wf_parts(&self.dma);
        }
        let cb = self.dma.get_cb();
        cb.set_transfer_info(flags);
        cb.set_transfer_length(len);
        cb.set_source_address(src);
        cb.set_destination_address(dest);
        self.dma.enable();
        proof {
            assert(prevs.len() == 6 && self.smi_win.trace() == old(self).spec_smi_trace()
                + spec_setup_smi_ops((range.end - range.start) as u32, prevs));
        }
        let ghost pd = self.smi_win.trace().skip(old(self).spec_smi_trace().len() as int);
        let ghost ed = self.dma.spec_trace().skip(old(self).spec_dma().spec_trace().len() as int);
        proof {
            assert(pd =~= spec_setup_smi_ops((range.end - range.start) as u32, prevs));
            let (enable_prev, reset_prev) = choose|a: u32, b: u32|
                self.dma.spec_trace() == old(self).spec_dma().spec_trace() + spec_enable_ops(
                    old(self).spec_dma().spec_channel(),
                    old(self).spec_dma().spec_reset_done(),
                    a,
                    b,
                );
            assert(ed =~= spec_enable_ops(
                old(self).spec_dma().spec_channel(),
                old(self).spec_dma().spec_reset_done(),
                enable_prev,
                reset_prev,
            ));
            assert(old(self).spec_smi_trace() + pd =~= self.smi_win.trace());
            assert(old(self).spec_dma().spec_trace() + ed =~= self.dma.spec_trace());
        }
        self.order = Ghost(self.order@ + spec_as_peripheral(pd) + spec_as_engine(ed));
        proof {
            lemma_order_append_peripheral(old(self).spec_order(), pd);
            lemma_order_append_engine(old(self).spec_order() + spec_as_peripheral(pd), ed);
        }
    }

    /// Begin the transfer: arm the engine, then raise the peripheral's own
    /// start bit — both are required, the engine side arms the descriptor
    /// and the peripheral side begins consuming it.
    pub fn start_transfer(&mut self)
        requires
            old(self).wf(),
        ensures
            final(self).wf(),
            final(self).spec_poll_limit() == old(self).spec_poll_limit(),
            final(self).spec_clk_trace() == old(self).spec_clk_trace(),
            final(self).spec_dma().spec_cb() == old(self).spec_dma().spec_cb(),
            final(self).spec_dma().spec_channel() == old(self).spec_dma().spec_channel(),
            final(self).spec_dma().spec_reset_done() == old(self).spec_dma().spec_reset_done(),
            final(self).spec_dma().spec_trace() == old(self).spec_dma().spec_trace()
                + spec_start_ops(
                old(self).spec_dma().spec_channel(),
                old(self).spec_dma().spec_cb().spec_busaddr(),
            ),
            exists|prev: u32|
                final(self).spec_smi_trace() == old(self).spec_smi_trace()
                    + spec_field_write_ops(SMI_CS, 3, 1, 1u32, prev),
            final(self).spec_order() == old(self).spec_order() + spec_as_engine(
                final(self).spec_dma().spec_trace().skip(
                    old(self).spec_dma().spec_trace().len() as int,
                ),
            ) + spec_as_peripheral(
                final(self).spec_smi_trace().skip(old(self).spec_smi_trace().len() as int),
            ),
    {
        self.dma.start();
        let prev = self.cs.set_start(&mut self.smi_win, true);
        let ghost ed = self.dma.spec_trace().skip(old(self).spec_dma().spec_trace().len() as int);
        let ghost pd = self.smi_win.trace().skip(old(self).spec_smi_trace().len() as int);
        proof {
            assert(ed =~= spec_start_ops(
                old(self).spec_dma().spec_channel(),
                old(self).spec_dma().spec_cb().spec_busaddr(),
            ));
            assert(pd =~= spec_field_write_ops(SMI_CS, 3, 1, 1u32, prev));
            assert(old(self).spec_dma().spec_trace() + ed =~= self.dma.spec_trace());
            assert(old(self).spec_smi_trace() + pd =~= self.smi_win.trace());
        }
        self.order = Ghost(self.order@ + spec_as_engine(ed) + spec_as_peripheral(pd));
        proof {
            lemma_order_append_engine(old(self).spec_order(), ed);
            lemma_order_append_peripheral(old(self).spec_order() + spec_as_engine(ed), pd);
        }
    }

    /// Wait for the transfer by polling the engine's active bit, giving
    /// up after the configured number of reads.  Success returns the
    /// status value observed with the active bit clear; the peripheral's
    /// own done bit is not additionally polled.
    pub fn wait_transfer(&mut self) -> (r: Result<u32, PollTimeout>)
        requires
            old(self).wf(),
        ensures
            final(self).wf(),
            final(self).spec_poll_limit() == old(self).spec_poll_limit(),
            final(self).spec_clk_trace() == old(self).spec_clk_trace(),
            final(self).spec_smi_trace() == old(self).spec_smi_trace(),
            final(self).spec_dma().spec_cb() == old(self).spec_dma().spec_cb(),
            final(self).spec_dma().spec_channel() == old(self).spec_dma().spec_channel(),
            final(self).spec_dma().spec_reset_done() == old(self).spec_dma().spec_reset_done(),
            spec_wait_post(
                old(self).spec_dma().spec_trace(),
                final(self).spec_dma().spec_trace(),
                old(self).spec_dma().spec_channel(),
                old(self).spec_poll_limit(),
                r,
            ),
            final(self).spec_order() == old(self).spec_order() + spec_as_engine(
                final(self).spec_dma().spec_trace().skip(
                    old(self).spec_dma().spec_trace().len() as int,
                ),
            ),
    {
        let r = self.dma.wait(self.poll_limit);
        let ghost ed = self.dma.spec_trace().skip(old(self).spec_dma().spec_trace().len() as int);
        proof {
            let obs = choose|obs: Seq<u32>|
                self.dma.spec_trace() == old(self).spec_dma().spec_trace() + spec_reads_at(
                    crate::dma::spec_cs_off(old(self).spec_dma().spec_channel()),
                    obs,
                );
            assert(ed =~= spec_reads_at(
                crate::dma::spec_cs_off(old(self).spec_dma().spec_channel()),
                obs,
            ));
            assert(old(self).spec_dma().spec_trace() + ed =~= self.dma.spec_trace());
        }
        self.order = Ghost(self.order@ + spec_as_engine(ed));
        proof {
            lemma_order_append_engine(old(self).spec_order(), ed);
        }
        r
    }
}

} // verus!
