//! The timing peripheral's named registers and their bitfields.
//!
//! One mapped window holds the whole register block; each register object
//! is a fixed-offset view into it.  Every field accessor is a
//! read-modify-write through the window, so its trace entries show both
//! the value observed and that every bit outside the accessor's own field
//! was written back unchanged.

use vstd::prelude::*;
use crate::regwin::{
    bit_read_post, bit_val, field_read_post, field_write_post, RegOp, RegisterWindow,
};

verus! {

/// Byte offset of the control/status register.
pub const SMI_CS: usize = 0x00;
/// Byte offset of the transfer-length register.
pub const SMI_L: usize = 0x04;
/// Byte offset of the address register.
pub const SMI_A: usize = 0x08;
/// Byte offset of the data FIFO register.
pub const SMI_D: usize = 0x0c;
/// Byte offset of device 0's read-settings register.
pub const SMI_DSR: usize = 0x10;
/// Byte offset of device 0's write-settings register.
pub const SMI_DSW: usize = 0x14;
/// Byte offset of the DMA-control register.
pub const SMI_DMC: usize = 0x30;
/// Byte offset of the direct control/status register.
pub const SMI_DCS: usize = 0x34;
/// Byte offset of the direct address register.
pub const SMI_DCA: usize = 0x38;
/// Byte offset of the direct data register.
pub const SMI_DCD: usize = 0x3c;
/// Byte offset of the FIFO debug register.
pub const SMI_FD: usize = 0x40;
/// The window must cover every register above.
pub const SMI_WINDOW_SIZE: usize = 0x44;

/// The control/status register.
pub struct CS;

impl CS {
    /// Bind the control/status register and clear it.
    pub fn new(w: &mut RegisterWindow) -> (r: CS)
        requires
            old(w).wf(),
            SMI_CS + 4 <= old(w).spec_size(),
        ensures
            final(w).wf(),
            final(w).spec_size() == old(w).spec_size(),
            final(w).trace() == old(w).trace().push((RegOp::Write { off: SMI_CS, value: 0u32 })),
    {
        w.write_reg(SMI_CS, 0);
        CS
    }

    /// Whether the peripheral-enable bit is set.
    pub fn get_enable(&self, w: &mut RegisterWindow) -> (b: bool)
        requires
            old(w).wf(),
            SMI_CS + 4 <= old(w).spec_size(),
        ensures
            bit_read_post(*old(w), *final(w), SMI_CS, 0, b),
    {
        w.read_field(SMI_CS, 0, 1) != 0
    }

    /// Set or clear the peripheral-enable bit.
    pub fn set_enable(&self, w: &mut RegisterWindow, enable: bool) -> (prev: u32)
        requires
            old(w).wf(),
            SMI_CS + 4 <= old(w).spec_size(),
        ensures
            field_write_post(*old(w), *final(w), SMI_CS, 0, 1, bit_val(enable), prev),
    {
        w.write_field(SMI_CS, 0, 1, if enable { 1 } else { 0 })
    }

    /// Whether the transfer-done bit is set.
    pub fn get_done(&self, w: &mut RegisterWindow) -> (b: bool)
        requires
            old(w).wf(),
            SMI_CS + 4 <= old(w).spec_size(),
        ensures
            bit_read_post(*old(w), *final(w), SMI_CS, 1, b),
    {
        w.read_field(SMI_CS, 1, 1) != 0
    }

    /// Set or clear the transfer-done bit.
    pub fn set_done(&self, w: &mut RegisterWindow, done: bool) -> (prev: u32)
        requires
            old(w).wf(),
            SMI_CS + 4 <= old(w).spec_size(),
        ensures
            field_write_post(*old(w), *final(w), SMI_CS, 1, 1, bit_val(done), prev),
    {
        w.write_field(SMI_CS, 1, 1, if done { 1 } else { 0 })
    }

    /// Whether the transfer-active bit is set.
    pub fn get_active(&self, w: &mut RegisterWindow) -> (b: bool)
        requires
            old(w).wf(),
            SMI_CS + 4 <= old(w).spec_size(),
        ensures
            bit_read_post(*old(w), *final(w), SMI_CS, 2, b),
    {
        w.read_field(SMI_CS, 2, 1) != 0
    }

    /// Set or clear the transfer-start bit.
    pub fn set_start(&self, w: &mut RegisterWindow, start: bool) -> (prev: u32)
        requires
            old(w).wf(),
            SMI_CS + 4 <= old(w).spec_size(),
        ensures
            field_write_post(*old(w), *final(w), SMI_CS, 3, 1, bit_val(start), prev),
    {
        w.write_field(SMI_CS, 3, 1, if start { 1 } else { 0 })
    }

    /// Set or clear the FIFO-clear bit.
    pub fn set_clear(&self, w: &mut RegisterWindow, clear: bool) -> (prev: u32)
        requires
            old(w).wf(),
            SMI_CS + 4 <= old(w).spec_size(),
        ensures
            field_write_post(*old(w), *final(w), SMI_CS, 4, 1, bit_val(clear), prev),
    {
        w.write_field(SMI_CS, 4, 1, if clear { 1 } else { 0 })
    }

    /// Whether the write-direction bit is set.
    pub fn get_write(&self, w: &mut RegisterWindow) -> (b: bool)
        requires
            old(w).wf(),
            SMI_CS + 4 <= old(w).spec_size(),
        ensures
            bit_read_post(*old(w), *final(w), SMI_CS, 5, b),
    {
        w.read_field(SMI_CS, 5, 1) != 0
    }

    /// Set or clear the write-direction bit.
    pub fn set_write(&self, w: &mut RegisterWindow, write: bool) -> (prev: u32)
        requires
            old(w).wf(),
            SMI_CS + 4 <= old(w).spec_size(),
        ensures
            field_write_post(*old(w), *final(w), SMI_CS, 5, 1, bit_val(write), prev),
    {
        w.write_field(SMI_CS, 5, 1, if write { 1 } else { 0 })
    }

    /// Whether the tear-effect-enable bit is set.
    pub fn get_teen(&self, w: &mut RegisterWindow) -> (b: bool)
        requires
            old(w).wf(),
            SMI_CS + 4 <= old(w).spec_size(),
        ensures
            bit_read_post(*old(w), *final(w), SMI_CS, 8, b),
    {
        w.read_field(SMI_CS, 8, 1) != 0
    }

    /// Set or clear the tear-effect-enable bit.
    pub fn set_teen(&self, w: &mut RegisterWindow, teen: bool) -> (prev: u32)
        requires
            old(w).wf(),
            SMI_CS + 4 <= old(w).spec_size(),
        ensures
            field_write_post(*old(w), *final(w), SMI_CS, 8, 1, bit_val(teen), prev),
    {
        w.write_field(SMI_CS, 8, 1, if teen { 1 } else { 0 })
    }

    /// Whether the interrupt-on-done bit is set.
    pub fn get_intd(&self, w: &mut RegisterWindow) -> (b: bool)
        requires
            old(w).wf(),
            SMI_CS + 4 <= old(w).spec_size(),
        ensures
            bit_read_post(*old(w), *final(w), SMI_CS, 9, b),
    {
        w.read_field(SMI_CS, 9, 1) != 0
    }

    /// Set or clear the interrupt-on-done bit.
    pub fn set_intd(&self, w: &mut RegisterWindow, intd: bool) -> (prev: u32)
        requires
            old(w).wf(),
            SMI_CS + 4 <= old(w).spec_size(),
        ensures
            field_write_post(*old(w), *final(w), SMI_CS, 9, 1, bit_val(intd), prev),
    {
        w.write_field(SMI_CS, 9, 1, if intd { 1 } else { 0 })
    }

    /// Whether the interrupt-on-transmit bit is set.
    pub fn get_intt(&self, w: &mut RegisterWindow) -> (b: bool)
        requires
            old(w).wf(),
            SMI_CS + 4 <= old(w).spec_size(),
        ensures
            bit_read_post(*old(w), *final(w), SMI_CS, 10, b),
    {
        w.read_field(SMI_CS, 10, 1) != 0
    }

    /// Set or clear the interrupt-on-transmit bit.
    pub fn set_intt(&self, w: &mut RegisterWindow, intt: bool) -> (prev: u32)
        requires
            old(w).wf(),
            SMI_CS + 4 <= old(w).spec_size(),
        ensures
            field_write_post(*old(w), *final(w), SMI_CS, 10, 1, bit_val(intt), prev),
    {
        w.write_field(SMI_CS, 10, 1, if intt { 1 } else { 0 })
    }

    /// Whether the interrupt-on-receive bit is set.
    pub fn get_intr(&self, w: &mut RegisterWindow) -> (b: bool)
        requires
            old(w).wf(),
            SMI_CS + 4 <= old(w).spec_size(),
        ensures
            bit_read_post(*old(w), *final(w), SMI_CS, 11, b),
    {
        w.read_field(SMI_CS, 11, 1) != 0
    }

    /// Set or clear the interrupt-on-receive bit.
    pub fn set_intr(&self, w: &mut RegisterWindow, intr: bool) -> (prev: u32)
        requires
            old(w).wf(),
            SMI_CS + 4 <= old(w).spec_size(),
        ensures
            field_write_post(*old(w), *final(w), SMI_CS, 11, 1, bit_val(intr), prev),
    {
        w.write_field(SMI_CS, 11, 1, if intr { 1 } else { 0 })
    }

    /// Whether the pixel-valve-mode bit is set.
    pub fn get_pvmode(&self, w: &mut RegisterWindow) -> (b: bool)
        requires
            old(w).wf(),
            SMI_CS + 4 <= old(w).spec_size(),
        ensures
            bit_read_post(*old(w), *final(w), SMI_CS, 12, b),
    {
        w.read_field(SMI_CS, 12, 1) != 0
    }

    /// Set or clear the pixel-valve-mode bit.
    pub fn set_pvmode(&self, w: &mut RegisterWindow, pvmode: bool) -> (prev: u32)
        requires
            old(w).wf(),
            SMI_CS + 4 <= old(w).spec_size(),
        ensures
            field_write_post(*old(w), *final(w), SMI_CS, 12, 1, bit_val(pvmode), prev),
    {
        w.write_field(SMI_CS, 12, 1, if pvmode { 1 } else { 0 })
    }

    /// Whether the latched-error bit is set.
    pub fn get_seterr(&self, w: &mut RegisterWindow) -> (b: bool)
        requires
            old(w).wf(),
            SMI_CS + 4 <= old(w).spec_size(),
        ensures
            bit_read_post(*old(w), *final(w), SMI_CS, 13, b),
    {
        w.read_field(SMI_CS, 13, 1) != 0
    }

    /// Set or clear the latched-error bit.
    pub fn set_seterr(&self, w: &mut RegisterWindow, seterr: bool) -> (prev: u32)
        requires
            old(w).wf(),
            SMI_CS + 4 <= old(w).spec_size(),
        ensures
            field_write_post(*old(w), *final(w), SMI_CS, 13, 1, bit_val(seterr), prev),
    {
        w.write_field(SMI_CS, 13, 1, if seterr { 1 } else { 0 })
    }

    /// Whether the pixel-data-mode bit is set.
    pub fn get_pxldat(&self, w: &mut RegisterWindow) -> (b: bool)
        requires
            old(w).wf(),
            SMI_CS + 4 <= old(w).spec_size(),
        ensures
            bit_read_post(*old(w), *final(w), SMI_CS, 14, b),
    {
        w.read_field(SMI_CS, 14, 1) != 0
    }

    /// Set or clear the pixel-data-mode bit.
    pub fn set_pxldat(&self, w: &mut RegisterWindow, pxldat: bool) -> (prev: u32)
        requires
            old(w).wf(),
            SMI_CS + 4 <= old(w).spec_size(),
        ensures
            field_write_post(*old(w), *final(w), SMI_CS, 14, 1, bit_val(pxldat), prev),
    {
        w.write_field(SMI_CS, 14, 1, if pxldat { 1 } else { 0 })
    }

    /// Whether the external-DREQ bit is set.
    pub fn get_edreq(&self, w: &mut RegisterWindow) -> (b: bool)
        requires
            old(w).wf(),
            SMI_CS + 4 <= old(w).spec_size(),
        ensures
            bit_read_post(*old(w), *final(w), SMI_CS, 15, b),
    {
        w.read_field(SMI_CS, 15, 1) != 0
    }

    /// Whether the FIFO-access-error bit is set.
    pub fn get_aferr(&self, w: &mut RegisterWindow) -> (b: bool)
        requires
            old(w).wf(),
            SMI_CS + 4 <= old(w).spec_size(),
        ensures
            bit_read_post(*old(w), *final(w), SMI_CS, 25, b),
    {
        w.read_field(SMI_CS, 25, 1) != 0
    }

    /// Set or clear the FIFO-access-error bit.
    pub fn set_aferr(&self, w: &mut RegisterWindow, aferr: bool) -> (prev: u32)
        requires
            old(w).wf(),
            SMI_CS + 4 <= old(w).spec_size(),
        ensures
            field_write_post(*old(w), *final(w), SMI_CS, 25, 1, bit_val(aferr), prev),
    {
        w.write_field(SMI_CS, 25, 1, if aferr { 1 } else { 0 })
    }

    /// Whether the transmit-FIFO-needs-writing bit is set.
    pub fn get_txw(&self, w: &mut RegisterWindow) -> (b: bool)
        requires
            old(w).wf(),
            SMI_CS + 4 <= old(w).spec_size(),
        ensures
            bit_read_post(*old(w), *final(w), SMI_CS, 26, b),
    {
        w.read_field(SMI_CS, 26, 1) != 0
    }

    /// Whether the receive-FIFO-needs-reading bit is set.
    pub fn get_rxr(&self, w: &mut RegisterWindow) -> (b: bool)
        requires
            old(w).wf(),
            SMI_CS + 4 <= old(w).spec_size(),
        ensures
            bit_read_post(*old(w), *final(w), SMI_CS, 27, b),
    {
        w.read_field(SMI_CS, 27, 1) != 0
    }

    /// Whether the transmit-FIFO-can-accept-data bit is set.
    pub fn get_txd(&self, w: &mut RegisterWindow) -> (b: bool)
        requires
            old(w).wf(),
            SMI_CS + 4 <= old(w).spec_size(),
        ensures
            bit_read_post(*old(w), *final(w), SMI_CS, 28, b),
    {
        w.read_field(SMI_CS, 28, 1) != 0
    }

    /// Whether the receive-FIFO-holds-data bit is set.
    pub fn get_rxd(&self, w: &mut RegisterWindow) -> (b: bool)
        requires
            old(w).wf(),
            SMI_CS + 4 <= old(w).spec_size(),
        ensures
            bit_read_post(*old(w), *final(w), SMI_CS, 29, b),
    {
        w.read_field(SMI_CS, 29, 1) != 0
    }

    /// Whether the transmit-FIFO-empty bit is set.
    pub fn get_txe(&self, w: &mut RegisterWindow) -> (b: bool)
        requires
            old(w).wf(),
            SMI_CS + 4 <= old(w).spec_size(),
        ensures
            bit_read_post(*old(w), *final(w), SMI_CS, 30, b),
    {
        w.read_field(SMI_CS, 30, 1) != 0
    }

    /// Whether the receive-FIFO-full bit is set.
    pub fn get_rxf(&self, w: &mut RegisterWindow) -> (b: bool)
        requires
            old(w).wf(),
            SMI_CS + 4 <= old(w).spec_size(),
        ensures
            bit_read_post(*old(w), *final(w), SMI_CS, 31, b),
    {
        w.read_field(SMI_CS, 31, 1) != 0
    }

    /// Read the whole register.
    pub fn get_value(&self, w: &mut RegisterWindow) -> (v: u32)
        requires
            old(w).wf(),
            SMI_CS + 4 <= old(w).spec_size(),
        ensures
            final(w).wf(),
            final(w).spec_size() == old(w).spec_size(),
            final(w).trace() == old(w).trace().push((RegOp::Read { off: SMI_CS, value: v })),
    {
        w.read_reg(SMI_CS)
    }

    /// Write the whole register.
    pub fn set_value(&self, w: &mut RegisterWindow, value: u32)
        requires
            old(w).wf(),
            SMI_CS + 4 <= old(w).spec_size(),
        ensures
            final(w).wf(),
            final(w).spec_size() == old(w).spec_size(),
            final(w).trace() == old(w).trace().push((RegOp::Write { off: SMI_CS, value: value })),
    {
        w.write_reg(SMI_CS, value);
    }
}

/// The transfer-length register.
pub struct L;

impl L {
    /// Bind the transfer-length register and clear it.
    pub fn new(w: &mut RegisterWindow) -> (r: L)
        requires
            old(w).wf(),
            SMI_L + 4 <= old(w).spec_size(),
        ensures
            final(w).wf(),
            final(w).spec_size() == old(w).spec_size(),
            final(w).trace() == old(w).trace().push((RegOp::Write { off: SMI_L, value: 0u32 })),
    {
        w.write_reg(SMI_L, 0);
        L
    }

    /// Read the whole register.
    pub fn get_len(&self, w: &mut RegisterWindow) -> (v: u32)
        requires
            old(w).wf(),
            SMI_L + 4 <= old(w).spec_size(),
        ensures
            final(w).wf(),
            final(w).spec_size() == old(w).spec_size(),
            final(w).trace() == old(w).trace().push((RegOp::Read { off: SMI_L, value: v })),
    {
        w.read_reg(SMI_L)
    }

    /// Write the whole register.
    pub fn set_len(&self, w: &mut RegisterWindow, len: u32)
        requires
            old(w).wf(),
            SMI_L + 4 <= old(w).spec_size(),
        ensures
            final(w).wf(),
            final(w).spec_size() == old(w).spec_size(),
            final(w).trace() == old(w).trace().push((RegOp::Write { off: SMI_L, value: len })),
    {
        w.write_reg(SMI_L, len);
    }
}

/// The address register.
pub struct A;

impl A {
    /// Bind the address register and clear it.
    pub fn new(w: &mut RegisterWindow) -> (r: A)
        requires
            old(w).wf(),
            SMI_A + 4 <= old(w).spec_size(),
        ensures
            final(w).wf(),
            final(w).spec_size() == old(w).spec_size(),
            final(w).trace() == old(w).trace().push((RegOp::Write { off: SMI_A, value: 0u32 })),
    {
        w.write_reg(SMI_A, 0);
        A
    }

    /// Read the device-address field.
    pub fn get_addr(&self, w: &mut RegisterWindow) -> (v: u8)
        requires
            old(w).wf(),
            SMI_A + 4 <= old(w).spec_size(),
        ensures
            field_read_post(*old(w), *final(w), SMI_A, 0, 6, v as u32),
    {
        let raw = w.read_field(SMI_A, 0, 6);
        proof {
            crate::bitfield::lemma_get_field_bounded(0, 6);
            crate::bitfield::lemma_low_mask_byte(6);
        }
        raw as u8
    }

    /// Set the device-address field.
    pub fn set_addr(&self, w: &mut RegisterWindow, addr: u8) -> (prev: u32)
        requires
            old(w).wf(),
            SMI_A + 4 <= old(w).spec_size(),
        ensures
            field_write_post(*old(w), *final(w), SMI_A, 0, 6, addr as u32, prev),
    {
        w.write_field(SMI_A, 0, 6, addr as u32)
    }

    /// Read the device-select field.
    pub fn get_dev(&self, w: &mut RegisterWindow) -> (v: u8)
        requires
            old(w).wf(),
            SMI_A + 4 <= old(w).spec_size(),
        ensures
            field_read_post(*old(w), *final(w), SMI_A, 8, 2, v as u32),
    {
        let raw = w.read_field(SMI_A, 8, 2);
        proof {
            crate::bitfield::lemma_get_field_bounded(8, 2);
            crate::bitfield::lemma_low_mask_byte(2);
        }
        raw as u8
    }

    /// Set the device-select field.
    pub fn set_dev(&self, w: &mut RegisterWindow, dev: u8) -> (prev: u32)
        requires
            old(w).wf(),
            SMI_A + 4 <= old(w).spec_size(),
        ensures
            field_write_post(*old(w), *final(w), SMI_A, 8, 2, dev as u32, prev),
    {
        w.write_field(SMI_A, 8, 2, dev as u32)
    }
}

/// The data FIFO register.
pub struct D;

impl D {
    /// Bind the data FIFO register and clear it.
    pub fn new(w: &mut RegisterWindow) -> (r: D)
        requires
            old(w).wf(),
            SMI_D + 4 <= old(w).spec_size(),
        ensures
            final(w).wf(),
            final(w).spec_size() == old(w).spec_size(),
            final(w).trace() == old(w).trace().push((RegOp::Write { off: SMI_D, value: 0u32 })),
    {
        w.write_reg(SMI_D, 0);
        D
    }

    /// Read the whole register.
    pub fn get_data(&self, w: &mut RegisterWindow) -> (v: u32)
        requires
            old(w).wf(),
            SMI_D + 4 <= old(w).spec_size(),
        ensures
            final(w).wf(),
            final(w).spec_size() == old(w).spec_size(),
            final(w).trace() == old(w).trace().push((RegOp::Read { off: SMI_D, value: v })),
    {
        w.read_reg(SMI_D)
    }

    /// Write the whole register.
    pub fn set_data(&self, w: &mut RegisterWindow, data: u32)
        requires
            old(w).wf(),
            SMI_D + 4 <= old(w).spec_size(),
        ensures
            final(w).wf(),
            final(w).spec_size() == old(w).spec_size(),
            final(w).trace() == old(w).trace().push((RegOp::Write { off: SMI_D, value: data })),
    {
        w.write_reg(SMI_D, data);
    }
}

/// Device read settings. One of four per-device copies, selected at construction.
pub struct DSR {
    /// Byte offset of this device's copy of the register.
    pub off: usize,
}

impl DSR {
    /// Bind device `channel`'s copy of the register and clear it.
    pub fn new(w: &mut RegisterWindow, channel: usize) -> (r: DSR)
        requires
            old(w).wf(),
            channel < 4,
            SMI_DSR + 8 * channel + 4 <= old(w).spec_size(),
        ensures
            final(w).wf(),
            final(w).spec_size() == old(w).spec_size(),
            r.off as int == SMI_DSR + 8 * channel,
            final(w).trace() == old(w).trace().push((RegOp::Write { off: r.off, value: 0u32 })),
    {
        let off: usize = SMI_DSR + 8 * channel;
        w.write_reg(off, 0);
        DSR { off }
    }

    /// Read the read-strobe-time field.
    pub fn get_rstrobe(&self, w: &mut RegisterWindow) -> (v: u8)
        requires
            old(w).wf(),
            self.off + 4 <= old(w).spec_size(),
        ensures
            field_read_post(*old(w), *final(w), self.off, 0, 7, v as u32),
    {
        let raw = w.read_field(self.off, 0, 7);
        proof {
            crate::bitfield::lemma_get_field_bounded(0, 7);
            crate::bitfield::lemma_low_mask_byte(7);
        }
        raw as u8
    }

    /// Set the read-strobe-time field.
    pub fn set_rstrobe(&self, w: &mut RegisterWindow, rstrobe: u8) -> (prev: u32)
        requires
            old(w).wf(),
            self.off + 4 <= old(w).spec_size(),
        ensures
            field_write_post(*old(w), *final(w), self.off, 0, 7, rstrobe as u32, prev),
    {
        w.write_field(self.off, 0, 7, rstrobe as u32)
    }

    /// Whether the read-uses-DREQ bit is set.
    pub fn get_rdreq(&self, w: &mut RegisterWindow) -> (b: bool)
        requires
            old(w).wf(),
            self.off + 4 <= old(w).spec_size(),
        ensures
            bit_read_post(*old(w), *final(w), self.off, 7, b),
    {
        w.read_field(self.off, 7, 1) != 0
    }

    /// Set or clear the read-uses-DREQ bit.
    pub fn set_rdreq(&self, w: &mut RegisterWindow, rdreq: bool) -> (prev: u32)
        requires
            old(w).wf(),
            self.off + 4 <= old(w).spec_size(),
        ensures
            field_write_post(*old(w), *final(w), self.off, 7, 1, bit_val(rdreq), prev),
    {
        w.write_field(self.off, 7, 1, if rdreq { 1 } else { 0 })
    }

    /// Read the read-pace-time field.
    pub fn get_rpace(&self, w: &mut RegisterWindow) -> (v: u8)
        requires
            old(w).wf(),
            self.off + 4 <= old(w).spec_size(),
        ensures
            field_read_post(*old(w), *final(w), self.off, 8, 7, v as u32),
    {
        let raw = w.read_field(self.off, 8, 7);
        proof {
            crate::bitfield::lemma_get_field_bounded(8, 7);
            crate::bitfield::lemma_low_mask_byte(7);
        }
        raw as u8
    }

    /// Set the read-pace-time field.
    pub fn set_rpace(&self, w: &mut RegisterWindow, rpace: u8) -> (prev: u32)
        requires
            old(w).wf(),
            self.off + 4 <= old(w).spec_size(),
        ensures
            field_write_post(*old(w), *final(w), self.off, 8, 7, rpace as u32, prev),
    {
        w.write_field(self.off, 8, 7, rpace as u32)
    }

    /// Whether the pace-all-reads bit is set.
    pub fn get_rpaceall(&self, w: &mut RegisterWindow) -> (b: bool)
        requires
            old(w).wf(),
            self.off + 4 <= old(w).spec_size(),
        ensures
            bit_read_post(*old(w), *final(w), self.off, 15, b),
    {
        w.read_field(self.off, 15, 1) != 0
    }

    /// Set or clear the pace-all-reads bit.
    pub fn set_rpaceall(&self, w: &mut RegisterWindow, rpaceall: bool) -> (prev: u32)
        requires
            old(w).wf(),
            self.off + 4 <= old(w).spec_size(),
        ensures
            field_write_post(*old(w), *final(w), self.off, 15, 1, bit_val(rpaceall), prev),
    {
        w.write_field(self.off, 15, 1, if rpaceall { 1 } else { 0 })
    }

    /// Read the read-hold-time field.
    pub fn get_rhold(&self, w: &mut RegisterWindow) -> (v: u8)
        requires
            old(w).wf(),
            self.off + 4 <= old(w).spec_size(),
        ensures
            field_read_post(*old(w), *final(w), self.off, 16, 6, v as u32),
    {
        let raw = w.read_field(self.off, 16, 6);
        proof {
            crate::bitfield::lemma_get_field_bounded(16, 6);
            crate::bitfield::lemma_low_mask_byte(6);
        }
        raw as u8
    }

    /// Set the read-hold-time field.
    pub fn set_rhold(&self, w: &mut RegisterWindow, rhold: u8) -> (prev: u32)
        requires
            old(w).wf(),
            self.off + 4 <= old(w).spec_size(),
        ensures
            field_write_post(*old(w), *final(w), self.off, 16, 6, rhold as u32, prev),
    {
        w.write_field(self.off, 16, 6, rhold as u32)
    }

    /// Whether the fast-setup bit is set.
    pub fn get_fsetup(&self, w: &mut RegisterWindow) -> (b: bool)
        requires
            old(w).wf(),
            self.off + 4 <= old(w).spec_size(),
        ensures
            bit_read_post(*old(w), *final(w), self.off, 22, b),
    {
        w.read_field(self.off, 22, 1) != 0
    }

    /// Set or clear the fast-setup bit.
    pub fn set_fsetup(&self, w: &mut RegisterWindow, fsetup: bool) -> (prev: u32)
        requires
            old(w).wf(),
            self.off + 4 <= old(w).spec_size(),
        ensures
            field_write_post(*old(w), *final(w), self.off, 22, 1, bit_val(fsetup), prev),
    {
        w.write_field(self.off, 22, 1, if fsetup { 1 } else { 0 })
    }

    /// Whether the 6800-bus-mode bit is set.
    pub fn get_mode68(&self, w: &mut RegisterWindow) -> (b: bool)
        requires
            old(w).wf(),
            self.off + 4 <= old(w).spec_size(),
        ensures
            bit_read_post(*old(w), *final(w), self.off, 23, b),
    {
        w.read_field(self.off, 23, 1) != 0
    }

    /// Set or clear the 6800-bus-mode bit.
    pub fn set_mode68(&self, w: &mut RegisterWindow, mode68: bool) -> (prev: u32)
        requires
            old(w).wf(),
            self.off + 4 <= old(w).spec_size(),
        ensures
            field_write_post(*old(w), *final(w), self.off, 23, 1, bit_val(mode68), prev),
    {
        w.write_field(self.off, 23, 1, if mode68 { 1 } else { 0 })
    }

    /// Read the read-setup-time field.
    pub fn get_rsetup(&self, w: &mut RegisterWindow) -> (v: u8)
        requires
            old(w).wf(),
            self.off + 4 <= old(w).spec_size(),
        ensures
            field_read_post(*old(w), *final(w), self.off, 24, 6, v as u32),
    {
        let raw = w.read_field(self.off, 24, 6);
        proof {
            crate::bitfield::lemma_get_field_bounded(24, 6);
            crate::bitfield::lemma_low_mask_byte(6);
        }
        raw as u8
    }

    /// Set the read-setup-time field.
    pub fn set_rsetup(&self, w: &mut RegisterWindow, rsetup: u8) -> (prev: u32)
        requires
            old(w).wf(),
            self.off + 4 <= old(w).spec_size(),
        ensures
            field_write_post(*old(w), *final(w), self.off, 24, 6, rsetup as u32, prev),
    {
        w.write_field(self.off, 24, 6, rsetup as u32)
    }

    /// Read the read-width-code field.
    pub fn get_rwidth(&self, w: &mut RegisterWindow) -> (v: u8)
        requires
            old(w).wf(),
            self.off + 4 <= old(w).spec_size(),
        ensures
            field_read_post(*old(w), *final(w), self.off, 30, 2, v as u32),
    {
        let raw = w.read_field(self.off, 30, 2);
        proof {
            crate::bitfield::lemma_get_field_bounded(30, 2);
            crate::bitfield::lemma_low_mask_byte(2);
        }
        raw as u8
    }

    /// Set the read-width-code field.
    pub fn set_rwidth(&self, w: &mut RegisterWindow, rwidth: u8) -> (prev: u32)
        requires
            old(w).wf(),
            self.off + 4 <= old(w).spec_size(),
        ensures
            field_write_post(*old(w), *final(w), self.off, 30, 2, rwidth as u32, prev),
    {
        w.write_field(self.off, 30, 2, rwidth as u32)
    }
}

/// Device write settings. One of four per-device copies, selected at construction.
pub struct DSW {
    /// Byte offset of this device's copy of the register.
    pub off: usize,
}

impl DSW {
    /// Bind device `channel`'s copy of the register and clear it.
    pub fn new(w: &mut RegisterWindow, channel: usize) -> (r: DSW)
        requires
            old(w).wf(),
            channel < 4,
            SMI_DSW + 8 * channel + 4 <= old(w).spec_size(),
        ensures
            final(w).wf(),
            final(w).spec_size() == old(w).spec_size(),
            r.off as int == SMI_DSW + 8 * channel,
            final(w).trace() == old(w).trace().push((RegOp::Write { off: r.off, value: 0u32 })),
    {
        let off: usize = SMI_DSW + 8 * channel;
        w.write_reg(off, 0);
        DSW { off }
    }

    /// Read the write-strobe-time field.
    pub fn get_wstrobe(&self, w: &mut RegisterWindow) -> (v: u8)
        requires
            old(w).wf(),
            self.off + 4 <= old(w).spec_size(),
        ensures
            field_read_post(*old(w), *final(w), self.off, 0, 7, v as u32),
    {
        let raw = w.read_field(self.off, 0, 7);
        proof {
            crate::bitfield::lemma_get_field_bounded(0, 7);
            crate::bitfield::lemma_low_mask_byte(7);
        }
        raw as u8
    }

    /// Set the write-strobe-time field.
    pub fn set_wstrobe(&self, w: &mut RegisterWindow, wstrobe: u8) -> (prev: u32)
        requires
            old(w).wf(),
            self.off + 4 <= old(w).spec_size(),
        ensures
            field_write_post(*old(w), *final(w), self.off, 0, 7, wstrobe as u32, prev),
    {
        w.write_field(self.off, 0, 7, wstrobe as u32)
    }

    /// Whether the write-uses-DREQ bit is set.
    pub fn get_wdreq(&self, w: &mut RegisterWindow) -> (b: bool)
        requires
            old(w).wf(),
            self.off + 4 <= old(w).spec_size(),
        ensures
            bit_read_post(*old(w), *final(w), self.off, 7, b),
    {
        w.read_field(self.off, 7, 1) != 0
    }

    /// Set or clear the write-uses-DREQ bit.
    pub fn set_wdreq(&self, w: &mut RegisterWindow, wdreq: bool) -> (prev: u32)
        requires
            old(w).wf(),
            self.off + 4 <= old(w).spec_size(),
        ensures
            field_write_post(*old(w), *final(w), self.off, 7, 1, bit_val(wdreq), prev),
    {
        w.write_field(self.off, 7, 1, if wdreq { 1 } else { 0 })
    }

    /// Read the write-pace-time field.
    pub fn get_wpace(&self, w: &mut RegisterWindow) -> (v: u8)
        requires
            old(w).wf(),
            self.off + 4 <= old(w).spec_size(),
        ensures
            field_read_post(*old(w), *final(w), self.off, 8, 7, v as u32),
    {
        let raw = w.read_field(self.off, 8, 7);
        proof {
            crate::bitfield::lemma_get_field_bounded(8, 7);
            crate::bitfield::lemma_low_mask_byte(7);
        }
        raw as u8
    }

    /// Set the write-pace-time field.
    pub fn set_wpace(&self, w: &mut RegisterWindow, wpace: u8) -> (prev: u32)
        requires
            old(w).wf(),
            self.off + 4 <= old(w).spec_size(),
        ensures
            field_write_post(*old(w), *final(w), self.off, 8, 7, wpace as u32, prev),
    {
        w.write_field(self.off, 8, 7, wpace as u32)
    }

    /// Whether the pace-all-writes bit is set.
    pub fn get_wpaceall(&self, w: &mut RegisterWindow) -> (b: bool)
        requires
            old(w).wf(),
            self.off + 4 <= old(w).spec_size(),
        ensures
            bit_read_post(*old(w), *final(w), self.off, 15, b),
    {
        w.read_field(self.off, 15, 1) != 0
    }

    /// Set or clear the pace-all-writes bit.
    pub fn set_wpaceall(&self, w: &mut RegisterWindow, wpaceall: bool) -> (prev: u32)
        requires
            old(w).wf(),
            self.off + 4 <= old(w).spec_size(),
        ensures
            field_write_post(*old(w), *final(w), self.off, 15, 1, bit_val(wpaceall), prev),
    {
        w.write_field(self.off, 15, 1, if wpaceall { 1 } else { 0 })
    }

    /// Read the write-hold-time field.
    pub fn get_whold(&self, w: &mut RegisterWindow) -> (v: u8)
        requires
            old(w).wf(),
            self.off + 4 <= old(w).spec_size(),
        ensures
            field_read_post(*old(w), *final(w), self.off, 16, 6, v as u32),
    {
        let raw = w.read_field(self.off, 16, 6);
        proof {
            crate::bitfield::lemma_get_field_bounded(16, 6);
            crate::bitfield::lemma_low_mask_byte(6);
        }
        raw as u8
    }

    /// Set the write-hold-time field.
    pub fn set_whold(&self, w: &mut RegisterWindow, whold: u8) -> (prev: u32)
        requires
            old(w).wf(),
            self.off + 4 <= old(w).spec_size(),
        ensures
            field_write_post(*old(w), *final(w), self.off, 16, 6, whold as u32, prev),
    {
        w.write_field(self.off, 16, 6, whold as u32)
    }

    /// Whether the byte-swap-on-write bit is set.
    pub fn get_wswap(&self, w: &mut RegisterWindow) -> (b: bool)
        requires
            old(w).wf(),
            self.off + 4 <= old(w).spec_size(),
        ensures
            bit_read_post(*old(w), *final(w), self.off, 22, b),
    {
        w.read_field(self.off, 22, 1) != 0
    }

    /// Set or clear the byte-swap-on-write bit.
    pub fn set_wswap(&self, w: &mut RegisterWindow, wswap: bool) -> (prev: u32)
        requires
            old(w).wf(),
            self.off + 4 <= old(w).spec_size(),
        ensures
            field_write_post(*old(w), *final(w), self.off, 22, 1, bit_val(wswap), prev),
    {
        w.write_field(self.off, 22, 1, if wswap { 1 } else { 0 })
    }

    /// Whether the write-format bit is set.
    pub fn get_wformat(&self, w: &mut RegisterWindow) -> (b: bool)
        requires
            old(w).wf(),
            self.off + 4 <= old(w).spec_size(),
        ensures
            bit_read_post(*old(w), *final(w), self.off, 23, b),
    {
        w.read_field(self.off, 23, 1) != 0
    }

    /// Set or clear the write-format bit.
    pub fn set_wformat(&self, w: &mut RegisterWindow, wformat: bool) -> (prev: u32)
        requires
            old(w).wf(),
            self.off + 4 <= old(w).spec_size(),
        ensures
            field_write_post(*old(w), *final(w), self.off, 23, 1, bit_val(wformat), prev),
    {
        w.write_field(self.off, 23, 1, if wformat { 1 } else { 0 })
    }

    /// Read the write-setup-time field.
    pub fn get_wsetup(&self, w: &mut RegisterWindow) -> (v: u8)
        requires
            old(w).wf(),
            self.off + 4 <= old(w).spec_size(),
        ensures
            field_read_post(*old(w), *final(w), self.off, 24, 6, v as u32),
    {
        let raw = w.read_field(self.off, 24, 6);
        proof {
            crate::bitfield::lemma_get_field_bounded(24, 6);
            crate::bitfield::lemma_low_mask_byte(6);
        }
        raw as u8
    }

    /// Set the write-setup-time field.
    pub fn set_wsetup(&self, w: &mut RegisterWindow, wsetup: u8) -> (prev: u32)
        requires
            old(w).wf(),
            self.off + 4 <= old(w).spec_size(),
        ensures
            field_write_post(*old(w), *final(w), self.off, 24, 6, wsetup as u32, prev),
    {
        w.write_field(self.off, 24, 6, wsetup as u32)
    }

    /// Read the write-width-code field.
    pub fn get_wwidth(&self, w: &mut RegisterWindow) -> (v: u8)
        requires
            old(w).wf(),
            self.off + 4 <= old(w).spec_size(),
        ensures
            field_read_post(*old(w), *final(w), self.off, 30, 2, v as u32),
    {
        let raw = w.read_field(self.off, 30, 2);
        proof {
            crate::bitfield::lemma_get_field_bounded(30, 2);
            crate::bitfield::lemma_low_mask_byte(2);
        }
        raw as u8
    }

    /// Set the write-width-code field.
    pub fn set_wwidth(&self, w: &mut RegisterWindow, wwidth: u8) -> (prev: u32)
        requires
            old(w).wf(),
            self.off + 4 <= old(w).spec_size(),
        ensures
            field_write_post(*old(w), *final(w), self.off, 30, 2, wwidth as u32, prev),
    {
        w.write_field(self.off, 30, 2, wwidth as u32)
    }
}

/// The DMA-control register.
pub struct DMC;

impl DMC {
    /// Bind the DMA-control register and clear it.
    pub fn new(w: &mut RegisterWindow) -> (r: DMC)
        requires
            old(w).wf(),
            SMI_DMC + 4 <= old(w).spec_size(),
        ensures
            final(w).wf(),
            final(w).spec_size() == old(w).spec_size(),
            final(w).trace() == old(w).trace().push((RegOp::Write { off: SMI_DMC, value: 0u32 })),
    {
        w.write_reg(SMI_DMC, 0);
        DMC
    }

    /// Read the write-request-threshold field.
    pub fn get_reqw(&self, w: &mut RegisterWindow) -> (v: u8)
        requires
            old(w).wf(),
            SMI_DMC + 4 <= old(w).spec_size(),
        ensures
            field_read_post(*old(w), *final(w), SMI_DMC, 0, 6, v as u32),
    {
        let raw = w.read_field(SMI_DMC, 0, 6);
        proof {
            crate::bitfield::lemma_get_field_bounded(0, 6);
            crate::bitfield::lemma_low_mask_byte(6);
        }
        raw as u8
    }

    /// Set the write-request-threshold field.
    pub fn set_reqw(&self, w: &mut RegisterWindow, reqw: u8) -> (prev: u32)
        requires
            old(w).wf(),
            SMI_DMC + 4 <= old(w).spec_size(),
        ensures
            field_write_post(*old(w), *final(w), SMI_DMC, 0, 6, reqw as u32, prev),
    {
        w.write_field(SMI_DMC, 0, 6, reqw as u32)
    }

    /// Read the read-request-threshold field.
    pub fn get_reqr(&self, w: &mut RegisterWindow) -> (v: u8)
        requires
            old(w).wf(),
            SMI_DMC + 4 <= old(w).spec_size(),
        ensures
            field_read_post(*old(w), *final(w), SMI_DMC, 6, 6, v as u32),
    {
        let raw = w.read_field(SMI_DMC, 6, 6);
        proof {
            crate::bitfield::lemma_get_field_bounded(6, 6);
            crate::bitfield::lemma_low_mask_byte(6);
        }
        raw as u8
    }

    /// Set the read-request-threshold field.
    pub fn set_reqr(&self, w: &mut RegisterWindow, reqr: u8) -> (prev: u32)
        requires
            old(w).wf(),
            SMI_DMC + 4 <= old(w).spec_size(),
        ensures
            field_write_post(*old(w), *final(w), SMI_DMC, 6, 6, reqr as u32, prev),
    {
        w.write_field(SMI_DMC, 6, 6, reqr as u32)
    }

    /// Read the write-panic-threshold field.
    pub fn get_panicw(&self, w: &mut RegisterWindow) -> (v: u8)
        requires
            old(w).wf(),
            SMI_DMC + 4 <= old(w).spec_size(),
        ensures
            field_read_post(*old(w), *final(w), SMI_DMC, 12, 6, v as u32),
    {
        let raw = w.read_field(SMI_DMC, 12, 6);
        proof {
            crate::bitfield::lemma_get_field_bounded(12, 6);
            crate::bitfield::lemma_low_mask_byte(6);
        }
        raw as u8
    }

    /// Set the write-panic-threshold field.
    pub fn set_panicw(&self, w: &mut RegisterWindow, panicw: u8) -> (prev: u32)
        requires
            old(w).wf(),
            SMI_DMC + 4 <= old(w).spec_size(),
        ensures
            field_write_post(*old(w), *final(w), SMI_DMC, 12, 6, panicw as u32, prev),
    {
        w.write_field(SMI_DMC, 12, 6, panicw as u32)
    }

    /// Read the read-panic-threshold field.
    pub fn get_panicr(&self, w: &mut RegisterWindow) -> (v: u8)
        requires
            old(w).wf(),
            SMI_DMC + 4 <= old(w).spec_size(),
        ensures
            field_read_post(*old(w), *final(w), SMI_DMC, 18, 6, v as u32),
    {
        let raw = w.read_field(SMI_DMC, 18, 6);
        proof {
            crate::bitfield::lemma_get_field_bounded(18, 6);
            crate::bitfield::lemma_low_mask_byte(6);
        }
        raw as u8
    }

    /// Set the read-panic-threshold field.
    pub fn set_panicr(&self, w: &mut RegisterWindow, panicr: u8) -> (prev: u32)
        requires
            old(w).wf(),
            SMI_DMC + 4 <= old(w).spec_size(),
        ensures
            field_write_post(*old(w), *final(w), SMI_DMC, 18, 6, panicr as u32, prev),
    {
        w.write_field(SMI_DMC, 18, 6, panicr as u32)
    }

    /// Whether the DMA-passthrough bit is set.
    pub fn get_dmap(&self, w: &mut RegisterWindow) -> (b: bool)
        requires
            old(w).wf(),
            SMI_DMC + 4 <= old(w).spec_size(),
        ensures
            bit_read_post(*old(w), *final(w), SMI_DMC, 24, b),
    {
        w.read_field(SMI_DMC, 24, 1) != 0
    }

    /// Set or clear the DMA-passthrough bit.
    pub fn set_dmap(&self, w: &mut RegisterWindow, dmap: bool) -> (prev: u32)
        requires
            old(w).wf(),
            SMI_DMC + 4 <= old(w).spec_size(),
        ensures
            field_write_post(*old(w), *final(w), SMI_DMC, 24, 1, bit_val(dmap), prev),
    {
        w.write_field(SMI_DMC, 24, 1, if dmap { 1 } else { 0 })
    }

    /// Whether the DMA-enable bit is set.
    pub fn get_dmaen(&self, w: &mut RegisterWindow) -> (b: bool)
        requires
            old(w).wf(),
            SMI_DMC + 4 <= old(w).spec_size(),
        ensures
            bit_read_post(*old(w), *final(w), SMI_DMC, 28, b),
    {
        w.read_field(SMI_DMC, 28, 1) != 0
    }

    /// Set or clear the DMA-enable bit.
    pub fn set_dmaen(&self, w: &mut RegisterWindow, dmaen: bool) -> (prev: u32)
        requires
            old(w).wf(),
            SMI_DMC + 4 <= old(w).spec_size(),
        ensures
            field_write_post(*old(w), *final(w), SMI_DMC, 28, 1, bit_val(dmaen), prev),
    {
        w.write_field(SMI_DMC, 28, 1, if dmaen { 1 } else { 0 })
    }
}

/// The direct control/status register.
pub struct DCS;

impl DCS {
    /// Bind the direct control/status register and clear it.
    pub fn new(w: &mut RegisterWindow) -> (r: DCS)
        requires
            old(w).wf(),
            SMI_DCS + 4 <= old(w).spec_size(),
        ensures
            final(w).wf(),
            final(w).spec_size() == old(w).spec_size(),
            final(w).trace() == old(w).trace().push((RegOp::Write { off: SMI_DCS, value: 0u32 })),
    {
        w.write_reg(SMI_DCS, 0);
        DCS
    }

    /// Whether the direct-mode-enable bit is set.
    pub fn get_enable(&self, w: &mut RegisterWindow) -> (b: bool)
        requires
            old(w).wf(),
            SMI_DCS + 4 <= old(w).spec_size(),
        ensures
            bit_read_post(*old(w), *final(w), SMI_DCS, 0, b),
    {
        w.read_field(SMI_DCS, 0, 1) != 0
    }

    /// Set or clear the direct-mode-enable bit.
    pub fn set_enable(&self, w: &mut RegisterWindow, enable: bool) -> (prev: u32)
        requires
            old(w).wf(),
            SMI_DCS + 4 <= old(w).spec_size(),
        ensures
            field_write_post(*old(w), *final(w), SMI_DCS, 0, 1, bit_val(enable), prev),
    {
        w.write_field(SMI_DCS, 0, 1, if enable { 1 } else { 0 })
    }

    /// Whether the direct-transfer-start bit is set.
    pub fn get_start(&self, w: &mut RegisterWindow) -> (b: bool)
        requires
            old(w).wf(),
            SMI_DCS + 4 <= old(w).spec_size(),
        ensures
            bit_read_post(*old(w), *final(w), SMI_DCS, 1, b),
    {
        w.read_field(SMI_DCS, 1, 1) != 0
    }

    /// Set or clear the direct-transfer-start bit.
    pub fn set_start(&self, w: &mut RegisterWindow, start: bool) -> (prev: u32)
        requires
            old(w).wf(),
            SMI_DCS + 4 <= old(w).spec_size(),
        ensures
            field_write_post(*old(w), *final(w), SMI_DCS, 1, 1, bit_val(start), prev),
    {
        w.write_field(SMI_DCS, 1, 1, if start { 1 } else { 0 })
    }

    /// Whether the direct-transfer-done bit is set.
    pub fn get_done(&self, w: &mut RegisterWindow) -> (b: bool)
        requires
            old(w).wf(),
            SMI_DCS + 4 <= old(w).spec_size(),
        ensures
            bit_read_post(*old(w), *final(w), SMI_DCS, 2, b),
    {
        w.read_field(SMI_DCS, 2, 1) != 0
    }

    /// Set or clear the direct-transfer-done bit.
    pub fn set_done(&self, w: &mut RegisterWindow, done: bool) -> (prev: u32)
        requires
            old(w).wf(),
            SMI_DCS + 4 <= old(w).spec_size(),
        ensures
            field_write_post(*old(w), *final(w), SMI_DCS, 2, 1, bit_val(done), prev),
    {
        w.write_field(SMI_DCS, 2, 1, if done { 1 } else { 0 })
    }

    /// Whether the direct-write-direction bit is set.
    pub fn get_write(&self, w: &mut RegisterWindow) -> (b: bool)
        requires
            old(w).wf(),
            SMI_DCS + 4 <= old(w).spec_size(),
        ensures
            bit_read_post(*old(w), *final(w), SMI_DCS, 3, b),
    {
        w.read_field(SMI_DCS, 3, 1) != 0
    }

    /// Set or clear the direct-write-direction bit.
    pub fn set_write(&self, w: &mut RegisterWindow, write: bool) -> (prev: u32)
        requires
            old(w).wf(),
            SMI_DCS + 4 <= old(w).spec_size(),
        ensures
            field_write_post(*old(w), *final(w), SMI_DCS, 3, 1, bit_val(write), prev),
    {
        w.write_field(SMI_DCS, 3, 1, if write { 1 } else { 0 })
    }
}

/// The direct address register.
pub struct DCA;

impl DCA {
    /// Bind the direct address register and clear it.
    pub fn new(w: &mut RegisterWindow) -> (r: DCA)
        requires
            old(w).wf(),
            SMI_DCA + 4 <= old(w).spec_size(),
        ensures
            final(w).wf(),
            final(w).spec_size() == old(w).spec_size(),
            final(w).trace() == old(w).trace().push((RegOp::Write { off: SMI_DCA, value: 0u32 })),
    {
        w.write_reg(SMI_DCA, 0);
        DCA
    }

    /// Read the direct device-address field.
    pub fn get_addr(&self, w: &mut RegisterWindow) -> (v: u8)
        requires
            old(w).wf(),
            SMI_DCA + 4 <= old(w).spec_size(),
        ensures
            field_read_post(*old(w), *final(w), SMI_DCA, 0, 6, v as u32),
    {
        let raw = w.read_field(SMI_DCA, 0, 6);
        proof {
            crate::bitfield::lemma_get_field_bounded(0, 6);
            crate::bitfield::lemma_low_mask_byte(6);
        }
        raw as u8
    }

    /// Set the direct device-address field.
    pub fn set_addr(&self, w: &mut RegisterWindow, addr: u8) -> (prev: u32)
        requires
            old(w).wf(),
            SMI_DCA + 4 <= old(w).spec_size(),
        ensures
            field_write_post(*old(w), *final(w), SMI_DCA, 0, 6, addr as u32, prev),
    {
        w.write_field(SMI_DCA, 0, 6, addr as u32)
    }

    /// Read the direct device-select field.
    pub fn get_dev(&self, w: &mut RegisterWindow) -> (v: u8)
        requires
            old(w).wf(),
            SMI_DCA + 4 <= old(w).spec_size(),
        ensures
            field_read_post(*old(w), *final(w), SMI_DCA, 8, 2, v as u32),
    {
        let raw = w.read_field(SMI_DCA, 8, 2);
        proof {
            crate::bitfield::lemma_get_field_bounded(8, 2);
            crate::bitfield::lemma_low_mask_byte(2);
        }
        raw as u8
    }

    /// Set the direct device-select field.
    pub fn set_dev(&self, w: &mut RegisterWindow, dev: u8) -> (prev: u32)
        requires
            old(w).wf(),
            SMI_DCA + 4 <= old(w).spec_size(),
        ensures
            field_write_post(*old(w), *final(w), SMI_DCA, 8, 2, dev as u32, prev),
    {
        w.write_field(SMI_DCA, 8, 2, dev as u32)
    }
}

/// The direct data register.
pub struct DCD;

impl DCD {
    /// Bind the direct data register.
    pub fn new(w: &mut RegisterWindow) -> (r: DCD)
        requires
            old(w).wf(),
            SMI_DCD + 4 <= old(w).spec_size(),
        ensures
            final(w).wf(),
            final(w).spec_size() == old(w).spec_size(),
            final(w).trace() == old(w).trace(),
    {
        DCD
    }

    /// Read the whole register.
    pub fn get_data(&self, w: &mut RegisterWindow) -> (v: u32)
        requires
            old(w).wf(),
            SMI_DCD + 4 <= old(w).spec_size(),
        ensures
            final(w).wf(),
            final(w).spec_size() == old(w).spec_size(),
            final(w).trace() == old(w).trace().push((RegOp::Read { off: SMI_DCD, value: v })),
    {
        w.read_reg(SMI_DCD)
    }

    /// Write the whole register.
    pub fn set_data(&self, w: &mut RegisterWindow, data: u32)
        requires
            old(w).wf(),
            SMI_DCD + 4 <= old(w).spec_size(),
        ensures
            final(w).wf(),
            final(w).spec_size() == old(w).spec_size(),
            final(w).trace() == old(w).trace().push((RegOp::Write { off: SMI_DCD, value: data })),
    {
        w.write_reg(SMI_DCD, data);
    }
}

/// The FIFO debug register.
pub struct FD;

impl FD {
    /// Bind the FIFO debug register and clear it.
    pub fn new(w: &mut RegisterWindow) -> (r: FD)
        requires
            old(w).wf(),
            SMI_FD + 4 <= old(w).spec_size(),
        ensures
            final(w).wf(),
            final(w).spec_size() == old(w).spec_size(),
            final(w).trace() == old(w).trace().push((RegOp::Write { off: SMI_FD, value: 0u32 })),
    {
        w.write_reg(SMI_FD, 0);
        FD
    }

    /// Read the FIFO-byte-count field.
    pub fn get_fcnt(&self, w: &mut RegisterWindow) -> (v: u8)
        requires
            old(w).wf(),
            SMI_FD + 4 <= old(w).spec_size(),
        ensures
            field_read_post(*old(w), *final(w), SMI_FD, 0, 6, v as u32),
    {
        let raw = w.read_field(SMI_FD, 0, 6);
        proof {
            crate::bitfield::lemma_get_field_bounded(0, 6);
            crate::bitfield::lemma_low_mask_byte(6);
        }
        raw as u8
    }

    /// Set the FIFO-byte-count field.
    pub fn set_fcnt(&self, w: &mut RegisterWindow, fcnt: u8) -> (prev: u32)
        requires
            old(w).wf(),
            SMI_FD + 4 <= old(w).spec_size(),
        ensures
            field_write_post(*old(w), *final(w), SMI_FD, 0, 6, fcnt as u32, prev),
    {
        w.write_field(SMI_FD, 0, 6, fcnt as u32)
    }

    /// Read the FIFO-level field.
    pub fn get_flvl(&self, w: &mut RegisterWindow) -> (v: u8)
        requires
            old(w).wf(),
            SMI_FD + 4 <= old(w).spec_size(),
        ensures
            field_read_post(*old(w), *final(w), SMI_FD, 8, 6, v as u32),
    {
        let raw = w.read_field(SMI_FD, 8, 6);
        proof {
            crate::bitfield::lemma_get_field_bounded(8, 6);
            crate::bitfield::lemma_low_mask_byte(6);
        }
        raw as u8
    }

    /// Set the FIFO-level field.
    pub fn set_flvl(&self, w: &mut RegisterWindow, flvl: u32) -> (prev: u32)
        requires
            old(w).wf(),
            SMI_FD + 4 <= old(w).spec_size(),
        ensures
            field_write_post(*old(w), *final(w), SMI_FD, 8, 6, flvl, prev),
    {
        w.write_field(SMI_FD, 8, 6, flvl)
    }
}

} // verus!
