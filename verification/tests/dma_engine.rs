use memmap2::MmapMut;
use smi_led::cb::DmaControlBlock;
use smi_led::dma::{dma_priority, Dma, DMA_ENABLE};
use smi_led::mem::VcMem;
use smi_led::regwin::RegisterWindow;

const CH: usize = 10;

fn fresh_engine() -> Dma {
    let win = RegisterWindow::new(MmapMut::map_anon(0x1000).unwrap());
    let mem = MmapMut::map_anon(0x20).unwrap();
    let cb = DmaControlBlock::new(VcMem::new(mem, 0xC000_1000));
    Dma::new(CH as u8, win, cb)
}

#[test]
fn priority_bits() {
    assert_eq!(dma_priority(0), 0);
    assert_eq!(dma_priority(8), 8 << 16);
}

#[test]
fn enable_sets_channel_bit_and_resets() {
    let mut d = fresh_engine();
    d.enable();
    assert_eq!(d.win.read_reg(DMA_ENABLE) & (1 << CH), 1 << CH);
    assert_eq!(d.win.read_reg(CH * 0x100) & 0x8000_0000, 0x8000_0000);
}

#[test]
fn reset_fires_only_on_first_enable() {
    let mut d = fresh_engine();
    d.enable();
    assert_eq!(d.win.read_reg(CH * 0x100) & 0x8000_0000, 0x8000_0000);
    // clear the latched reset bit by hand; a second enable must not set
    // it again
    d.win.write_reg(CH * 0x100, 0);
    d.enable();
    assert_eq!(d.win.read_reg(CH * 0x100) & 0x8000_0000, 0);
    // while the channel's enable bit is still maintained
    assert_eq!(d.win.read_reg(DMA_ENABLE) & (1 << CH), 1 << CH);
}

#[test]
fn explicit_reset_is_unconditional() {
    let mut d = fresh_engine();
    d.enable();
    d.win.write_reg(CH * 0x100, 0);
    d.reset();
    assert_eq!(d.win.read_reg(CH * 0x100) & 0x8000_0000, 0x8000_0000);
}

#[test]
fn disable_clears_channel_bit() {
    let mut d = fresh_engine();
    d.enable();
    d.disable();
    assert_eq!(d.win.read_reg(DMA_ENABLE) & (1 << CH), 0);
}

#[test]
fn start_programs_descriptor_then_flags_then_active() {
    let mut d = fresh_engine();
    d.start();
    // the descriptor's bus address reached the next-control-block register
    assert_eq!(d.win.read_reg(CH * 0x100 + 0x04), 0xC000_1000);
    // the error bits were written
    assert_eq!(d.win.read_reg(CH * 0x100 + 0x20), 7);
    // the last control/status write was the active bit, not the end-flag
    // clear that preceded it
    assert_eq!(d.win.read_reg(CH * 0x100), 1);
}

#[test]
fn wait_returns_once_active_bit_reads_clear() {
    let mut d = fresh_engine();
    // nothing started: the active bit reads zero immediately
    let r = d.wait(4);
    assert_eq!(r, Ok(0));
}

#[test]
fn wait_times_out_while_active_bit_stays_set() {
    let mut d = fresh_engine();
    d.start();
    // anonymous memory holds the active bit at 1 forever
    let r = d.wait(3);
    assert!(r.is_err());
}
