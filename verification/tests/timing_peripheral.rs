use memmap2::MmapMut;
use smi_led::cb::DmaControlBlock;
use smi_led::dma::Dma;
use smi_led::mem::VcMem;
use smi_led::regwin::RegisterWindow;
use smi_led::smi::{configure_clock, Smi, CLK_PASSWD, CLK_SMI_CTL, CLK_SMI_DIV};

#[test]
fn clock_divisor_for_160ns_is_80() {
    // the divisor register's low byte is fixed, so 80 lands shifted by 8
    let mut w = RegisterWindow::new(MmapMut::map_anon(0x1000).unwrap());
    let r = configure_clock(&mut w, 160, 4);
    assert_eq!(w.read_reg(CLK_SMI_DIV), CLK_PASSWD | (80 << 8));
    // anonymous memory never raises the busy flag, so the final wait for
    // the clock to report running times out
    assert!(r.is_err());
}

#[test]
fn clock_divisor_uses_integer_division() {
    let mut w = RegisterWindow::new(MmapMut::map_anon(0x1000).unwrap());
    let _ = configure_clock(&mut w, 161, 4);
    assert_eq!(w.read_reg(CLK_SMI_DIV), CLK_PASSWD | (80 << 8));
}

#[test]
fn clock_sequence_reaches_enable_before_giving_up() {
    let mut w = RegisterWindow::new(MmapMut::map_anon(0x1000).unwrap());
    let r = configure_clock(&mut w, 160, 4);
    assert!(r.is_err());
    // the stop write went out first, the source-select write replaced it,
    // and the enable bit was ored in before the failed run-poll
    let ctl = w.read_reg(CLK_SMI_CTL);
    assert_eq!(ctl, CLK_PASSWD | 6 | (1 << 4));
}

#[test]
fn driver_construction_reports_clock_timeout() {
    let dma_win = RegisterWindow::new(MmapMut::map_anon(0x1000).unwrap());
    let cb = DmaControlBlock::new(VcMem::new(MmapMut::map_anon(0x20).unwrap(), 0xC000_1000));
    let dma = Dma::new(10, dma_win, cb);
    let clk_win = RegisterWindow::new(MmapMut::map_anon(0x1000).unwrap());
    let smi_win = RegisterWindow::new(MmapMut::map_anon(0x1000).unwrap());
    match Smi::new(8, 160, 1, 40, 1, 0, dma, clk_win, smi_win, 4) {
        Ok(_) => panic!("the clock cannot settle on anonymous memory"),
        Err(mut partial) => {
            // the divisor had already been programmed when the run-poll
            // gave up, and the register set had been bound and zeroed
            assert_eq!(partial.clk_win.read_reg(CLK_SMI_DIV), CLK_PASSWD | (80 << 8));
            assert_eq!(partial.smi_win.read_reg(0x00), 0);
        }
    }
}
