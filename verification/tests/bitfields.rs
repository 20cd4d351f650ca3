use memmap2::MmapMut;
use smi_led::bitfield::{field_mask, get_field, low_mask, set_field};
use smi_led::regwin::RegisterWindow;
use smi_led::smi_regs::{CS, DMC, DSR, DSW, L};

#[test]
fn masks() {
    assert_eq!(low_mask(1), 0x1);
    assert_eq!(low_mask(6), 0x3F);
    assert_eq!(low_mask(7), 0x7F);
    assert_eq!(low_mask(32), 0xFFFF_FFFF);
    assert_eq!(field_mask(13, 1), 1 << 13);
    assert_eq!(field_mask(24, 6), 0x3F << 24);
}

#[test]
fn field_round_trip() {
    // set then get returns the value masked to the field's width
    let r = set_field(0xFFFF_FFFF, 8, 7, 0x55);
    assert_eq!(get_field(r, 8, 7), 0x55);
    let r = set_field(0, 30, 2, 0xFF);
    assert_eq!(get_field(r, 30, 2), 0x3);
    let r = set_field(0x1234_5678, 0, 32, 0x9ABC_DEF0);
    assert_eq!(r, 0x9ABC_DEF0);
}

#[test]
fn field_write_preserves_other_bits() {
    let before = 0xA5A5_A5A5;
    let after = set_field(before, 16, 6, 0x3F);
    let mask = field_mask(16, 6);
    assert_eq!(after & !mask, before & !mask);
}

#[test]
fn register_accessors_round_trip() {
    let mut w = RegisterWindow::new(MmapMut::map_anon(0x1000).unwrap());
    let cs = CS::new(&mut w);
    cs.set_enable(&mut w, true);
    assert!(cs.get_enable(&mut w));
    cs.set_pxldat(&mut w, true);
    cs.set_enable(&mut w, false);
    // clearing one bit leaves the other set
    assert!(!cs.get_enable(&mut w));
    assert!(cs.get_pxldat(&mut w));
}

#[test]
fn register_accessor_masks_to_width() {
    let mut w = RegisterWindow::new(MmapMut::map_anon(0x1000).unwrap());
    let dsr = DSR::new(&mut w, 0);
    dsr.set_rstrobe(&mut w, 0xFF);
    assert_eq!(dsr.get_rstrobe(&mut w), 0x7F);
    dsr.set_rsetup(&mut w, 63);
    assert_eq!(dsr.get_rsetup(&mut w), 63);
    assert_eq!(dsr.get_rstrobe(&mut w), 0x7F);
}

#[test]
fn register_whole_value_against_mask() {
    let mut w = RegisterWindow::new(MmapMut::map_anon(0x1000).unwrap());
    let cs = CS::new(&mut w);
    let before = cs.get_value(&mut w);
    cs.set_seterr(&mut w, true);
    let after = cs.get_value(&mut w);
    assert_eq!(after, before | (1 << 13));
    // every bit outside the field is unchanged
    assert_eq!(after & !(1 << 13), before & !(1 << 13));
}

#[test]
fn write_settings_mirror_read_settings() {
    let mut w = RegisterWindow::new(MmapMut::map_anon(0x1000).unwrap());
    let dsw = DSW::new(&mut w, 0);
    dsw.set_wsetup(&mut w, 1);
    dsw.set_wstrobe(&mut w, 40);
    dsw.set_whold(&mut w, 1);
    dsw.set_wwidth(&mut w, 0);
    dsw.set_wpace(&mut w, 0);
    dsw.set_wswap(&mut w, true);
    assert_eq!(dsw.get_wsetup(&mut w), 1);
    assert_eq!(dsw.get_wstrobe(&mut w), 40);
    assert_eq!(dsw.get_whold(&mut w), 1);
    assert_eq!(dsw.get_wwidth(&mut w), 0);
    assert_eq!(dsw.get_wpace(&mut w), 0);
    assert!(dsw.get_wswap(&mut w));
}

#[test]
fn dma_control_thresholds() {
    let mut w = RegisterWindow::new(MmapMut::map_anon(0x1000).unwrap());
    let dmc = DMC::new(&mut w);
    dmc.set_panicr(&mut w, 8);
    dmc.set_panicw(&mut w, 8);
    dmc.set_reqr(&mut w, 2);
    dmc.set_reqw(&mut w, 2);
    dmc.set_dmaen(&mut w, true);
    assert_eq!(dmc.get_panicr(&mut w), 8);
    assert_eq!(dmc.get_panicw(&mut w), 8);
    assert_eq!(dmc.get_reqr(&mut w), 2);
    assert_eq!(dmc.get_reqw(&mut w), 2);
    assert!(dmc.get_dmaen(&mut w));
}

#[test]
fn length_register_is_a_plain_word() {
    let mut w = RegisterWindow::new(MmapMut::map_anon(0x1000).unwrap());
    let l = L::new(&mut w);
    l.set_len(&mut w, 244);
    assert_eq!(l.get_len(&mut w), 244);
}
