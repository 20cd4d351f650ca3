use memmap2::MmapMut;
use smi_led::addr::{peripheral_bus_address, translate, SMI_BASE_ADDRESS};
use smi_led::mem::VcMem;

#[test]
fn translate_clears_alias_bits() {
    assert_eq!(translate(0xC000_1000), 0x0000_1000);
    assert_eq!(translate(0x7E60_000C), 0x3E60_000C);
    assert_eq!(translate(0xFFFF_FFFF), 0x3FFF_FFFF);
}

#[test]
fn translate_is_idempotent() {
    for &b in &[0u32, 0x1000, 0xC000_1000, 0x4000_0000, 0xFFFF_FFFF] {
        assert_eq!(translate(translate(b)), translate(b));
    }
    // an address with the alias bits already clear translates to itself
    assert_eq!(translate(0x3F60_000C), 0x3F60_000C);
}

#[test]
fn data_register_bus_alias() {
    assert_eq!(peripheral_bus_address(SMI_BASE_ADDRESS + 0x0c), 0x7E60_000C);
}

#[test]
fn vcmem_physaddr_is_translated_busaddr() {
    let mem = MmapMut::map_anon(0x1000).unwrap();
    let buf = VcMem::new(mem, 0xC000_3000);
    assert_eq!(buf.busaddr(), 0xC000_3000);
    assert_eq!(buf.physaddr(), 0x0000_3000);
    assert_eq!(buf.len(), 0x1000);
}

#[test]
fn vcmem_word_round_trip() {
    let mem = MmapMut::map_anon(0x1000).unwrap();
    let mut buf = VcMem::new(mem, 0xC000_3000);
    buf.write_u32_at(16, 0xDEAD_BEEF);
    assert_eq!(buf.read_u32_at(16), 0xDEAD_BEEF);
    // little-endian byte order
    assert_eq!(buf.read_byte(16), 0xEF);
    assert_eq!(buf.read_byte(17), 0xBE);
    assert_eq!(buf.read_byte(18), 0xAD);
    assert_eq!(buf.read_byte(19), 0xDE);
    // neighbors untouched
    assert_eq!(buf.read_byte(15), 0);
    assert_eq!(buf.read_byte(20), 0);
    // the slice view shows the same bytes
    assert_eq!(&buf.as_ref()[16..20], &[0xEF, 0xBE, 0xAD, 0xDE]);
}

#[test]
fn vcmem_fill_and_flush() {
    let mem = MmapMut::map_anon(64).unwrap();
    let mut buf = VcMem::new(mem, 0xC000_0000);
    buf.fill(0xAB);
    for i in 0..64 {
        assert_eq!(buf.read_byte(i), 0xAB);
    }
    assert!(buf.flush());
}
