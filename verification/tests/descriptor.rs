use memmap2::MmapMut;
use smi_led::cb::{
    DmaControlBlock, CB_DESTINATION_ADDRESS, CB_NEXT_CONTROL_BLOCK, CB_SOURCE_ADDRESS,
    CB_TRANSFER_INFO, CB_TRANSFER_LENGTH, CB_TRANSFER_STRIDE,
};
use smi_led::mem::VcMem;

fn fresh_cb() -> DmaControlBlock {
    let mem = MmapMut::map_anon(0x20).unwrap();
    DmaControlBlock::new(VcMem::new(mem, 0xC000_1000))
}

#[test]
fn descriptor_starts_zeroed() {
    let cb = fresh_cb();
    for off in [0, 4, 8, 12, 16, 20, 24, 28] {
        assert_eq!(cb.read_back(off), 0);
    }
    assert_eq!(cb.busaddr(), 0xC000_1000);
}

#[test]
fn transfer_info_round_trip() {
    let mut cb = fresh_cb();
    cb.set_transfer_info(0x0004_0148);
    assert_eq!(cb.read_back(CB_TRANSFER_INFO), 0x0004_0148);
}

#[test]
fn source_address_round_trip() {
    let mut cb = fresh_cb();
    cb.set_source_address(0xC000_2000);
    assert_eq!(cb.read_back(CB_SOURCE_ADDRESS), 0xC000_2000);
}

#[test]
fn destination_address_round_trip() {
    let mut cb = fresh_cb();
    cb.set_destination_address(0x7E60_000C);
    assert_eq!(cb.read_back(CB_DESTINATION_ADDRESS), 0x7E60_000C);
}

#[test]
fn transfer_length_round_trip() {
    let mut cb = fresh_cb();
    cb.set_transfer_length(244);
    assert_eq!(cb.read_back(CB_TRANSFER_LENGTH), 244);
}

#[test]
fn stride_and_next_round_trip() {
    let mut cb = fresh_cb();
    cb.set_transfer_stride(0x0001_0002);
    cb.set_next_control_block(0xC000_1F00);
    assert_eq!(cb.read_back(CB_TRANSFER_STRIDE), 0x0001_0002);
    assert_eq!(cb.read_back(CB_NEXT_CONTROL_BLOCK), 0xC000_1F00);
}

#[test]
fn writes_do_not_disturb_other_fields() {
    let mut cb = fresh_cb();
    cb.set_transfer_info(0x1111_1111);
    cb.set_source_address(0x2222_2222);
    cb.set_destination_address(0x3333_3333);
    cb.set_transfer_length(0x4444_4444);
    cb.set_transfer_stride(0x5555_5555);
    cb.set_next_control_block(0x6666_6666);
    assert_eq!(cb.read_back(CB_TRANSFER_INFO), 0x1111_1111);
    assert_eq!(cb.read_back(CB_SOURCE_ADDRESS), 0x2222_2222);
    assert_eq!(cb.read_back(CB_DESTINATION_ADDRESS), 0x3333_3333);
    assert_eq!(cb.read_back(CB_TRANSFER_LENGTH), 0x4444_4444);
    assert_eq!(cb.read_back(CB_TRANSFER_STRIDE), 0x5555_5555);
    assert_eq!(cb.read_back(CB_NEXT_CONTROL_BLOCK), 0x6666_6666);
}
