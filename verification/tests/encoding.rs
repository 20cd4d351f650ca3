use memmap2::MmapMut;
use smi_led::encoder::{
    led_tx_offset, tx_buff_len, tx_buff_size, write_leds, write_pulse_template, CHAN_MAXLEDS,
};
use smi_led::mem::VcMem;

fn fresh_buffer() -> VcMem {
    let mem = MmapMut::map_anon(0x3000).unwrap();
    VcMem::new(mem, 0xC000_2000)
}

#[test]
fn layout_offsets() {
    assert_eq!(led_tx_offset(0), 0);
    assert_eq!(led_tx_offset(1), 72);
    assert_eq!(led_tx_offset(2), 144);
    assert_eq!(tx_buff_len(2), 244);
    assert_eq!(tx_buff_size(2), 244);
    assert_eq!(tx_buff_len(CHAN_MAXLEDS), 128 * 72 + 100);
}

#[test]
fn template_lays_lead_data_trail() {
    let mut buf = fresh_buffer();
    write_pulse_template(&mut buf, 2);
    for g in 0..48 {
        assert_eq!(buf.read_byte(3 * g), 0xFF);
        assert_eq!(buf.read_byte(3 * g + 1), 0x00);
        assert_eq!(buf.read_byte(3 * g + 2), 0x00);
    }
    // the quiet suffix is untouched
    assert_eq!(buf.read_byte(144), 0);
}

#[test]
fn blue_and_red_light_the_expected_groups() {
    let mut buf = fresh_buffer();
    write_pulse_template(&mut buf, 2);
    let leds = [0x0000FFu32, 0xFF0000u32];
    write_leds(&mut buf, &leds);
    // slot 0 carries blue: only the final 8 bit groups' data samples are
    // set
    for j in 0..24 {
        let data = buf.read_byte(3 * j + 1);
        assert_eq!(data & 1, if j >= 16 { 1 } else { 0 }, "slot 0 group {j}");
    }
    // slot 1 carries red: only the top 8 bit groups' data samples are set
    for j in 0..24 {
        let data = buf.read_byte(72 + 3 * j + 1);
        assert_eq!(data & 1, if j < 8 { 1 } else { 0 }, "slot 1 group {j}");
    }
    // lead and trail samples are untouched
    for g in 0..48 {
        assert_eq!(buf.read_byte(3 * g), 0xFF);
        assert_eq!(buf.read_byte(3 * g + 2), 0x00);
    }
}

#[test]
fn encoding_is_idempotent() {
    let mut buf = fresh_buffer();
    write_pulse_template(&mut buf, 2);
    let leds = [0x0000FFu32, 0xFF0000u32];
    write_leds(&mut buf, &leds);
    let snapshot = buf.as_ref().to_vec();
    write_leds(&mut buf, &leds);
    assert_eq!(buf.as_ref(), &snapshot[..]);
}

#[test]
fn reencoding_overwrites_previous_colors() {
    let mut buf = fresh_buffer();
    write_pulse_template(&mut buf, 2);
    write_leds(&mut buf, &[0xFF0000u32, 0x0000FFu32]);
    write_leds(&mut buf, &[0x0000FFu32, 0xFF0000u32]);
    for j in 0..24 {
        let data = buf.read_byte(3 * j + 1);
        assert_eq!(data & 1, if j >= 16 { 1 } else { 0 });
    }
}

#[test]
fn other_wires_bits_are_preserved() {
    let mut buf = fresh_buffer();
    write_pulse_template(&mut buf, 1);
    // plant a foreign wire's bit in a data sample; encoding wire 0 must
    // keep it
    buf.write_byte(1, 0x02);
    write_leds(&mut buf, &[0x800000u32]);
    assert_eq!(buf.read_byte(1), 0x03);
}

#[test]
fn empty_color_list_changes_nothing() {
    let mut buf = fresh_buffer();
    write_pulse_template(&mut buf, 2);
    let mut snapshot = Vec::new();
    for k in 0..buf.len() {
        snapshot.push(buf.read_byte(k));
    }
    let empty: [u32; 0] = [];
    write_leds(&mut buf, &empty);
    for k in 0..buf.len() {
        assert_eq!(buf.read_byte(k), snapshot[k]);
    }
}
